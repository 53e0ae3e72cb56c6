use camera_view::shaders::source_length;
use camera_view::ShaderPair;

#[test]
fn shader_pair_keeps_the_program_name() {
    assert_eq!(ShaderPair::new(0).program_id(), 0);
    assert_eq!(ShaderPair::new(7).program_id(), 7);
    assert_eq!(ShaderPair::new(u32::MAX).program_id(), u32::MAX);
}

#[test]
fn source_length_counts_bytes() {
    assert_eq!(source_length(b""), 0);
    assert_eq!(source_length(b"void main() {}"), 14);
    let long = vec![b' '; 70_000];
    assert_eq!(source_length(&long), 70_000);
}
