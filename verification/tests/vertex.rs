use camera_view::size_of_element;

#[test]
fn size_of_element_is_the_size_of_the_element_type() {
    let bytes: [u8; 2] = [1, 2];
    let words: [u32; 3] = [1, 2, 3];
    let longs: [u64; 1] = [1];
    let vertices: [f32; 9] = [-0.5, -0.5, 0.0, 0.5, -0.5, 0.0, 0.0, 0.5, 0.0];
    let pairs: [(u16, u16, u16); 2] = [(1, 2, 3), (4, 5, 6)];
    assert_eq!(size_of_element(&bytes), 1);
    assert_eq!(size_of_element(&words), 4);
    assert_eq!(size_of_element(&longs), 8);
    assert_eq!(size_of_element(&vertices), 4);
    assert_eq!(size_of_element(&pairs), 6);
}

#[test]
fn size_of_element_ignores_the_length() {
    let none: [f64; 0] = [];
    let units: [(); 5] = [(); 5];
    assert_eq!(size_of_element(&none), 8);
    assert_eq!(size_of_element(&units), 0);
}

#[test]
fn stride_of_three_floats_is_twelve_bytes() {
    let vertices: [f32; 9] = [-0.5, -0.5, 0.0, 0.5, -0.5, 0.0, 0.0, 0.5, 0.0];
    assert_eq!(3 * size_of_element(&vertices), 12);
}
