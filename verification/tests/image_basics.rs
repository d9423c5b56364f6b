use stb_image::image::{new_image, Image, LoadResult};

#[test]
fn new_image_wraps_buffer_and_dimensions() {
    let data: Vec<u8> = vec![7u8; 24];
    let img = new_image(4, 2, 3, data);
    assert_eq!(img.width, 4);
    assert_eq!(img.height, 2);
    assert_eq!(img.depth, 3);
    assert_eq!(img.data.len(), 24);
    assert!(img.data.iter().all(|&s| s == 7));
}

#[test]
fn image_new_wraps_buffer_and_dimensions() {
    let data: Vec<u8> = vec![1u8, 2, 3, 4, 5, 6];
    let img: Image<u8> = Image::new(2, 1, 3, data);
    assert_eq!(img.width, 2);
    assert_eq!(img.height, 1);
    assert_eq!(img.depth, 3);
    assert_eq!(img.data, vec![1u8, 2, 3, 4, 5, 6]);
}

#[test]
fn image_new_supports_float_samples() {
    let data: Vec<f32> = vec![0.5f32; 12];
    let img: Image<f32> = Image::new(2, 2, 3, data);
    assert_eq!(img.depth, 3);
    assert_eq!(img.data.len(), 12);
}

#[test]
fn from_result_keeps_ok_value() {
    let inner: LoadResult<f32> = LoadResult::ImageU8(Image::new(1, 1, 1, vec![9u8]));
    let r = LoadResult::from_result(Ok(inner));
    match r {
        LoadResult::ImageU8(img) => {
            assert_eq!(img.width, 1);
            assert_eq!(img.data, vec![9u8]);
        }
        _ => panic!("expected an 8-bit image"),
    }
}

#[test]
fn from_result_turns_err_into_error_variant() {
    let r: LoadResult<f32> = LoadResult::from_result(Err(String::from("decoder exploded")));
    match r {
        LoadResult::Error(m) => assert_eq!(m, "decoder exploded"),
        _ => panic!("expected the error variant"),
    }
}
