use open_clip_inference::error::ClipError;
use open_clip_inference::onnx::OnnxSession;
use open_clip_inference::vision::{
    batch_tensor_shape, channel_planes, output_dims, select_vision_input, Interpolation, ResizeMode,
};

#[test]
fn interpolation_names() {
    assert_eq!(Interpolation::from_name("bicubic"), Interpolation::Bicubic);
    assert_eq!(Interpolation::from_name("bilinear"), Interpolation::Bilinear);
    assert_eq!(Interpolation::from_name("nearest"), Interpolation::Nearest);
    assert_eq!(Interpolation::from_name("Bicubic"), Interpolation::Nearest);
    assert_eq!(Interpolation::from_name(""), Interpolation::Nearest);
}

#[test]
fn resize_mode_names() {
    assert_eq!(ResizeMode::from_name("squash"), ResizeMode::Squash);
    assert_eq!(ResizeMode::from_name("shortest"), ResizeMode::CenterCrop);
    assert_eq!(ResizeMode::from_name("longest"), ResizeMode::CenterCrop);
}

fn session(names: &[&str]) -> OnnxSession {
    OnnxSession::new(names.iter().map(|s| s.to_string()).collect(), Vec::new(), None, None, None, None)
}

#[test]
fn vision_input_is_selected() {
    assert_eq!(select_vision_input(&session(&["input", "pixel_values"])), Ok("pixel_values".to_string()));
    assert_eq!(select_vision_input(&session(&["input"])), Ok("input".to_string()));
    assert_eq!(
        select_vision_input(&session(&["input_ids"])),
        Err(ClipError::Config("Could not find vision input node".to_string()))
    );
}

#[test]
fn batch_shape_and_empty_batch() {
    assert_eq!(batch_tensor_shape(0, 224), Err(ClipError::Inference("Empty batch".to_string())));
    assert_eq!(batch_tensor_shape(2, 224), Ok((2, 3, 224, 224)));
    assert_eq!(batch_tensor_shape(1, 256), Ok((1, 3, 256, 256)));
}

#[test]
fn channel_planes_of_two_by_two_image() {
    let pixels: Vec<u8> = vec![1, 2, 3, 4, 5, 6, 7, 8, 9, 10, 11, 12];
    let planes = channel_planes(&pixels, 2);
    assert_eq!(planes, vec![1, 4, 7, 10, 2, 5, 8, 11, 3, 6, 9, 12]);
}

#[test]
fn channel_planes_ignore_trailing_bytes_and_keep_every_byte() {
    let pixels: Vec<u8> = (0..30).collect();
    let planes = channel_planes(&pixels, 3);
    assert_eq!(planes.len(), 27);
    for k in 0..27usize {
        assert_eq!(pixels[k], planes[(k % 3) * 9 + k / 3]);
    }
    assert!(channel_planes(&[], 0).is_empty());
}

#[test]
fn output_dims_cast_each_extent() {
    assert_eq!(output_dims(&[2, 512]), vec![2usize, 512]);
    assert_eq!(output_dims(&[]), Vec::<usize>::new());
    assert_eq!(output_dims(&[-1]), vec![usize::MAX]);
}
