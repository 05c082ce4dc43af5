use gpu_blur::error::BlurError;
use gpu_blur::picture::Picture;

#[test]
fn picture_keeps_size_and_bytes() {
    let bytes: Vec<u8> = (0u8..24).collect();
    let picture = Picture::new(3, 2, bytes.clone()).ok().unwrap();
    assert_eq!(picture.dimensions(), (3, 2));
    let (width, height, raw) = picture.into_parts();
    assert_eq!(width, 3);
    assert_eq!(height, 2);
    assert_eq!(raw, bytes);
}

#[test]
fn picture_takes_a_longer_buffer() {
    let bytes: Vec<u8> = vec![7u8; 30];
    let picture = Picture::new(3, 2, bytes.clone()).ok().unwrap();
    let (width, height, raw) = picture.into_parts();
    assert_eq!((width, height), (3, 2));
    assert_eq!(raw, bytes);
}

#[test]
fn picture_rejects_a_short_buffer() {
    assert!(matches!(Picture::new(3, 2, vec![0u8; 23]), Err(BlurError::InvalidImageBuffer)));
    assert!(matches!(Picture::new(1, 1, Vec::new()), Err(BlurError::InvalidImageBuffer)));
    assert!(matches!(
        Picture::new(u32::MAX, u32::MAX, vec![0u8; 16]),
        Err(BlurError::InvalidImageBuffer)
    ));
}

#[test]
fn picture_without_pixels_is_a_picture() {
    let picture = Picture::new(0, 5, Vec::new()).ok().unwrap();
    assert_eq!(picture.dimensions(), (0, 5));
    let picture = Picture::new(0, 0, vec![1u8, 2, 3]).ok().unwrap();
    let (width, height, raw) = picture.into_parts();
    assert_eq!((width, height), (0, 0));
    assert_eq!(raw, vec![1u8, 2, 3]);
}
