use image_processors::geometry::ImageSize;

#[test]
fn image_size_rejects_zero() {
    assert!(ImageSize::new(0, 3).is_err());
    assert_eq!(ImageSize::new(2, 3).unwrap().width, 3);
}
