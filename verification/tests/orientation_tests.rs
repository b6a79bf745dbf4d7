use imgforge::processing::metadata::source_orientation_fix;
use imgforge::processing::transform::{orientation_fix, FlipAxis, OrientationFix};

/// A JPEG whose only content is an Exif segment with one orientation field.
fn jpeg_with_orientation(orientation: u16) -> Vec<u8> {
    let mut tiff = vec![b'M', b'M', 0x00, 0x2A, 0x00, 0x00, 0x00, 0x08];
    tiff.extend_from_slice(&[0x00, 0x01]);
    tiff.extend_from_slice(&[0x01, 0x12, 0x00, 0x03, 0x00, 0x00, 0x00, 0x01]);
    tiff.extend_from_slice(&orientation.to_be_bytes());
    tiff.extend_from_slice(&[0x00, 0x00]);
    tiff.extend_from_slice(&[0x00, 0x00, 0x00, 0x00]);
    let mut segment = b"Exif\0\0".to_vec();
    segment.extend_from_slice(&tiff);
    let length = (segment.len() + 2) as u16;
    let mut jpeg = vec![0xFF, 0xD8, 0xFF, 0xE1];
    jpeg.extend_from_slice(&length.to_be_bytes());
    jpeg.extend_from_slice(&segment);
    jpeg.extend_from_slice(&[0xFF, 0xDA, 0x00, 0x02, 0xFF, 0xD9]);
    jpeg
}

#[test]
fn each_orientation_has_its_fix() {
    assert_eq!(orientation_fix(1), None);
    assert_eq!(orientation_fix(2), Some(OrientationFix { rotation: 0, flip: Some(FlipAxis::Horizontal) }));
    assert_eq!(orientation_fix(3), Some(OrientationFix { rotation: 180, flip: None }));
    assert_eq!(orientation_fix(4), Some(OrientationFix { rotation: 0, flip: Some(FlipAxis::Vertical) }));
    assert_eq!(orientation_fix(5), Some(OrientationFix { rotation: 90, flip: Some(FlipAxis::Horizontal) }));
    assert_eq!(orientation_fix(6), Some(OrientationFix { rotation: 90, flip: None }));
    assert_eq!(orientation_fix(7), Some(OrientationFix { rotation: 270, flip: Some(FlipAxis::Horizontal) }));
    assert_eq!(orientation_fix(8), Some(OrientationFix { rotation: 270, flip: None }));
    assert_eq!(orientation_fix(9), None);
}

#[test]
fn exif_orientation_is_read_from_the_source() {
    let jpeg = jpeg_with_orientation(6);
    assert_eq!(source_orientation_fix(&jpeg, true), Some(OrientationFix { rotation: 90, flip: None }));
    assert_eq!(source_orientation_fix(&jpeg, false), None);
    assert_eq!(source_orientation_fix(&jpeg_with_orientation(1), true), None);
}

#[test]
fn a_source_without_exif_needs_no_fix() {
    let jpeg = vec![0xFF, 0xD8, 0xFF, 0xDA, 0x00, 0x02, 0xFF, 0xD9];
    assert_eq!(source_orientation_fix(&jpeg, true), None);
    assert_eq!(source_orientation_fix(b"not an image", true), None);
}
