use ssd1677::rotation::apply_rotation;
use ssd1677::Rotation;

#[test]
fn test_rotate0() {
    let (idx, bit) = apply_rotation(0, 0, 8, 1, Rotation::Rotate0);
    assert_eq!(idx, 0);
    assert_eq!(bit, 0x80);

    let (idx, bit) = apply_rotation(1, 0, 8, 1, Rotation::Rotate0);
    assert_eq!(idx, 0);
    assert_eq!(bit, 0x40);

    let (idx, bit) = apply_rotation(7, 0, 8, 1, Rotation::Rotate0);
    assert_eq!(idx, 0);
    assert_eq!(bit, 0x01);

    let (idx, bit) = apply_rotation(0, 1, 8, 2, Rotation::Rotate0);
    assert_eq!(idx, 1);
    assert_eq!(bit, 0x80);
}

#[test]
fn test_rotate180() {
    let (idx, bit) = apply_rotation(7, 0, 8, 1, Rotation::Rotate180);
    assert_eq!(idx, 0);
    assert_eq!(bit, 0x80);

    let (idx, bit) = apply_rotation(0, 0, 8, 1, Rotation::Rotate180);
    assert_eq!(idx, 0);
    assert_eq!(bit, 0x01);
}

#[test]
fn test_rotate90() {
    let (idx, bit) = apply_rotation(0, 0, 16, 16, Rotation::Rotate90);
    assert_eq!(idx, 1);
    assert_eq!(bit, 0x01);
}

#[test]
fn test_rotate270() {
    let (idx, bit) = apply_rotation(0, 0, 16, 16, Rotation::Rotate270);
    assert_eq!(idx, 30);
    assert_eq!(bit, 0x80);
}
