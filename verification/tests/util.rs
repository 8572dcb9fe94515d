use ferrux_viewport::util::{as_signed, buffer_index, to_pixel};

#[test]
fn to_pixel_test() {
    // Minimum
    assert_eq!((0, 0, 0), to_pixel((-1_000_000, -1_000_000, -1_000_000), (640, 480, 100)));
    // Middle
    assert_eq!((320, 240, 50), to_pixel((0, 0, 0), (640, 480, 100)));
    // Maximum
    assert_eq!((640, 480, 100), to_pixel((1_000_000, 1_000_000, 1_000_000), (640, 480, 100)));
    // Random
    assert_eq!((240, 288, 80), to_pixel((-250_000, 200_000, 600_000), (640, 480, 100)));
}

#[test]
fn buffer_index_test() {
    assert_eq!(0, buffer_index(0, 0, 640));
    assert_eq!(153920, buffer_index(320, 240, 640));
    assert_eq!(480 * 640, buffer_index(640, 479, 640));
    assert_eq!(136444, buffer_index(124, 213, 640));
}

#[test]
fn to_pixel_is_deterministic_and_monotonic() {
    let sizes = (640, 480, 100);
    assert_eq!(to_pixel((-250_000, 200_000, 600_000), sizes), to_pixel((-250_000, 200_000, 600_000), sizes));
    let lower = to_pixel((-250_000, -250_000, -250_000), sizes);
    let higher = to_pixel((250_000, 250_000, 250_000), sizes);
    assert!(lower.0 <= higher.0);
    assert!(lower.1 <= higher.1);
    assert!(lower.2 <= higher.2);
}

#[test]
fn as_signed_is_lossless() {
    assert_eq!((640, 479, 100), as_signed((640, 479, 100)));
    assert_eq!((0, 0, 0), as_signed((0, 0, 0)));
}
