use pathtracer::image::Image;
use pathtracer::ppm::push_decimal;

#[test]
fn decimal_digits() {
    let mut out = Vec::new();
    push_decimal(&mut out, 0);
    out.push(b' ');
    push_decimal(&mut out, 7);
    out.push(b' ');
    push_decimal(&mut out, 10);
    out.push(b' ');
    push_decimal(&mut out, 255);
    out.push(b' ');
    push_decimal(&mut out, 1234567890);
    assert_eq!(String::from_utf8(out).unwrap(), "0 7 10 255 1234567890");
}

#[test]
fn ppm_of_two_by_two() {
    let mut img = Image::new([0u8, 0, 0], 2, 2);
    img.set(0, 0, [255, 0, 0]);
    img.set(1, 0, [0, 128, 9]);
    img.set(1, 1, [255, 255, 255]);
    let text = String::from_utf8(img.to_ppm()).unwrap();
    assert_eq!(
        text,
        "P3\n2 2\n255\n255 0 0\n0 128 9\n0 0 0\n255 255 255\n"
    );
}

#[test]
fn ppm_is_row_major() {
    let mut img = Image::new([1u8, 1, 1], 3, 1);
    img.set(2, 0, [2, 2, 2]);
    let text = String::from_utf8(img.to_ppm()).unwrap();
    assert_eq!(text, "P3\n3 1\n255\n1 1 1\n1 1 1\n2 2 2\n");
}

#[test]
fn ppm_of_empty_image() {
    let img = Image::new([0u8, 0, 0], 0, 0);
    let text = String::from_utf8(img.to_ppm()).unwrap();
    assert_eq!(text, "P3\n0 0\n255\n");
}

#[test]
fn ppm_of_mapped_image() {
    let img = Image::new(3u8, 1, 2).map(|v| [v, v * 2, v * 50]);
    let text = String::from_utf8(img.to_ppm()).unwrap();
    assert_eq!(text, "P3\n1 2\n255\n3 6 150\n3 6 150\n");
}
