use raytracer::canvas::Canvas;
use raytracer::ppm::{append_decimal, append_pixel, clamp_level, Rgb8};

#[derive(Clone, Copy, Debug, PartialEq)]
struct Color {
    red: f64,
    green: f64,
    blue: f64,
}

fn level(v: f64) -> u8 {
    clamp_level((v * 256.) as i64)
}

fn quantize(c: Color) -> Rgb8 {
    Rgb8 {
        red: level(c.red),
        green: level(c.green),
        blue: level(c.blue),
    }
}

const BLACK: Rgb8 = Rgb8 {
    red: 0,
    green: 0,
    blue: 0,
};

#[test]
fn test_canvas() {
    let red = Color {
        red: 1.,
        blue: 0.,
        green: 0.,
    };
    let black = Color {
        red: 0.,
        blue: 0.,
        green: 0.,
    };
    let mut c = Canvas::new(10, 20, black);
    c.write_pixel(2, 3, red.clone());
    assert_eq!(c.pixel_at(2, 3), red);
}

#[test]
fn test_pixel_data() {
    let mut c = Canvas::new(5, 3, BLACK);
    let c1 = Color {
        red: 1.5,
        blue: 0.,
        green: 0.,
    };

    let c2 = Color {
        red: 0.,
        green: 0.5,
        blue: 0.,
    };

    let c3 = Color {
        red: -0.5,
        green: 0.,
        blue: 1.,
    };
    c.write_pixel(0, 0, quantize(c1));
    c.write_pixel(2, 1, quantize(c2));
    c.write_pixel(4, 2, quantize(c3));
    assert_eq!(
        c.to_ppm(),
        "255 0 0 0 0 0 0 0 0 0 0 0 0 0 0 
0 0 0 0 0 0 0 128 0 0 0 0 0 0 0 
0 0 0 0 0 0 0 0 0 0 0 0 0 0 255 
"
    );
}

#[test]
fn new_canvas_is_filled_and_sized() {
    let c = Canvas::new(4, 2, BLACK);
    assert_eq!(c.width(), 4);
    assert_eq!(c.height(), 2);
    for y in 0..2 {
        for x in 0..4 {
            assert_eq!(c.pixel_at(x, y), BLACK);
        }
    }
}

#[test]
fn write_pixel_overwrites_without_blending() {
    let mut c = Canvas::new(3, 3, BLACK);
    let a = Rgb8 { red: 10, green: 20, blue: 30 };
    let b = Rgb8 { red: 1, green: 2, blue: 3 };
    c.write_pixel(1, 2, a);
    c.write_pixel(1, 2, b);
    assert_eq!(c.pixel_at(1, 2), b);
    assert_eq!(c.pixel_at(2, 1), BLACK);
}

#[test]
fn save_writes_header_then_rows() {
    let mut c = Canvas::new(2, 1, BLACK);
    c.write_pixel(1, 0, Rgb8 { red: 255, green: 7, blue: 64 });
    assert_eq!(c.save(), "P3\n2 1\n255\n0 0 0 255 7 64 \n");
}

#[test]
fn save_of_an_empty_canvas_is_the_header() {
    let c = Canvas::new(0, 0, BLACK);
    assert_eq!(c.to_ppm(), "");
    assert_eq!(c.save(), "P3\n0 0\n255\n");
    let tall = Canvas::new(0, 2, BLACK);
    assert_eq!(tall.save(), "P3\n0 2\n255\n\n\n");
}

#[test]
fn serializing_twice_gives_the_same_text() {
    let mut c = Canvas::new(5, 3, BLACK);
    c.write_pixel(0, 0, quantize(Color { red: 1.5, green: 0., blue: 0. }));
    c.write_pixel(2, 1, quantize(Color { red: 0., green: 0.5, blue: 0. }));
    c.write_pixel(4, 2, quantize(Color { red: -0.5, green: 0., blue: 1. }));
    let first = c.save();
    let second = c.save();
    assert_eq!(first, second);
    assert_eq!(
        first,
        "P3\n5 3\n255\n255 0 0 0 0 0 0 0 0 0 0 0 0 0 0 \n0 0 0 0 0 0 0 128 0 0 0 0 0 0 0 \n0 0 0 0 0 0 0 0 0 0 0 0 0 0 255 \n"
    );
}

#[test]
fn clamp_boundaries() {
    assert_eq!(level(255. / 256.), 255);
    assert_eq!(level(-0.5), 0);
    assert_eq!(level(-0.001), 0);
    assert_eq!(level(1.0), 255);
    assert_eq!(level(1.5), 255);
    assert_eq!(level(1.0e30), 255);
    assert_eq!(level(0.5), 128);
    assert_eq!(level(0.999), 255);
    assert_eq!(level(0.99), 253);
    assert_eq!(clamp_level(i64::MAX), 255);
    assert_eq!(clamp_level(i64::MIN), 0);
    assert_eq!(clamp_level(256), 255);
    assert_eq!(clamp_level(255), 255);
    assert_eq!(clamp_level(254), 254);
    assert_eq!(clamp_level(0), 0);
    assert_eq!(clamp_level(-1), 0);
}

#[test]
fn decimal_text() {
    let mut s = String::from("x");
    append_decimal(&mut s, 0);
    assert_eq!(s, "x0");
    append_decimal(&mut s, 1234567890);
    assert_eq!(s, "x01234567890");
    let mut m = String::new();
    append_decimal(&mut m, u64::MAX);
    assert_eq!(m, "18446744073709551615");
}

#[test]
fn pixel_text_has_trailing_space() {
    let mut s = String::new();
    append_pixel(&mut s, Rgb8 { red: 0, green: 100, blue: 255 });
    assert_eq!(s, "0 100 255 ");
}
