use qck_prism::codec::{encode_ack, encode_colors, encode_light, Color};

fn expected_light(level: u8) -> Vec<u8> {
    let mut v = vec![0u8; 64];
    v[0] = 0x0c;
    v[2] = level;
    v
}

fn expected_colors(c1: Color, c2: Color) -> Vec<u8> {
    let mut v = vec![0u8; 524];
    v[0] = 0x0e;
    v[2] = 0x02;
    v[4] = c1.r;
    v[5] = c1.g;
    v[6] = c1.b;
    v[7] = 0xff;
    v[8] = 0x32;
    v[9] = 0xc8;
    v[13] = 0x01;
    v[16] = c2.r;
    v[17] = c2.g;
    v[18] = c2.b;
    v[19] = 0xff;
    v[20] = 0x32;
    v[21] = 0xc8;
    v[24] = 0x01;
    v[25] = 0x01;
    v[27] = 0x01;
    v
}

#[test]
fn light_buffer_layout_mid() {
    let buf = encode_light(128);
    assert_eq!(buf.len(), 64);
    assert_eq!(buf[0], 0x0c);
    assert_eq!(buf[1], 0x00);
    assert_eq!(buf[2], 0x80);
    for i in 3..64 {
        assert_eq!(buf[i], 0, "byte {} must be zero", i);
    }
    assert_eq!(buf, expected_light(128));
}

#[test]
fn light_buffer_layout_bounds() {
    assert_eq!(encode_light(0), expected_light(0));
    assert_eq!(encode_light(255), expected_light(255));
}

#[test]
fn color_buffer_layout() {
    let red = Color { r: 255, g: 0, b: 0 };
    let green = Color { r: 0, g: 255, b: 0 };
    let buf = encode_colors(red, green);
    assert_eq!(buf.len(), 524);
    assert_eq!(&buf[0..4], &[0x0e, 0x00, 0x02, 0x00]);
    assert_eq!(&buf[4..7], &[255, 0, 0]);
    assert_eq!(&buf[7..16], &[0xff, 0x32, 0xc8, 0, 0, 0, 0x01, 0, 0]);
    assert_eq!(&buf[16..19], &[0, 255, 0]);
    assert_eq!(&buf[19..28], &[0xff, 0x32, 0xc8, 0, 0, 0x01, 0x01, 0, 0x01]);
    for i in 28..524 {
        assert_eq!(buf[i], 0, "byte {} must be zero", i);
    }
    assert_eq!(buf, expected_colors(red, green));
}

#[test]
fn color_buffer_only_channels_vary() {
    let a = encode_colors(Color { r: 1, g: 2, b: 3 }, Color { r: 4, g: 5, b: 6 });
    let b = encode_colors(Color { r: 9, g: 8, b: 7 }, Color { r: 6, g: 5, b: 4 });
    for i in 0..524 {
        let channel = (4..=6).contains(&i) || (16..=18).contains(&i);
        if channel {
            continue;
        }
        assert_eq!(a[i], b[i], "byte {} must not vary with input", i);
    }
    assert_eq!(&a[4..7], &[1, 2, 3]);
    assert_eq!(&a[16..19], &[4, 5, 6]);
}

#[test]
fn ack_buffer_constant() {
    let first = encode_ack();
    let second = encode_ack();
    assert_eq!(first, second);
    let mut expected = vec![0u8; 64];
    expected[0] = 0x0d;
    assert_eq!(first, expected);
}
