use tarkuck::detection::Rect;
use tarkuck::overlay::{detection_label, format_price, gs_color_from_rgba, tooltip_layout, tooltip_text};

#[test]
fn format_price_millions() {
    assert_eq!(format_price(1000000), "1,000,000");
}

#[test]
fn format_price_below_thousand() {
    assert_eq!(format_price(999), "999");
}

#[test]
fn format_price_zero() {
    assert_eq!(format_price(0), "0");
}

#[test]
fn format_price_exact_thousand() {
    assert_eq!(format_price(1000), "1,000");
    assert_eq!(format_price(12345), "12,345");
    assert_eq!(format_price(100200), "100,200");
}

#[test]
fn format_price_extremes() {
    assert_eq!(format_price(i32::MAX), "2,147,483,647");
    assert_eq!(format_price(i32::MIN), "-2,147,483,648");
    assert_eq!(format_price(-1234), "-1,234");
    assert_eq!(format_price(-123), "-123");
}

#[test]
fn tooltip_text_has_name_price_and_currency() {
    assert_eq!(tooltip_text("Salewa", 12345), "Salewa: 12,345₽");
}

#[test]
fn tooltip_sits_above_the_item() {
    let rect = Rect { x: 50, y: 50, width: 32, height: 32 };
    let t = tooltip_layout(&rect, "LEDX", 1500000);
    assert_eq!(t.text, "LEDX: 1,500,000₽");
    assert_eq!(t.x, 50);
    assert_eq!(t.y, 20);
    assert_eq!(t.width, 10 * t.text.len() as u32);
    assert_eq!(t.width, 10 * (15 + 3));
    assert_eq!(t.height, 30);
    assert_eq!((t.text_x, t.text_y), (55, 40));
    let low = Rect { x: 0, y: i32::MIN, width: 1, height: 1 };
    assert_eq!(tooltip_layout(&low, "a", 1).y, i32::MIN);
    let right = Rect { x: i32::MAX, y: 0, width: 1, height: 1 };
    assert_eq!(tooltip_layout(&right, "a", 1).text_x, i32::MAX);
}

#[test]
fn color_is_packed_argb() {
    assert_eq!(gs_color_from_rgba(0x11, 0x22, 0x33, 0x44), 0x44112233);
    assert_eq!(gs_color_from_rgba(0, 255, 0, 127), 0x7f00ff00);
}

#[test]
fn detection_label_sits_above_rect() {
    let rect = Rect { x: 5, y: 40, width: 10, height: 10 };
    let (text, x, y) = detection_label(&rect, "Bolts", 15000);
    assert_eq!(text, "Bolts: 15,000₽");
    assert_eq!((x, y), (5, 30));
}
