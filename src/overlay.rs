use vstd::prelude::*;
use crate::detection::Rect;
use vstd::utf8::encode_utf8;

verus! {

/// The character of a decimal digit.
pub open spec fn digit_char(d: int) -> char {
    seq!['0', '1', '2', '3', '4', '5', '6', '7', '8', '9'][d]
}

/// The decimal digits of `n`, most significant first, with no leading zero.
pub open spec fn decimal(n: nat) -> Seq<char>
    decreases n,
{
    if n < 10 {
        seq![digit_char(n as int)]
    } else {
        decimal(n / 10).push(digit_char((n % 10) as int))
    }
}

/// Exactly three digits of `n < 1000`, zero padded.
pub open spec fn three_digits(n: nat) -> Seq<char> {
    seq![digit_char((n / 100) as int), digit_char(((n / 10) % 10) as int), digit_char((n % 10) as int)]
}

/// `n` in decimal with a comma between each group of three digits,
/// counted from the least significant digit.
pub open spec fn grouped(n: nat) -> Seq<char>
    decreases n,
{
    if n < 1000 {
        decimal(n)
    } else {
        grouped(n / 1000) + seq![','] + three_digits(n % 1000)
    }
}

/// A price as shown to the user: thousands separated, minus sign in front.
pub open spec fn price_text(p: int) -> Seq<char> {
    if p < 0 {
        seq!['-'] + grouped((-p) as nat)
    } else {
        grouped(p as nat)
    }
}

/// The text of a tooltip for an item called `name` at price `p`.
pub open spec fn tooltip_of(name: Seq<char>, p: int) -> Seq<char> {
    name + seq![':', ' '] + price_text(p) + seq!['₽']
}

fn digit_str(d: u32) -> (r: &'static str)
    requires
        d < 10,
    ensures
        r@ == seq![digit_char(d as int)],
{
    proof {
        reveal_strlit("0");
        reveal_strlit("1");
        reveal_strlit("2");
        reveal_strlit("3");
        reveal_strlit("4");
        reveal_strlit("5");
        reveal_strlit("6");
        reveal_strlit("7");
        reveal_strlit("8");
        reveal_strlit("9");
    }
    let r = if d == 0 {
        "0"
    } else if d == 1 {
        "1"
    } else if d == 2 {
        "2"
    } else if d == 3 {
        "3"
    } else if d == 4 {
        "4"
    } else if d == 5 {
        "5"
    } else if d == 6 {
        "6"
    } else if d == 7 {
        "7"
    } else if d == 8 {
        "8"
    } else {
        "9"
    };
    assert(r@ =~= seq![digit_char(d as int)]);
    r
}

/// Digits of a number below one thousand, with no leading zero.
fn small_decimal(n: u32) -> (r: String)
    requires
        n < 1000,
    ensures
        r@ == decimal(n as nat),
{
    let mut s = String::new();
    if n >= 100 {
        s.append(digit_str(n / 100));
        assert(decimal((n / 10) as nat) == decimal((n / 100) as nat).push(digit_char(((n / 10) % 10) as int)));
    }
    if n >= 10 {
        s.append(digit_str((n / 10) % 10));
    }
    s.append(digit_str(n % 10));
    proof {
        if n >= 100 {
            assert((n / 10) / 10 == n / 100);
            assert(decimal((n / 100) as nat) =~= seq![digit_char((n / 100) as int)]);
        } else if n >= 10 {
            assert(decimal((n / 10) as nat) =~= seq![digit_char((n / 10) as int)]);
        }
    }
    assert(s@ =~= decimal(n as nat));
    s
}

/// Formats a price with a comma between each group of three digits,
/// independent of locale: `1000000` gives `"1,000,000"`.
pub fn format_price(price: i32) -> (r: String)
    ensures
        r@ == price_text(price as int),
{
    let negative = price < 0;
    let mag: u32 = if negative {
        (-(price as i64)) as u32
    } else {
        price as u32
    };
    let mut n: u32 = mag;
    let mut tail = String::new();
    while n >= 1000
        invariant
            grouped(mag as nat) == grouped(n as nat) + tail@,
        decreases n,
    {
        let low = n % 1000;
        let mut piece = String::new();
        piece.append(",");
        piece.append(digit_str(low / 100));
        piece.append(digit_str((low / 10) % 10));
        piece.append(digit_str(low % 10));
        piece.append(tail.as_str());
        proof {
            reveal_strlit(",");
            assert(piece@ =~= seq![','] + three_digits(low as nat) + tail@);
            assert(grouped(n as nat) == grouped((n / 1000) as nat) + seq![','] + three_digits(
                low as nat,
            ));
            assert(grouped(n as nat) + tail@ =~= grouped((n / 1000) as nat) + piece@);
        }
        tail = piece;
        n = n / 1000;
    }
    let head = small_decimal(n);
    let mut r = String::new();
    if negative {
        r.append("-");
    }
    r.append(head.as_str());
    r.append(tail.as_str());
    proof {
        reveal_strlit("-");
        assert(grouped(n as nat) == decimal(n as nat));
        if negative {
            assert(r@ =~= seq!['-'] + grouped(mag as nat));
        } else {
            assert(r@ =~= grouped(mag as nat));
        }
    }
    r
}

/// The tooltip shown above a detected item: `"<name>: <price>₽"`.
pub fn tooltip_text(name: &str, price: i32) -> (r: String)
    ensures
        r@ == tooltip_of(name@, price as int),
{
    let mut r = String::new();
    r.append(name);
    r.append(": ");
    let p = format_price(price);
    r.append(p.as_str());
    r.append("₽");
    proof {
        reveal_strlit(": ");
        reveal_strlit("₽");
        assert(r@ =~= tooltip_of(name@, price as int));
    }
    r
}

/// How far above the detected item a tooltip sits.
pub const TOOLTIP_OFFSET: i32 = 30;

/// The height of a tooltip's background.
pub const TOOLTIP_HEIGHT: u32 = 30;

/// A colour packed as the host expects it: alpha, red, green, blue from the
/// high byte down.
pub open spec fn packed_color(r: u8, g: u8, b: u8, a: u8) -> int {
    a as int * 0x1000000 + r as int * 0x10000 + g as int * 0x100 + b as int
}

pub fn gs_color_from_rgba(r: u8, g: u8, b: u8, a: u8) -> (c: u32)
    ensures
        c == packed_color(r, g, b, a),
{
    (a as u32) * 0x1000000 + (r as u32) * 0x10000 + (g as u32) * 0x100 + (b as u32)
}

/// Where and what a tooltip draws: its background box, and the text with
/// the point it is drawn from.
pub struct Tooltip {
    pub x: i32,
    pub y: i32,
    pub width: u32,
    pub height: u32,
    pub text: String,
    pub text_x: i32,
    pub text_y: i32,
}

/// How far right of the box's left edge the text starts.
pub const TEXT_PADDING_X: i32 = 5;

/// How far below the box's top edge the text's baseline lies.
pub const TEXT_BASELINE_Y: i32 = 20;

/// `v + d`, held at the largest `i32`.
pub open spec fn shifted(v: i32, d: i32) -> int {
    if v as int + d <= i32::MAX {
        v + d
    } else {
        i32::MAX as int
    }
}

/// The tooltip of an item found at `rect`: its text, anchored above the
/// rectangle, ten units wide per byte of the text's UTF-8 form; the text
/// starts inside the box, padded from its left edge and down to its
/// baseline.
pub fn tooltip_layout(rect: &Rect, name: &str, price: i32) -> (t: Tooltip)
    requires
        name@.len() <= 100_000_000,
    ensures
        t.text@ == tooltip_of(name@, price as int),
        t.x == rect.x,
        t.y == (if rect.y >= i32::MIN + TOOLTIP_OFFSET { rect.y - TOOLTIP_OFFSET } else { i32::MIN as int }),
        t.width == 10 * encode_utf8(t.text@).len(),
        t.height == TOOLTIP_HEIGHT,
        t.text_x == shifted(t.x, TEXT_PADDING_X),
        t.text_y == t.y + TEXT_BASELINE_Y,
{
    let text = tooltip_text(name, price);
    proof {
        lemma_grouped_len(if price < 0 { -(price as int) } else { price as int });
        lemma_utf8_len(text@);
    }
    let n = text.as_str().len();
    let y = if rect.y >= i32::MIN + TOOLTIP_OFFSET {
        rect.y - TOOLTIP_OFFSET
    } else {
        i32::MIN
    };
    let text_x = if rect.x <= i32::MAX - TEXT_PADDING_X {
        rect.x + TEXT_PADDING_X
    } else {
        i32::MAX
    };
    Tooltip {
        x: rect.x,
        y,
        width: (n as u32) * 10,
        height: TOOLTIP_HEIGHT,
        text,
        text_x,
        text_y: y + TEXT_BASELINE_Y,
    }
}

/// No character takes more than four bytes in UTF-8.
proof fn lemma_utf8_len(s: Seq<char>)
    ensures
        encode_utf8(s).len() <= 4 * s.len(),
    decreases s.len(),
{
    if s.len() > 0 {
        lemma_utf8_len(s.drop_first());
    }
}

/// A grouped number below 2^32 takes at most 15 characters.
proof fn lemma_grouped_len(n: int)
    requires
        0 <= n < 0x1_0000_0000,
    ensures
        grouped(n as nat).len() <= 15,
{
    let m = n as nat;
    if m < 1000 {
        lemma_decimal_len(m);
    } else {
        let a = m / 1000;
        assert(grouped(m).len() == grouped(a).len() + 4);
        if a < 1000 {
            lemma_decimal_len(a);
        } else {
            let b = a / 1000;
            assert(grouped(a).len() == grouped(b).len() + 4);
            if b < 1000 {
                lemma_decimal_len(b);
            } else {
                let c = b / 1000;
                assert(c < 1000);
                assert(grouped(b).len() == grouped(c).len() + 4);
                lemma_decimal_len(c);
            }
        }
    }
}

proof fn lemma_decimal_len(n: nat)
    requires
        n < 1000,
    ensures
        decimal(n).len() <= 3,
{
    reveal_with_fuel(decimal, 4);
}

/// The label of a detection drawn on a frame, and where its baseline
/// starts: ten units above the rectangle.
pub fn detection_label(rect: &Rect, name: &str, price: i32) -> (r: (String, i32, i32))
    ensures
        r.0@ == tooltip_of(name@, price as int),
        r.1 == rect.x,
        r.2 == (if rect.y >= i32::MIN + 10 { rect.y - 10 } else { i32::MIN as int }),
{
    let text = tooltip_text(name, price);
    let y = if rect.y >= i32::MIN + 10 {
        rect.y - 10
    } else {
        i32::MIN
    };
    (text, rect.x, y)
}

} // verus!
