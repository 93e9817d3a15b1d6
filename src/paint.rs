use vstd::prelude::*;

verus! {

/// An RGB color.
#[derive(Clone, Copy, Debug, PartialEq, Eq, Structural)]
pub struct Color {
    pub r: u8,
    pub g: u8,
    pub b: u8,
}

/// The color packed the way the GDI expects it: `0x00BBGGRR`.
pub open spec fn colorref_of(c: Color) -> nat {
    c.b as nat * 0x10000 + c.g as nat * 0x100 + c.r as nat
}

impl Color {
    pub fn new(r: u8, g: u8, b: u8) -> (c: Color)
        ensures
            c.r == r,
            c.g == g,
            c.b == b,
    {
        Color { r, g, b }
    }

    /// The packed `0x00BBGGRR` form.
    pub fn to_colorref(&self) -> (v: u32)
        ensures
            v == colorref_of(*self),
            v < 0x1000000,
    {
        (self.b as u32) * 0x10000u32 + (self.g as u32) * 0x100u32 + (self.r as u32)
    }
}

pub open spec fn white() -> Color {
    Color { r: 0xff, g: 0xff, b: 0xff }
}

pub open spec fn black() -> Color {
    Color { r: 0, g: 0, b: 0 }
}

/// The dark theme's background, a deep purple.
pub open spec fn dark_purple() -> Color {
    Color { r: 0x1f, g: 0x06, b: 0x4f }
}

/// Background and text colors of one theme.
#[derive(Clone, Copy, Debug, PartialEq, Eq, Structural)]
pub struct Palette {
    pub background: Color,
    pub text: Color,
}

/// The two-entry palette: dark purple with white text, or white with black text.
pub open spec fn palette_spec(is_dark: bool) -> Palette {
    if is_dark {
        Palette { background: dark_purple(), text: white() }
    } else {
        Palette { background: white(), text: black() }
    }
}

/// Picks the colors for a theme.
pub fn palette(is_dark: bool) -> (p: Palette)
    ensures
        p == palette_spec(is_dark),
        is_dark ==> p.background == dark_purple() && p.text == white(),
        !is_dark ==> p.background == white() && p.text == black(),
{
    if is_dark {
        Palette { background: Color::new(0x1f, 0x06, 0x4f), text: Color::new(0xff, 0xff, 0xff) }
    } else {
        Palette { background: Color::new(0xff, 0xff, 0xff), text: Color::new(0, 0, 0) }
    }
}

/// A rectangle in client coordinates, edges inclusive-exclusive as in the GDI.
#[derive(Clone, Copy, Debug, PartialEq, Eq, Structural)]
pub struct Rect {
    pub left: i32,
    pub top: i32,
    pub right: i32,
    pub bottom: i32,
}

/// Pixels between the upper third of the client area and the greeting.
pub const TEXT_OFFSET: i32 = 16;

/// A third of `v`, rounded toward zero as machine division does.
pub open spec fn third(v: int) -> int {
    if v >= 0 {
        v / 3
    } else {
        -((-v) / 3)
    }
}

/// The area the greeting is drawn in: the client area below its upper third,
/// moved down by a small fixed offset.
pub open spec fn text_area_spec(client: Rect) -> Rect {
    Rect { top: (third(client.bottom as int) + TEXT_OFFSET) as i32, ..client }
}

/// Computes the area the greeting is drawn in.
pub fn text_area(client: Rect) -> (r: Rect)
    ensures
        r == text_area_spec(client),
{
    Rect { top: client.bottom / 3 + TEXT_OFFSET, ..client }
}

/// The greeting drawn on the window, in English and Korean.
pub open spec fn greeting_text() -> Seq<char> {
    "Hello world!\n안녕 세상!"@
}

/// What EUC-KR encoding (Windows code page 949) makes of a text.
pub uninterp spec fn euc_kr_of(s: Seq<char>) -> Seq<u8>;

/// Relies on `encoding_rs::Encoding::encode` with `encoding_rs::EUC_KR`: the
/// bytes depend on the text alone. Its buffer sizing overflows only on texts far
/// longer than the bound here.
#[verifier::external_body]
fn encode_euc_kr(s: &str) -> (r: Vec<u8>)
    requires
        s@.len() <= 0x10000,
    ensures
        r@ == euc_kr_of(s@),
{
    let (bytes, _, _) = encoding_rs::EUC_KR.encode(s);
    bytes.into_owned()
}

/// The greeting in the single-byte-per-unit code page the text primitive draws.
pub fn greeting_bytes() -> (r: Vec<u8>)
    ensures
        r@ == euc_kr_of(greeting_text()),
{
    let text: &str = "Hello world!\n안녕 세상!";
    proof {
        reveal_strlit("Hello world!\n안녕 세상!");
    }
    encode_euc_kr(text)
}

/// Everything the host draws for one erase-background notification.
#[derive(Clone, Debug)]
pub struct PaintPlan {
    /// Filled whole with `palette.background`.
    pub fill: Rect,
    pub palette: Palette,
    /// Where `text` is drawn, centered horizontally, with no prefix characters.
    pub text_area: Rect,
    pub text: Vec<u8>,
    /// Whether the frame is to be redrawn and the client area invalidated after
    /// drawing, which happens on the first paint only.
    pub force_redraw: bool,
}

/// Plans the themed background for `client`, and spends the first-paint flag.
pub fn paint(client: Rect, is_dark: bool, first_paint: &mut bool) -> (plan: PaintPlan)
    ensures
        plan.fill == client,
        plan.palette == palette_spec(is_dark),
        plan.text_area == text_area_spec(client),
        plan.text@ == euc_kr_of(greeting_text()),
        plan.force_redraw == *old(first_paint),
        *final(first_paint) == false,
{
    let force_redraw = *first_paint;
    *first_paint = false;
    PaintPlan {
        fill: client,
        palette: palette(is_dark),
        text_area: text_area(client),
        text: greeting_bytes(),
        force_redraw,
    }
}

} // verus!
