//! The geometry of a frame: rectangles, how the screen is split into
//! header, body and footer bands, and the styled text regions the render
//! tree produces.
//!
//! A frame is described entirely by plain values, so that rendering is a
//! pure function of the application state and the drawing area: the binary
//! that owns the terminal turns each [`Region`] into one drawn line.

use vstd::prelude::*;

verus! {

/// A rectangle of character cells: its top-left corner, width and height.
#[derive(Clone, Copy, PartialEq, Eq, Structural, Debug)]
pub struct Rect {
    pub x: u16,
    pub y: u16,
    pub width: u16,
    pub height: u16,
}

/// How the text of a region is placed inside it.
#[derive(Clone, Copy, PartialEq, Eq, Structural, Debug)]
pub enum Align {
    Left,
    Right,
}

/// Which of the application's text styles a region uses. The header style
/// is the bold accent style of the header and footer bands; body text is
/// drawn plain. Which colors each style means is presentation, owned by
/// the binary.
#[derive(Clone, Copy, PartialEq, Eq, Structural, Debug)]
pub enum TextStyle {
    Header,
    Plain,
}

/// One styled line of text inside a rectangle of the frame.
#[derive(PartialEq, Eq, Debug)]
pub struct Region {
    pub area: Rect,
    pub text: String,
    pub style: TextStyle,
    pub align: Align,
}

/// The mathematical value of a [`Region`]: the same fields, with the text
/// as a sequence of characters.
pub ghost struct RegionView {
    pub area: Rect,
    pub text: Seq<char>,
    pub style: TextStyle,
    pub align: Align,
}

impl View for Region {
    type V = RegionView;

    open spec fn view(&self) -> RegionView {
        RegionView {
            area: self.area,
            text: self.text@,
            style: self.style,
            align: self.align,
        }
    }
}

impl DeepView for Region {
    type V = RegionView;

    open spec fn deep_view(&self) -> RegionView {
        self.view()
    }
}

/// The three vertical bands of the screen: a one-row header band at the
/// top, a one-row footer band at the bottom, and the body band between
/// them. When the area is shorter than that, the header claims its row
/// first and the footer next, so a one-row area is all header and a
/// two-row area has no body.
pub open spec fn spec_vsplit3(area: Rect) -> (Rect, Rect, Rect) {
    let header_h: u16 = if area.height < 1 { area.height } else { 1u16 };
    let rest: u16 = (area.height - header_h) as u16;
    let footer_h: u16 = if rest < 1 { rest } else { 1u16 };
    let body_h: u16 = (rest - footer_h) as u16;
    (
        Rect { x: area.x, y: area.y, width: area.width, height: header_h },
        Rect { x: area.x, y: (area.y + header_h) as u16, width: area.width, height: body_h },
        Rect {
            x: area.x,
            y: (area.y + header_h + body_h) as u16,
            width: area.width,
            height: footer_h,
        },
    )
}

/// Split `area` into the header, body and footer bands of
/// [`spec_vsplit3`].
pub fn vsplit3(area: Rect) -> (r: (Rect, Rect, Rect))
    requires
        area.y + area.height <= u16::MAX,
    ensures
        r == spec_vsplit3(area),
{
    let header_h: u16 = if area.height < 1 { area.height } else { 1 };
    let rest: u16 = area.height - header_h;
    let footer_h: u16 = if rest < 1 { rest } else { 1 };
    let body_h: u16 = rest - footer_h;
    (
        Rect { x: area.x, y: area.y, width: area.width, height: header_h },
        Rect { x: area.x, y: area.y + header_h, width: area.width, height: body_h },
        Rect { x: area.x, y: area.y + header_h + body_h, width: area.width, height: footer_h },
    )
}

/// The two halves of a band: the left half rounds down, the right half
/// takes the rest.
pub open spec fn spec_hsplit2(area: Rect) -> (Rect, Rect) {
    let left_w: u16 = (area.width / 2) as u16;
    (
        Rect { x: area.x, y: area.y, width: left_w, height: area.height },
        Rect {
            x: (area.x + left_w) as u16,
            y: area.y,
            width: (area.width - left_w) as u16,
            height: area.height,
        },
    )
}

/// Split `area` into the left and right halves of [`spec_hsplit2`].
pub fn hsplit2(area: Rect) -> (r: (Rect, Rect))
    requires
        area.x + area.width <= u16::MAX,
    ensures
        r == spec_hsplit2(area),
{
    let left_w: u16 = area.width / 2;
    (
        Rect { x: area.x, y: area.y, width: left_w, height: area.height },
        Rect { x: area.x + left_w, y: area.y, width: area.width - left_w, height: area.height },
    )
}

/// Split `area` into a top band of at most `top_h` rows and the band of at
/// most one row right below it, as the body widget lays out its text and
/// its counter line. Rows below the counter line are left unused.
pub open spec fn spec_vsplit_top(area: Rect, top_h: u16) -> (Rect, Rect) {
    let first_h: u16 = if area.height < top_h { area.height } else { top_h };
    let rest: u16 = (area.height - first_h) as u16;
    let second_h: u16 = if rest < 1 { rest } else { 1u16 };
    (
        Rect { x: area.x, y: area.y, width: area.width, height: first_h },
        Rect { x: area.x, y: (area.y + first_h) as u16, width: area.width, height: second_h },
    )
}

/// Split `area` as [`spec_vsplit_top`] describes.
pub fn vsplit_top(area: Rect, top_h: u16) -> (r: (Rect, Rect))
    requires
        area.y + area.height <= u16::MAX,
    ensures
        r == spec_vsplit_top(area, top_h),
{
    let first_h: u16 = if area.height < top_h { area.height } else { top_h };
    let rest: u16 = area.height - first_h;
    let second_h: u16 = if rest < 1 { rest } else { 1 };
    (
        Rect { x: area.x, y: area.y, width: area.width, height: first_h },
        Rect { x: area.x, y: area.y + first_h, width: area.width, height: second_h },
    )
}

} // verus!
