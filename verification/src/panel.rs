use vstd::prelude::*;

verus! {

/// The Waveshare e-paper panels the station can drive.
#[derive(Clone, Copy, Debug, PartialEq, Eq, Structural)]
pub enum Panel {
    /// The 2.9 inch panel, used in landscape orientation.
    Epd2in9,
    /// The 4.2 inch panel.
    Epd4in2,
}

/// Width in pixels of the 2.9 inch panel in its native (portrait) orientation.
pub open spec fn epd2in9_native_width() -> int {
    128
}

/// Height in pixels of the 2.9 inch panel in its native (portrait) orientation.
pub open spec fn epd2in9_native_height() -> int {
    296
}

/// Width in pixels of the 4.2 inch panel.
pub open spec fn epd4in2_native_width() -> int {
    400
}

/// Height in pixels of the 4.2 inch panel.
pub open spec fn epd4in2_native_height() -> int {
    300
}

/// Height of the drawing area: the 2.9 inch panel is turned by 90 degrees,
/// so its native width becomes the height.
pub open spec fn spec_height(panel: Panel) -> int {
    match panel {
        Panel::Epd2in9 => epd2in9_native_width(),
        Panel::Epd4in2 => epd4in2_native_height(),
    }
}

/// Width of the drawing area.
pub open spec fn spec_width(panel: Panel) -> int {
    match panel {
        Panel::Epd2in9 => epd2in9_native_height(),
        Panel::Epd4in2 => epd4in2_native_width(),
    }
}

/// `epd_waveshare::epd2in9::WIDTH`: the crate defines it as 128.
#[verifier::external_body]
fn epd2in9_width() -> (w: u32)
    ensures
        w == epd2in9_native_width(),
{
    epd_waveshare::epd2in9::WIDTH
}

/// `epd_waveshare::epd2in9::HEIGHT`: the crate defines it as 296.
#[verifier::external_body]
fn epd2in9_height() -> (h: u32)
    ensures
        h == epd2in9_native_height(),
{
    epd_waveshare::epd2in9::HEIGHT
}

/// `epd_waveshare::epd4in2::WIDTH`: the crate defines it as 400.
#[verifier::external_body]
fn epd4in2_width() -> (w: u32)
    ensures
        w == epd4in2_native_width(),
{
    epd_waveshare::epd4in2::WIDTH
}

/// `epd_waveshare::epd4in2::HEIGHT`: the crate defines it as 300.
#[verifier::external_body]
fn epd4in2_height() -> (h: u32)
    ensures
        h == epd4in2_native_height(),
{
    epd_waveshare::epd4in2::HEIGHT
}

/// Height in pixels of the drawing area of `panel`.
pub fn height(panel: Panel) -> (h: i32)
    ensures
        h == spec_height(panel),
{
    match panel {
        Panel::Epd2in9 => epd2in9_width() as i32,
        Panel::Epd4in2 => epd4in2_height() as i32,
    }
}

/// Width in pixels of the drawing area of `panel`.
pub fn width(panel: Panel) -> (w: i32)
    ensures
        w == spec_width(panel),
{
    match panel {
        Panel::Epd2in9 => epd2in9_height() as i32,
        Panel::Epd4in2 => epd4in2_width() as i32,
    }
}

} // verus!
