//! Colours, as the channel values of egui's `Color32`.

use vstd::prelude::*;

verus! {

/// A colour by its red, green, blue and alpha channels.
#[derive(Clone, Copy, Debug, PartialEq, Eq, Structural)]
pub struct Rgba {
    pub r: u8,
    pub g: u8,
    pub b: u8,
    pub a: u8,
}

/// The opaque colour with the given channels.
pub open spec fn opaque(r: u8, g: u8, b: u8) -> Rgba {
    Rgba { r, g, b, a: 255 }
}

/// `egui::Color32::from_rgb`: an opaque colour, whose alpha channel is 255.
#[verifier::external_body]
pub(crate) fn from_rgb(r: u8, g: u8, b: u8) -> (c: Rgba)
    ensures
        c == opaque(r, g, b),
{
    let [r, g, b, a] = egui::Color32::from_rgb(r, g, b).to_array();
    Rgba { r, g, b, a }
}

/// `egui::Color32::LIGHT_GRAY`, which egui defines as the opaque grey 220, 220, 220.
#[verifier::external_body]
pub(crate) fn light_gray() -> (c: Rgba)
    ensures
        c == opaque(220, 220, 220),
{
    let [r, g, b, a] = egui::Color32::LIGHT_GRAY.to_array();
    Rgba { r, g, b, a }
}

} // verus!
