//! Colors as premultiplied-alpha RGBA bytes, the representation egui uses
//! for its `Color32`.

use vstd::prelude::*;

verus! {

/// A color as premultiplied-alpha RGBA bytes.
#[derive(Debug, Clone, Copy, PartialEq, Eq, Structural)]
pub struct ChartColor {
    /// Red channel (premultiplied).
    pub r: u8,
    /// Green channel (premultiplied).
    pub g: u8,
    /// Blue channel (premultiplied).
    pub b: u8,
    /// Alpha channel.
    pub a: u8,
}

/// The premultiplied bytes egui stores for the unmultiplied color
/// `(r, g, b, a)`.
pub uninterp spec fn premultiplied_rgba(r: u8, g: u8, b: u8, a: u8) -> (u8, u8, u8, u8);

/// Calls `egui::Color32::from_rgba_unmultiplied` and reads the resulting
/// premultiplied bytes back with `Color32::to_array`. The result depends on
/// the four arguments alone (a table lookup in egui), and is named, not
/// spelled out.
#[verifier::external_body]
fn premultiply(r: u8, g: u8, b: u8, a: u8) -> (p: (u8, u8, u8, u8))
    ensures
        p == premultiplied_rgba(r, g, b, a),
{
    let [pr, pg, pb, pa] = egui::Color32::from_rgba_unmultiplied(r, g, b, a).to_array();
    (pr, pg, pb, pa)
}

/// The color egui builds from unmultiplied `(r, g, b, a)`.
pub open spec fn unmultiplied(r: u8, g: u8, b: u8, a: u8) -> ChartColor {
    let p = premultiplied_rgba(r, g, b, a);
    ChartColor { r: p.0, g: p.1, b: p.2, a: p.3 }
}

impl ChartColor {
    /// Builds a color from unmultiplied RGBA, premultiplying as egui does.
    pub fn from_rgba_unmultiplied(r: u8, g: u8, b: u8, a: u8) -> (c: ChartColor)
        ensures
            c == unmultiplied(r, g, b, a),
    {
        let p = premultiply(r, g, b, a);
        ChartColor { r: p.0, g: p.1, b: p.2, a: p.3 }
    }
}

} // verus!
