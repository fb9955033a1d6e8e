//! The verified side of the renderer: the exact numeric semantics of the
//! composite image — darkening amount, overlay glyph scale, overlay origin,
//! and the fixed output paths — planned before any download or drawing.
//!
//! The overlay origin is the width divided by 3.5 and the height divided by
//! 4.8, each truncated to a whole pixel; as exact rational arithmetic these
//! are 2w/7 and 5h/24. The glyph scale's horizontal factor is a third of
//! the width in whole pixels; its vertical factor, height divided by 1.7,
//! is a fractional quantity the drawing primitive takes as it is.

use vstd::prelude::*;
use vstd::string::*;

verus! {

/// Brightness levels subtracted uniformly from the downloaded map image
/// before the overlay is drawn, to keep the text legible.
pub const DARKEN_LEVELS: u32 = 25;

/// The path the darkened intermediate image is persisted to for inspection.
pub fn intermediate_image_path() -> (r: &'static str)
    ensures
        r@ == "./info_image.jpg"@,
{
    "./info_image.jpg"
}

/// The fixed well-known path the composited image is written to; a render
/// overwrites any previous file there.
pub fn output_image_path() -> (r: &'static str)
    ensures
        r@ == "./map_mode.jpg"@,
{
    "./map_mode.jpg"
}

/// The overlay text origin for an image size: width divided by 3.5 and
/// height divided by 4.8, truncated to whole pixels.
pub open spec fn spec_overlay_origin(width: int, height: int) -> (int, int) {
    (2 * width / 7, 5 * height / 24)
}

/// Computes the overlay text origin for an image size.
pub fn overlay_origin(width: u32, height: u32) -> (r: (u32, u32))
    ensures
        r.0 as int == 2 * width as int / 7,
        r.1 as int == 5 * height as int / 24,
        (r.0 as int, r.1 as int) == spec_overlay_origin(width as int, height as int),
{
    let x: u32 = ((width as u64) * 2 / 7) as u32;
    let y: u32 = ((height as u64) * 5 / 24) as u32;
    (x, y)
}

/// The glyph scale's horizontal factor: a third of the width, in whole
/// pixels, as the drawing primitive receives it.
pub fn glyph_scale_x(width: u32) -> (r: u32)
    ensures
        r as int == width as int / 3,
{
    width / 3
}

/// Everything the image pipeline needs for one render, fixed before any
/// I/O happens: what to download, how much to darken it, what text to
/// draw, and where the intermediate and final images are persisted.
pub struct RenderPlan {
    pub image_url: String,
    pub abbreviation: String,
    pub darken_levels: u32,
    pub intermediate_path: String,
    pub output_path: String,
}

/// Plans one render from the matched server's mode abbreviation and map
/// image URL. The output path is fixed, so rendering is idempotent: the
/// same inputs name the same file and equivalent output.
pub fn render_plan(abbreviation: String, image_url: String) -> (p: RenderPlan)
    ensures
        p.image_url == image_url,
        p.abbreviation == abbreviation,
        p.darken_levels == DARKEN_LEVELS,
        p.intermediate_path@ == "./info_image.jpg"@,
        p.output_path@ == "./map_mode.jpg"@,
{
    RenderPlan {
        image_url,
        abbreviation,
        darken_levels: DARKEN_LEVELS,
        intermediate_path: "./info_image.jpg".to_owned(),
        output_path: "./map_mode.jpg".to_owned(),
    }
}

/// Law: overlay placement is deterministic. The overlay origin is a
/// function of the image's width and height alone, so identical input
/// image bytes and abbreviation always place the text at bit-identical
/// coordinates for a given image size.
pub proof fn lemma_overlay_origin_deterministic(w1: int, h1: int, w2: int, h2: int)
    requires
        w1 == w2,
        h1 == h2,
    ensures
        spec_overlay_origin(w1, h1) == spec_overlay_origin(w2, h2),
{
}

} // verus!
