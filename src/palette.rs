use vstd::prelude::*;

verus! {

/// Number of entries of the colour table that frames are indexed against.
pub const PALETTE_COLORS: usize = 256;

/// Sampling factor of the palette training: every seed pixel is used.
pub const PALETTE_SAMPLEFAC: i32 = 1;

/// A NeuQuant palette of `PALETTE_COLORS` entries, always made by
/// `train_palette`.
#[verifier::external_body]
pub struct Palette {
    inner: color_quant::NeuQuant,
}

/// The RGBA bytes a palette was trained on.
pub uninterp spec fn palette_seed(q: Palette) -> Seq<u8>;

/// The RGB colour table of the 256-colour NeuQuant palette trained with
/// sampling factor 1 on `seed`.
pub uninterp spec fn neuquant_table(seed: Seq<u8>) -> Seq<u8>;

/// The table entry that the palette trained on `seed` picks for an RGBA pixel.
pub uninterp spec fn neuquant_index(seed: Seq<u8>, pixel: Seq<u8>) -> u8;

/// Relies on color_quant::NeuQuant::new: trains a palette of `PALETTE_COLORS`
/// entries on RGBA pixels, four bytes each.
#[verifier::external_body]
pub(crate) fn train_palette(pixels: &Vec<u8>) -> (r: Palette)
    ensures
        palette_seed(r) == pixels@,
{
    Palette { inner: color_quant::NeuQuant::new(PALETTE_SAMPLEFAC, PALETTE_COLORS, pixels.as_slice()) }
}

/// Relies on color_quant::NeuQuant::color_map_rgb: three bytes for each of the
/// `PALETTE_COLORS` entries of the colour map.
#[verifier::external_body]
pub(crate) fn palette_rgb(q: &Palette) -> (r: Vec<u8>)
    ensures
        r@ == neuquant_table(palette_seed(*q)),
        r@.len() == 3 * PALETTE_COLORS,
{
    q.inner.color_map_rgb()
}

/// Relies on color_quant::NeuQuant::index_of: the position, below
/// `PALETTE_COLORS`, of the colour-map entry chosen for one RGBA pixel.
#[verifier::external_body]
pub(crate) fn palette_index(q: &Palette, r: u8, g: u8, b: u8, a: u8) -> (i: u8)
    ensures
        i == neuquant_index(palette_seed(*q), seq![r, g, b, a]),
{
    q.inner.index_of(&[r, g, b, a]) as u8
}

} // verus!
