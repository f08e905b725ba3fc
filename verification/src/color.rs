//! Premultiplied colours and the eight-bit compositing arithmetic shared by
//! every pixel encoding.

use vstd::prelude::*;

verus! {

/// A colour whose red, green and blue channels have already been scaled by
/// `alpha / 255`. It is the only input of the blend operations.
#[derive(Clone, Copy, Debug, PartialEq, Eq, Structural)]
pub struct PremultipliedColor {
    pub red: u8,
    pub green: u8,
    pub blue: u8,
    pub alpha: u8,
}

impl PremultipliedColor {
    /// A colour is premultiplied when no colour channel exceeds its alpha.
    pub open spec fn is_premultiplied(self) -> bool {
        &&& self.red <= self.alpha
        &&& self.green <= self.alpha
        &&& self.blue <= self.alpha
    }

    /// Tells whether the channels are consistent with premultiplication.
    pub fn check_premultiplied(&self) -> (ok: bool)
        ensures
            ok == self.is_premultiplied(),
    {
        self.red <= self.alpha && self.green <= self.alpha && self.blue <= self.alpha
    }
}

/// What remains of a stored channel once a source of opacity `alpha` covers
/// it: `channel * (255 - alpha) / 255`, rounded down.
pub open spec fn attenuated(channel: int, alpha: int) -> int {
    channel * (255 - alpha) / 255
}

/// The composited colour channel: the attenuated destination plus the source,
/// held at 255 where the sum would leave the eight-bit range.
pub open spec fn blend_channel(dst: int, src: int, alpha: int) -> int {
    let sum: int = attenuated(dst, alpha) + src;
    if sum > 255 {
        255
    } else {
        sum
    }
}

/// The composited alpha channel of "source over destination":
/// `dst + src - dst * src / 255`.
pub open spec fn blend_alpha(dst: int, src: int) -> int {
    dst + src - (dst * src) / 255
}

/// The attenuated channel never leaves the eight-bit range and never exceeds
/// the channel it was computed from.
pub proof fn lemma_attenuated_bounds(channel: u8, alpha: u8)
    ensures
        0 <= attenuated(channel as int, alpha as int) <= channel,
        attenuated(channel as int, alpha as int) <= 255 - alpha,
{
    let c: int = channel as int;
    let k: int = 255 - alpha as int;
    assert(0 <= c * k <= c * 255 && c * k <= 255 * k) by (nonlinear_arith)
        requires
            0 <= c <= 255,
            0 <= k <= 255,
    ;
}

/// The composited alpha never leaves the eight-bit range, and is at least as
/// large as either operand.
pub proof fn lemma_blend_alpha_bounds(dst: u8, src: u8)
    ensures
        dst <= blend_alpha(dst as int, src as int) <= 255,
        src <= blend_alpha(dst as int, src as int),
{
    let d: int = dst as int;
    let s: int = src as int;
    assert(0 <= d * s <= 255 * s && d * s <= 255 * d && 255 * (d + s - 255) <= d * s)
        by (nonlinear_arith)
        requires
            0 <= d <= 255,
            0 <= s <= 255,
    ;
}

/// Composites one colour channel.
pub fn blend_channel_u8(dst: u8, src: u8, alpha: u8) -> (out: u8)
    ensures
        out == blend_channel(dst as int, src as int, alpha as int),
{
    proof {
        lemma_attenuated_bounds(dst, alpha);
    }
    let keep: u16 = (255 - alpha) as u16;
    assert(dst as int * keep as int <= 65025) by (nonlinear_arith)
        requires
            dst <= 255,
            keep <= 255,
    ;
    let scaled: u16 = dst as u16 * keep / 255;
    let sum: u16 = scaled + src as u16;
    if sum > 255 {
        255
    } else {
        sum as u8
    }
}

/// Composites the alpha channel.
pub fn blend_alpha_u8(dst: u8, src: u8) -> (out: u8)
    ensures
        out == blend_alpha(dst as int, src as int),
{
    proof {
        lemma_blend_alpha_bounds(dst, src);
    }
    assert(dst as int * src as int <= 65025) by (nonlinear_arith)
        requires
            dst <= 255,
            src <= 255,
    ;
    let covered: u16 = dst as u16 * src as u16 / 255;
    (dst as u16 + src as u16 - covered) as u8
}

/// A premultiplied source never drives a channel out of range: where the
/// source channel is no larger than its alpha, the composited channel is the
/// plain sum of the attenuated destination and the source.
pub proof fn lemma_blend_channel_premultiplied(dst: u8, src: u8, alpha: u8)
    requires
        src <= alpha,
    ensures
        blend_channel(dst as int, src as int, alpha as int) == attenuated(dst as int, alpha as int)
            + src,
{
    lemma_attenuated_bounds(dst, alpha);
}

} // verus!
