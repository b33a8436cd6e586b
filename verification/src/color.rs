use vstd::prelude::*;
use crate::text::{dec_seq, push_chars, push_dec};

verus! {

/// A palette entry: hue, saturation and brightness, in the device's units.
/// The device documents hue as 0 to 360 and the other two as 0 to 100, but
/// the client does not enforce the ranges.
#[derive(Debug, Clone, Copy, PartialEq, Eq, Structural)]
pub struct NanoLeafColor {
    pub hue: u32,
    pub saturation: u32,
    pub brightness: u32,
}

/// The JSON object that a color serializes to: exactly the three fields
/// `hue`, `saturation` and `brightness`, in that order.
pub open spec fn color_text(c: NanoLeafColor) -> Seq<char> {
    "{\"hue\":"@ + dec_seq(c.hue as nat) + ",\"saturation\":"@ + dec_seq(c.saturation as nat)
        + ",\"brightness\":"@ + dec_seq(c.brightness as nat) + "}"@
}

impl NanoLeafColor {
    /// Builds the color with exactly the given components.
    pub fn new(hue: u32, saturation: u32, brightness: u32) -> (r: NanoLeafColor)
        ensures
            r == (NanoLeafColor { hue, saturation, brightness }),
    {
        NanoLeafColor { hue, saturation, brightness }
    }
}

/// Appends the JSON rendering of `c` to `out`, as `color_text` states.
pub fn push_color(out: &mut Vec<char>, c: &NanoLeafColor)
    ensures
        final(out)@ == old(out)@ + color_text(*c),
{
    push_chars(out, "{\"hue\":");
    push_dec(out, c.hue);
    push_chars(out, ",\"saturation\":");
    push_dec(out, c.saturation);
    push_chars(out, ",\"brightness\":");
    push_dec(out, c.brightness);
    push_chars(out, "}");
    assert(out@ =~= old(out)@ + color_text(*c));
}

} // verus!
