use vstd::prelude::*;

verus! {

/// Full intensity of one color channel, in thousandths.
pub const CHANNEL_FULL: u16 = 1000;

/// An RGBA color. Each channel is stored in thousandths of full
/// intensity (so 200 stands for two tenths and 1000 for a fully
/// saturated channel); the platform layer converts to the driver's
/// unit-interval representation only at its boundary.
#[derive(Clone, Copy, PartialEq, Eq, Structural, Debug)]
pub struct Color {
    pub red_milli: u16,
    pub green_milli: u16,
    pub blue_milli: u16,
    pub alpha_milli: u16,
}

impl Color {
    /// No channel exceeds full intensity.
    pub open spec fn valid(self) -> bool {
        &&& self.red_milli <= CHANNEL_FULL
        &&& self.green_milli <= CHANNEL_FULL
        &&& self.blue_milli <= CHANNEL_FULL
        &&& self.alpha_milli <= CHANNEL_FULL
    }
}

/// The fixed color every frame is cleared to: two tenths red, three
/// tenths green, three tenths blue, fully opaque.
pub open spec fn spec_clear_color() -> Color {
    Color { red_milli: 200, green_milli: 300, blue_milli: 300, alpha_milli: CHANNEL_FULL }
}

/// The fixed clear color as an executable value.
pub fn clear_color() -> (c: Color)
    ensures
        c == spec_clear_color(),
        c.valid(),
{
    Color { red_milli: 200, green_milli: 300, blue_milli: 300, alpha_milli: CHANNEL_FULL }
}

} // verus!
