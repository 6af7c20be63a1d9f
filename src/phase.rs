use vstd::prelude::*;

verus! {

/// The kind of interval the clock is in.
#[derive(Clone, Copy, Debug, PartialEq, Eq, Structural)]
pub enum Phase {
    Focus,
    ShortBreak,
    LongBreak,
}

impl Phase {
    /// The label shown for the phase.
    pub fn label(&self) -> (r: &'static str)
        ensures
            *self == Phase::Focus ==> r@ == "FOCUS PHASE"@,
            *self == Phase::ShortBreak ==> r@ == "SHORT BREAK"@,
            *self == Phase::LongBreak ==> r@ == "LONG BREAK"@,
    {
        match self {
            Phase::Focus => "FOCUS PHASE",
            Phase::ShortBreak => "SHORT BREAK",
            Phase::LongBreak => "LONG BREAK",
        }
    }

    /// The accent colour of the phase, as red, green and blue.
    pub fn accent_rgb(&self) -> (r: (u8, u8, u8))
        ensures
            *self == Phase::Focus ==> r == (243u8, 139u8, 168u8),
            *self == Phase::ShortBreak ==> r == (158u8, 206u8, 106u8),
            *self == Phase::LongBreak ==> r == (125u8, 207u8, 255u8),
    {
        match self {
            Phase::Focus => (243, 139, 168),
            Phase::ShortBreak => (158, 206, 106),
            Phase::LongBreak => (125, 207, 255),
        }
    }
}

} // verus!
