//! Progress fractions and the event stream crossing the core/UI boundary.

use vstd::prelude::*;

verus! {

/// An exact rational progress value in `[0, 1]`: `num / den`.
///
/// The core never works with floating point; the presentation layer may turn
/// a `Fraction` into a float right before display.
#[derive(Clone, Copy, Debug, PartialEq, Eq, Structural)]
pub struct Fraction {
    pub num: u64,
    pub den: u64,
}

impl Fraction {
    /// A well-formed progress fraction never exceeds one.
    pub open spec fn wf(self) -> bool {
        self.num <= self.den
    }

    /// The fraction is exactly one.
    pub open spec fn is_one(self) -> bool {
        self.num == self.den && self.den > 0
    }

    pub fn new(num: u64, den: u64) -> (r: Fraction)
        requires
            num <= den,
        ensures
            r == (Fraction { num, den }),
            r.wf(),
    {
        Fraction { num, den }
    }
}

/// Events emitted by the installer core and the surrounding user interface.
///
/// The first group carries user intent inside the presentation layer; the
/// second group is the progress narrative of an installation run.
#[derive(Clone, Copy, Debug, PartialEq, Eq, Structural)]
pub enum Message {
    Close,
    NextPage,
    PrevPage,
    SelectDir,
    InstallDlxVersionCheck,
    Preparing,
    Downloading,
    DownloadingSpr,
    Extracting,
    ExtractingSpr,
    UpdateProgressBar(Fraction),
    CleaningUp,
    Error,
    Done,
}

} // verus!
