use vstd::prelude::*;

verus! {

/// Termination applied to a line.
#[derive(Clone, Copy, Debug, PartialEq, Eq, Structural)]
pub enum Bias {
    /// Leave the bias as it is.
    AsIs,
    /// The bias could not be determined.
    Unknown,
    /// No termination.
    Disabled,
    /// Pull the line up to the supply voltage.
    PullUp,
    /// Pull the line down to ground.
    PullDown,
}

/// Whether the line is read or driven.
#[derive(Clone, Copy, Debug, PartialEq, Eq, Structural)]
pub enum Direction {
    /// Leave the direction as it is.
    AsIs,
    /// The line is read.
    Input,
    /// The line is driven.
    Output,
}

/// One kind per step that can fail, plus the pulse timeout.
#[derive(Clone, Copy, Debug, PartialEq, Eq, Structural)]
pub enum GpiodError {
    /// The chip could not be opened.
    OpenChip,
    /// The chip's metadata could not be read.
    GetChipInfo,
    /// The chip's name could not be read.
    GetChipName,
    /// A line settings object could not be created.
    CreateSettings,
    /// The given bias could not be applied to a settings object.
    SetBias(Bias),
    /// The given direction could not be applied to a settings object.
    SetDirection(Direction),
    /// A line config object could not be created or filled.
    CreateConfig,
    /// A handle that should have been valid was null.
    NullPtr,
    /// The lines could not be requested.
    LineRequest,
    /// A value could not be written, or the request could not be reconfigured.
    LineRequestSetValue,
    /// A value could not be read.
    LineRequestGetValue,
    /// The line did not change within the allowed time.
    Timeout,
}

} // verus!
