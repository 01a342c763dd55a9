use vstd::prelude::*;

verus! {

/// An open GPIO chip. `raw == 0` stands for the null handle.
///
/// Handles are neither `Clone` nor `Copy`: releasing one consumes it, so a
/// handle cannot be released twice.
#[derive(Debug)]
pub struct ChipHandle {
    pub raw: usize,
}

/// Metadata of an open chip.
#[derive(Debug)]
pub struct ChipInfo {
    pub raw: usize,
}

/// A bundle of line attributes (direction, bias).
#[derive(Debug)]
pub struct LineSettings {
    pub raw: usize,
}

/// A mapping from line offsets to a settings bundle.
#[derive(Debug)]
pub struct LineConfig {
    pub raw: usize,
}

/// An exclusive claim on lines of a chip.
#[derive(Debug)]
pub struct LineRequest {
    pub raw: usize,
}

impl ChipHandle {
    pub fn is_null(&self) -> (r: bool)
        ensures
            r == (self.raw == 0),
    {
        self.raw == 0
    }
}

impl ChipInfo {
    pub fn is_null(&self) -> (r: bool)
        ensures
            r == (self.raw == 0),
    {
        self.raw == 0
    }
}

impl LineSettings {
    pub fn is_null(&self) -> (r: bool)
        ensures
            r == (self.raw == 0),
    {
        self.raw == 0
    }
}

impl LineConfig {
    pub fn is_null(&self) -> (r: bool)
        ensures
            r == (self.raw == 0),
    {
        self.raw == 0
    }
}

impl LineRequest {
    pub fn is_null(&self) -> (r: bool)
        ensures
            r == (self.raw == 0),
    {
        self.raw == 0
    }
}

} // verus!
