use vstd::prelude::*;

verus! {

/// The eight 8-bit CPU registers. F is the flags register; BC, DE and HL
/// are addressed pairwise by the 16-bit operations.
#[derive(Clone, Copy, Debug, PartialEq, Eq, Structural)]
pub struct Registers {
    pub a: u8,
    pub f: u8,
    pub b: u8,
    pub c: u8,
    pub d: u8,
    pub e: u8,
    pub h: u8,
    pub l: u8,
}

impl Registers {
    /// All registers start cleared.
    pub fn new() -> (r: Self)
        ensures
            r == (Registers { a: 0, f: 0, b: 0, c: 0, d: 0, e: 0, h: 0, l: 0 }),
    {
        Self { a: 0, f: 0, b: 0, c: 0, d: 0, e: 0, h: 0, l: 0 }
    }
}

} // verus!
