use vstd::prelude::*;

verus! {

/// Width of one bus access.
#[derive(Debug, Clone, Copy, PartialEq, Eq, Structural)]
pub enum Size {
    /// byte
    _1,
    /// half word
    _2,
    /// word
    _4,
    /// double word
    _8,
}

/// The single access fault of the bus.
#[derive(Debug, Clone, Copy, PartialEq, Eq, Structural)]
pub enum Exception {
    BusException,
}

impl Size {
    /// Number of bytes moved by an access of this width.
    pub open spec fn spec_bytes(self) -> nat {
        match self {
            Size::_1 => 1,
            Size::_2 => 2,
            Size::_4 => 4,
            Size::_8 => 8,
        }
    }

    pub fn bytes(self) -> (r: usize)
        ensures
            r == self.spec_bytes(),
    {
        match self {
            Size::_1 => 1,
            Size::_2 => 2,
            Size::_4 => 4,
            Size::_8 => 8,
        }
    }
}

} // verus!
