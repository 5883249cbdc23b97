//! Window-class identification.

use vstd::prelude::*;

verus! {

/// The atom a window class registration returns; window creation refers to
/// the class by this value instead of by name.
#[derive(Clone, Copy, Debug, PartialEq, Eq, Structural)]
pub struct ClassIdAtom(pub u16);

impl ClassIdAtom {
    /// The raw atom value.
    pub fn value(&self) -> (v: u16)
        ensures
            v == self.0,
    {
        self.0
    }
}

impl From<u16> for ClassIdAtom {
    fn from(value: u16) -> (r: ClassIdAtom) {
        ClassIdAtom(value)
    }
}

impl vstd::std_specs::convert::FromSpecImpl<u16> for ClassIdAtom {
    open spec fn obeys_from_spec() -> bool {
        true
    }

    open spec fn from_spec(value: u16) -> ClassIdAtom {
        ClassIdAtom(value)
    }
}

} // verus!
