use vstd::prelude::*;

verus! {

/// The serial port mode register (JOY_MODE), stored as written.
pub struct SIOMode {
    pub value: u16,
}

impl SIOMode {
    pub fn new() -> (r: Self)
        ensures
            r.value == 0,
    {
        Self { value: 0 }
    }

    pub fn write(&mut self, value: u16)
        ensures
            final(self).value == value,
    {
        self.value = value;
    }
}

} // verus!
