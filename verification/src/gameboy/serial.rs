use vstd::prelude::*;

verus! {

/// The serial port's data and control registers.
pub struct Serial {
    pub data: u8,
    pub transfer_control: u8,
}

impl Serial {
    pub fn new() -> (s: Serial)
        ensures
            s.data == 0 && s.transfer_control == 0,
    {
        Serial { data: 0, transfer_control: 0 }
    }
}

} // verus!
