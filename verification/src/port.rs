use vstd::prelude::*;

verus! {

/// One byte to be written to an x86 I/O port (`out dx, al`).
///
/// The library decides which bytes go to which ports; the code that owns
/// the hardware performs the writes in the order they are handed out.
#[derive(Clone, Copy, Debug, PartialEq, Eq, Structural)]
pub struct PortWrite {
    pub port: u16,
    pub value: u8,
}

impl PortWrite {
    pub fn new(port: u16, value: u8) -> (r: PortWrite)
        ensures
            r == (PortWrite { port, value }),
    {
        PortWrite { port, value }
    }
}

} // verus!
