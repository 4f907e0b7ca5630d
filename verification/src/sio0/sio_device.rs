//! What the serial controller talks to: a joypad or a memory card.
use vstd::prelude::*;

verus! {

/// A device on the SIO0 bus. `exchange` sends a byte and yields the reply and whether the
/// device wants more bytes (its DSR/acknowledge line).
pub trait SioDevice {
    /// The device's own well-formedness, kept by every operation.
    spec fn inv(&self) -> bool;

    fn exchange(&mut self, byte: u8) -> (r: (u8, bool))
        requires
            old(self).inv(),
        ensures
            final(self).inv(),
    ;

    /// Back to waiting for its address byte.
    fn reset(&mut self)
        requires
            old(self).inv(),
        ensures
            final(self).inv(),
    ;

    fn is_selected(&self) -> bool;

    fn set_selected(&mut self, selected: bool)
        requires
            old(self).inv(),
        ensures
            final(self).inv(),
    ;
}

} // verus!
