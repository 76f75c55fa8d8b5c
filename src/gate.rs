use vstd::prelude::*;

verus! {

/// Whether a render may still write its graphics command. The caller keeps it behind a
/// lock shared with whoever may cancel the render, and holds that lock from the check
/// through the write.
#[derive(Clone, Copy, Debug, PartialEq, Eq, Structural)]
pub struct DisplayGate {
    pub allowed: bool,
}

/// The bytes sent to the terminal for `frame`, given the display flag when it is checked:
/// all of `frame` when permitted, nothing otherwise.
pub open spec fn gated_bytes(allowed: bool, frame: Seq<u8>) -> Seq<u8> {
    if allowed {
        frame
    } else {
        Seq::empty()
    }
}

impl DisplayGate {
    /// A flag that permits the write.
    pub fn new() -> (r: DisplayGate)
        ensures
            r.allowed,
    {
        DisplayGate { allowed: true }
    }

    pub fn set_display_allowed(&mut self, allowed: bool)
        ensures
            final(self).allowed == allowed,
    {
        self.allowed = allowed;
    }

    pub fn is_display_allowed(&self) -> (r: bool)
        ensures
            r == self.allowed,
    {
        self.allowed
    }

    /// What to send for `frame` under this flag.
    pub fn gated(&self, frame: Vec<u8>) -> (r: Vec<u8>)
        ensures
            r@ == gated_bytes(self.allowed, frame@),
    {
        if self.allowed {
            frame
        } else {
            Vec::new()
        }
    }
}

/// Once the display flag has been cleared, no byte of the graphics command reaches the terminal,
/// however much of the preview's work (decoding, resampling) was already done: whatever
/// `frame` was prepared.
pub proof fn lemma_cleared_gate_writes_nothing(gate: DisplayGate, frame: Seq<u8>)
    ensures
        ({
            let cleared = DisplayGate { allowed: false };
            gated_bytes(cleared.allowed, frame).len() == 0
        }),
        !gate.allowed ==> gated_bytes(gate.allowed, frame).len() == 0,
{
}

} // verus!
