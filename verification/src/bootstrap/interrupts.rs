use vstd::prelude::*;

verus! {

/// The frame that the processor pushes when it enters an interrupt handler.
pub struct InterruptStackFrame {
    _private: (),
}

} // verus!
