//! The faults a run can end with.

use vstd::prelude::*;

verus! {

/// The first fatal condition a run met. No fault is recoverable: the
/// interpreter loop aborts at once and hands the fault to the caller,
/// leaving the stack as the partial execution left it.
#[derive(Debug, Clone, Copy, PartialEq, Eq, Structural)]
pub enum Fault {
    /// An operand's variable-length encoding ended before it was complete,
    /// it stood for a value too large for the machine word, or an opcode
    /// byte named no opcode.
    Decode,
    /// An opcode observed a stack top of the wrong shape (saving requires an
    /// anonymous data value on top).
    StackShape,
    /// A load named a descriptor with no binding in the current frame.
    Resolution,
    /// Clearing emptied the stack without meeting a binding or a frame
    /// marker.
    Exhaustion,
    /// An operand indexed outside the constant pool or the descriptor table.
    OutOfBounds,
}

/// What one handler, one step, or one whole run reports.
pub type RunResult = Result<(), Fault>;

} // verus!
