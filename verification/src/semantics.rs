//! The meaning of the machine, as specification functions.
//!
//! Every executable part of the interpreter is proved against these
//! functions: one for variable resolution, one for each opcode, one for a
//! single dispatch step, and one for a whole run. A step yields the
//! handler's result together with the stack and instruction pointer it
//! leaves behind — also on a fault, since a fault aborts the run with the
//! stack in exactly that partially-mutated state.

use vstd::prelude::*;
use crate::chunk::Chunk;
use crate::chunk::Opcode;
use crate::chunk::opcode_spec;
use crate::data::Data;
use crate::data::Tagged;
use crate::decode::decode_at;
use crate::fault::Fault;
use crate::local::Local;
use crate::stack::Item;

verus! {

/// Resolves a descriptor key against the stack: the index of the nearest
/// binding with that key at or below the top of the stack, scanning
/// backward and stopping the instant a frame marker is seen. Bindings
/// beyond the nearest frame marker are invisible.
pub open spec fn find_local_at(stack: Seq<Item>, key: Seq<char>) -> Option<int>
    decreases stack.len(),
{
    if stack.len() == 0 {
        None
    } else {
        match stack.last() {
            Item::Local { local, data } => if local.key() == key {
                Some(stack.len() - 1)
            } else {
                find_local_at(stack.drop_last(), key)
            },
            Item::Frame => None,
            Item::Data(_) => find_local_at(stack.drop_last(), key),
        }
    }
}

/// A resolved index points inside the stack, at a binding bearing the
/// resolved key.
pub proof fn lemma_find_local_at_binding(stack: Seq<Item>, key: Seq<char>)
    requires
        find_local_at(stack, key) is Some,
    ensures
        0 <= find_local_at(stack, key)->Some_0 < stack.len(),
        stack[find_local_at(stack, key)->Some_0] matches Item::Local { local, data }
            && local.key() == key,
    decreases stack.len(),
{
    if stack.len() > 0 {
        match stack.last() {
            Item::Local { local, data } => {
                if local.key() != key {
                    lemma_find_local_at_binding(stack.drop_last(), key);
                }
            },
            Item::Frame => {},
            Item::Data(_) => {
                lemma_find_local_at_binding(stack.drop_last(), key);
            },
        }
    }
}

/// What saving does to the stack once the saved value is in hand: an
/// existing binding in the current frame is replaced in place, keeping its
/// position; a fresh descriptor is bound by a new slot on top.
pub open spec fn save_apply(stack: Seq<Item>, local: Local, data: Data) -> Seq<Item> {
    match find_local_at(stack, local.key()) {
        Some(i) => stack.update(i, Item::Local { local, data }),
        None => stack.push(Item::Local { local, data }),
    }
}

/// The value a load of `key` would read: the nearest binding's stored
/// value, or nothing when resolution fails.
pub open spec fn read_local(stack: Seq<Item>, key: Seq<char>) -> Option<Data> {
    match find_local_at(stack, key) {
        Some(i) => match stack[i] {
            Item::Local { local, data } => Some(data),
            _ => None,
        },
        None => None,
    }
}

/// What clearing does to the stack: discard anonymous data values from the
/// top downward, keeping the first binding or frame marker met and
/// everything beneath it; a stack swept empty is exhaustion.
pub open spec fn clear_stack(stack: Seq<Item>) -> Option<Seq<Item>>
    decreases stack.len(),
{
    if stack.len() == 0 {
        None
    } else {
        match stack.last() {
            Item::Data(_) => clear_stack(stack.drop_last()),
            _ => Some(stack),
        }
    }
}

/// One step's outcome: the handler's report, the stack it left, and where
/// it left the instruction pointer.
pub type StepOutcome = (Result<(), Fault>, Seq<Item>, nat);

/// The constant-push opcode, dispatched with the instruction pointer on its
/// opcode byte: decode the operand, index the constant pool, push a fresh
/// anonymous copy of the constant.
pub open spec fn con_spec(c: Chunk, stack: Seq<Item>, ip: nat) -> StepOutcome {
    match decode_at(c.code@, ip as int + 1) {
        None => (Err(Fault::Decode), stack, (ip + 1) as nat),
        Some((value, end)) => if value > usize::MAX {
            (Err(Fault::Decode), stack, (ip + 1) as nat)
        } else if value >= c.constants@.len() {
            (Err(Fault::OutOfBounds), stack, (end - 1) as nat)
        } else {
            (Ok(()), stack.push(Item::Data(Tagged(c.constants@[value as int]))), end as nat)
        },
    }
}

/// The save opcode: the top of the stack must be an anonymous data value;
/// it is consumed, and an owned copy of it is bound to the operand's
/// descriptor by `save_apply`. The value is popped before the operand is
/// read, so an operand fault leaves it consumed.
pub open spec fn save_spec(c: Chunk, stack: Seq<Item>, ip: nat) -> StepOutcome {
    if stack.len() == 0 {
        (Err(Fault::StackShape), stack, ip)
    } else {
        match stack.last() {
            Item::Data(tagged) => {
                let popped = stack.drop_last();
                match decode_at(c.code@, ip as int + 1) {
                    None => (Err(Fault::Decode), popped, (ip + 1) as nat),
                    Some((value, end)) => if value > usize::MAX {
                        (Err(Fault::Decode), popped, (ip + 1) as nat)
                    } else if value >= c.locals@.len() {
                        (Err(Fault::OutOfBounds), popped, (end - 1) as nat)
                    } else {
                        (
                            Ok(()),
                            save_apply(popped, c.locals@[value as int], tagged.0),
                            end as nat,
                        )
                    },
                }
            },
            _ => (Err(Fault::StackShape), stack, ip),
        }
    }
}

/// The load opcode: resolve the operand's descriptor and push a fresh
/// anonymous copy of the binding's value; a descriptor that resolves to no
/// binding in the current frame is a resolution fault.
pub open spec fn load_spec(c: Chunk, stack: Seq<Item>, ip: nat) -> StepOutcome {
    match decode_at(c.code@, ip as int + 1) {
        None => (Err(Fault::Decode), stack, (ip + 1) as nat),
        Some((value, end)) => if value > usize::MAX {
            (Err(Fault::Decode), stack, (ip + 1) as nat)
        } else if value >= c.locals@.len() {
            (Err(Fault::OutOfBounds), stack, (end - 1) as nat)
        } else {
            match read_local(stack, c.locals@[value as int].key()) {
                None => (Err(Fault::Resolution), stack, (end - 1) as nat),
                Some(data) => (Ok(()), stack.push(Item::Data(Tagged(data))), end as nat),
            }
        },
    }
}

/// The clear opcode: sweep anonymous values off the top; exhausting the
/// stack is a fault that leaves it empty.
pub open spec fn clear_spec(c: Chunk, stack: Seq<Item>, ip: nat) -> StepOutcome {
    match clear_stack(stack) {
        None => (Err(Fault::Exhaustion), Seq::empty(), ip),
        Some(swept) => (Ok(()), swept, (ip + 1) as nat),
    }
}

/// One dispatch step, with the instruction pointer on an opcode byte: fetch
/// the opcode and apply its handler. A byte that names no opcode is a
/// decode fault.
pub open spec fn step_spec(c: Chunk, stack: Seq<Item>, ip: nat) -> StepOutcome {
    match opcode_spec(c.code@[ip as int]) {
        None => (Err(Fault::Decode), stack, ip),
        Some(Opcode::Con) => con_spec(c, stack, ip),
        Some(Opcode::Save) => save_spec(c, stack, ip),
        Some(Opcode::Load) => load_spec(c, stack, ip),
        Some(Opcode::Clear) => clear_spec(c, stack, ip),
    }
}

/// A successful step moves the instruction pointer strictly forward, and
/// never past the end of the code.
pub proof fn lemma_step_in_range(c: Chunk, stack: Seq<Item>, ip: nat)
    requires
        ip < c.code@.len(),
        step_spec(c, stack, ip).0 is Ok,
    ensures
        ip < step_spec(c, stack, ip).2 <= c.code@.len(),
{
    if decode_at(c.code@, ip as int + 1) is Some {
        crate::decode::lemma_decode_bounds(c.code@, ip as int + 1);
    }
}

/// A whole run from `ip`: step until the instruction pointer reaches the
/// end of the code, which is the only terminal state — there is no halt
/// opcode. The first fault aborts the run, leaving the stack as the
/// faulting step left it.
pub open spec fn run_spec(c: Chunk, stack: Seq<Item>, ip: nat) -> (Result<(), Fault>, Seq<Item>)
    decreases c.code@.len() - ip,
{
    if ip >= c.code@.len() {
        (Ok(()), stack)
    } else {
        let (r, stack2, ip2) = step_spec(c, stack, ip);
        match r {
            Err(fault) => (Err(fault), stack2),
            Ok(()) => if ip < ip2 <= c.code@.len() {
                run_spec(c, stack2, ip2)
            } else {
                (Ok(()), stack2)
            },
        }
    }
}

} // verus!
