//! Laws of the machine: properties that hold across opcodes and whole
//! runs, proved once and for all over the specification functions that the
//! executable interpreter is verified against.

use vstd::prelude::*;
use crate::chunk::Chunk;
use crate::chunk::Opcode;
use crate::chunk::opcode_spec;
use crate::data::Data;
use crate::decode::decode_at;
use crate::local::Local;
use crate::semantics::clear_stack;
use crate::semantics::find_local_at;
use crate::semantics::lemma_find_local_at_binding;
use crate::semantics::read_local;
use crate::semantics::run_spec;
use crate::semantics::save_apply;
use crate::semantics::step_spec;
use crate::stack::Item;

verus! {

/// Clearing a stack whose bottom item is not anonymous data never
/// exhausts it, and leaves that bottom item in place.
pub proof fn lemma_clear_keeps_bottom(stack: Seq<Item>)
    requires
        stack.len() > 0,
        !(stack[0] matches Item::Data(_)),
    ensures
        clear_stack(stack) is Some,
        clear_stack(stack)->Some_0.len() > 0,
        clear_stack(stack)->Some_0[0] == stack[0],
    decreases stack.len(),
{
    if stack.len() > 1 {
        match stack.last() {
            Item::Data(_) => {
                lemma_clear_keeps_bottom(stack.drop_last());
            },
            _ => {},
        }
    }
}

/// Clearing when the top of the stack is already a binding or a frame
/// marker is a no-op: nothing is swept, the stack is unchanged.
pub proof fn lemma_clear_noop(stack: Seq<Item>)
    requires
        stack.len() > 0,
        !(stack.last() matches Item::Data(_)),
    ensures
        clear_stack(stack) == Some(stack),
{
}

/// A frame marker on top of the stack makes every binding beneath it
/// invisible: resolution fails the instant the backward scan crosses it.
/// Outer-scope reads must be rewritten by the code generator; the machine
/// itself never looks past a frame.
pub proof fn lemma_frame_blocks_resolution(stack: Seq<Item>, key: Seq<char>)
    ensures
        find_local_at(stack.push(Item::Frame), key) is None,
{
    assert(stack.push(Item::Frame).last() == Item::Frame);
}

/// No single step removes or replaces the frame marker at the bottom of
/// the stack — whether the step succeeds or faults.
pub proof fn lemma_step_keeps_bottom_frame(c: Chunk, stack: Seq<Item>, ip: nat)
    requires
        ip < c.code@.len(),
        stack.len() > 0,
        stack[0] matches Item::Frame,
    ensures
        step_spec(c, stack, ip).1.len() > 0,
        step_spec(c, stack, ip).1[0] matches Item::Frame,
{
    match opcode_spec(c.code@[ip as int]) {
        Some(Opcode::Save) => {
            if stack.last() matches Item::Data(_) {
                assert(stack.len() >= 2);
                let popped = stack.drop_last();
                match decode_at(c.code@, ip as int + 1) {
                    Some((value, end)) => {
                        if value <= usize::MAX && value < c.locals@.len() {
                            let key = c.locals@[value as int].key();
                            if find_local_at(popped, key) is Some {
                                lemma_find_local_at_binding(popped, key);
                            }
                        }
                    },
                    None => {},
                }
            }
        },
        Some(Opcode::Clear) => {
            lemma_clear_keeps_bottom(stack);
        },
        _ => {},
    }
}

/// A stack that begins with the outermost frame marker at its bottom
/// still has it after a whole run — successful or aborted by a fault: no
/// defined opcode ever pops it.
pub proof fn lemma_run_keeps_bottom_frame(c: Chunk, stack: Seq<Item>, ip: nat)
    requires
        stack.len() > 0,
        stack[0] matches Item::Frame,
    ensures
        run_spec(c, stack, ip).1.len() > 0,
        run_spec(c, stack, ip).1[0] matches Item::Frame,
    decreases c.code@.len() - ip,
{
    if ip < c.code@.len() {
        let (r, stack2, ip2) = step_spec(c, stack, ip);
        lemma_step_keeps_bottom_frame(c, stack, ip);
        if r is Ok && ip < ip2 <= c.code@.len() {
            lemma_run_keeps_bottom_frame(c, stack2, ip2);
        }
    }
}

/// Replacing the slot a key resolves to, by another binding of the same
/// key, leaves resolution pointing at that same slot.
proof fn lemma_find_after_update(stack: Seq<Item>, key: Seq<char>, item: Item)
    requires
        find_local_at(stack, key) is Some,
        item matches Item::Local { local, data } && local.key() == key,
    ensures
        find_local_at(stack.update(find_local_at(stack, key)->Some_0, item), key)
            == find_local_at(stack, key),
    decreases stack.len(),
{
    let i = find_local_at(stack, key)->Some_0;
    lemma_find_local_at_binding(stack, key);
    let updated = stack.update(i, item);
    if i == stack.len() - 1 {
        assert(updated.last() == item);
    } else {
        assert(updated.last() == stack.last());
        assert(updated.drop_last() =~= stack.drop_last().update(i, item));
        match stack.last() {
            Item::Local { local, data } => {
                lemma_find_after_update(stack.drop_last(), key, item);
            },
            Item::Data(_) => {
                lemma_find_after_update(stack.drop_last(), key, item);
            },
            Item::Frame => {},
        }
    }
}

/// After a save, the saved descriptor resolves — to the very slot that
/// now holds the saved value.
pub proof fn lemma_find_after_save(stack: Seq<Item>, local: Local, data: Data)
    ensures
        ({
            let saved = save_apply(stack, local, data);
            let found = find_local_at(saved, local.key());
            found is Some && 0 <= found->Some_0 < saved.len() && saved[found->Some_0]
                == (Item::Local { local, data })
        }),
{
    match find_local_at(stack, local.key()) {
        Some(i) => {
            lemma_find_local_at_binding(stack, local.key());
            lemma_find_after_update(stack, local.key(), Item::Local { local, data });
        },
        None => {
            let saved = stack.push(Item::Local { local, data });
            assert(saved.last() == (Item::Local { local, data }));
        },
    }
}

/// Saving a value under a descriptor and then loading that descriptor
/// reads back a value equal to the one saved — whether the descriptor was
/// fresh in the frame or already bound. The round trip observes value
/// equality, never sharing: what was bound is an owned copy.
pub proof fn lemma_save_then_load(stack: Seq<Item>, local: Local, data: Data)
    ensures
        read_local(save_apply(stack, local, data), local.key()) == Some(data),
{
    lemma_find_after_save(stack, local, data);
}

/// Saving twice to the same descriptor within one frame replaces the
/// binding in place — the second save leaves the stack depth unchanged —
/// and a subsequent load sees only the latest value.
pub proof fn lemma_resave_shadows(stack: Seq<Item>, local: Local, first: Data, second: Data)
    ensures
        ({
            let once = save_apply(stack, local, first);
            let twice = save_apply(once, local, second);
            twice.len() == once.len() && read_local(twice, local.key()) == Some(second)
        }),
{
    let once = save_apply(stack, local, first);
    lemma_find_after_save(stack, local, first);
    lemma_find_after_save(once, local, second);
}

} // verus!
