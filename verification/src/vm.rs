//! The virtual machine: one chunk, one stack, one instruction pointer.
//!
//! Each opcode handler and the dispatch loop are proved to do exactly what
//! the specification functions in `semantics` say, on every path, faults
//! included.

use vstd::prelude::*;
use crate::chunk::Chunk;
use crate::chunk::Opcode;
use crate::data::Data;
use crate::data::Tagged;
use crate::decode::decode_at;
use crate::decode::decode_operand;
use crate::decode::lemma_decode_bounds;
use crate::fault::Fault;
use crate::fault::RunResult;
use crate::local::Local;
use crate::semantics::clear_spec;
use crate::semantics::clear_stack;
use crate::semantics::con_spec;
use crate::semantics::find_local_at;
use crate::semantics::lemma_find_local_at_binding;
use crate::semantics::lemma_step_in_range;
use crate::semantics::load_spec;
use crate::semantics::run_spec;
use crate::semantics::save_spec;
use crate::semantics::step_spec;
use crate::stack::Item;
use crate::stack::Stack;

verus! {

/// A virtual machine instance. The stack persists across runs; the chunk
/// is swapped in for the duration of one `run` call. Both are left
/// observable so a caller — a test harness, or a read-eval-print loop —
/// can inspect what a program left behind.
#[derive(Debug)]
pub struct VM {
    pub chunk: Chunk,
    pub stack: Stack,
    pub ip: usize,
}

// Initialization, cursor helpers, variable resolution, and the dispatch
// loop; the opcode handlers follow in the next impl block.
impl VM {
    /// A fresh machine: an empty chunk, a stack holding exactly the
    /// outermost frame marker, and the instruction pointer at the start.
    pub fn init() -> (vm: VM)
        ensures
            vm.stack@ == seq![Item::Frame],
            vm.ip == 0,
            vm.chunk.code@ == Seq::<u8>::empty(),
            vm.chunk.constants@ == Seq::<Data>::empty(),
            vm.chunk.locals@ == Seq::<Local>::empty(),
    {
        let mut stack: Stack = Vec::new();
        stack.push(Item::Frame);
        proof {
            assert(stack@ =~= seq![Item::Frame]);
        }
        VM { chunk: Chunk::empty(), stack, ip: 0 }
    }

    /// Moves the instruction pointer one byte forward. The pointer sits on
    /// a byte of the code, so the move cannot overflow.
    pub fn next(&mut self)
        requires
            old(self).ip < old(self).chunk.code@.len(),
        ensures
            final(self).chunk == old(self).chunk,
            final(self).stack == old(self).stack,
            final(self).ip == old(self).ip + 1,
    {
        if self.ip < self.chunk.code.len() {
            self.ip = self.ip + 1;
        }
    }

    /// Steps past the byte just handled and reports success.
    pub fn done(&mut self) -> (r: RunResult)
        requires
            old(self).ip < old(self).chunk.code@.len(),
        ensures
            final(self).chunk == old(self).chunk,
            final(self).stack == old(self).stack,
            final(self).ip == old(self).ip + 1,
            r == Ok::<(), Fault>(()),
    {
        self.next();
        Ok(())
    }

    /// The byte under the instruction pointer.
    pub fn peek_byte(&self) -> (byte: u8)
        requires
            self.ip < self.chunk.code@.len(),
        ensures
            byte == self.chunk.code@[self.ip as int],
    {
        self.chunk.code[self.ip]
    }

    /// Steps forward and reads the byte now under the instruction pointer.
    pub fn next_byte(&mut self) -> (byte: u8)
        requires
            old(self).ip + 1 < old(self).chunk.code@.len(),
        ensures
            final(self).chunk == old(self).chunk,
            final(self).stack == old(self).stack,
            final(self).ip == old(self).ip + 1,
            byte == old(self).chunk.code@[old(self).ip + 1],
    {
        self.next();
        self.peek_byte()
    }

    /// Reads the operand that follows the opcode byte under the
    /// instruction pointer, leaving the pointer on the last byte of its
    /// encoding — one `done` short of the next opcode.
    pub fn next_number(&mut self) -> (r: Result<usize, Fault>)
        requires
            old(self).ip < old(self).chunk.code@.len(),
        ensures
            final(self).chunk == old(self).chunk,
            final(self).stack == old(self).stack,
            match decode_at(old(self).chunk.code@, old(self).ip as int + 1) {
                None => r == Err::<usize, Fault>(Fault::Decode)
                    && final(self).ip == old(self).ip + 1,
                Some((value, end)) => if value > usize::MAX {
                    r == Err::<usize, Fault>(Fault::Decode) && final(self).ip == old(self).ip + 1
                } else {
                    r == Ok::<usize, Fault>(value as usize) && final(self).ip == end - 1
                        && final(self).ip < old(self).chunk.code@.len()
                },
            },
    {
        self.next();
        match decode_operand(&self.chunk.code, self.ip) {
            Err(fault) => Err(fault),
            Ok((value, end)) => {
                proof {
                    lemma_decode_bounds(self.chunk.code@, self.ip as int);
                }
                self.ip = end - 1;
                Ok(value)
            },
        }
    }

    /// Scans the stack backward from the top for a binding of `local`,
    /// stopping at the nearest frame marker: the positional resolution
    /// that `find_local_at` specifies.
    pub fn find_local(&self, local: &Local) -> (r: Option<usize>)
        ensures
            self.stack@.len() <= usize::MAX,
            match find_local_at(self.stack@, local.key()) {
                Some(i) => r == Some(i as usize),
                None => r is None,
            },
    {
        let mut index = self.stack.len();
        proof {
            assert(self.stack@.take(index as int) =~= self.stack@);
        }
        while index > 0
            invariant
                index <= self.stack@.len(),
                self.stack@.len() <= usize::MAX,
                find_local_at(self.stack@, local.key()) == find_local_at(
                    self.stack@.take(index as int),
                    local.key(),
                ),
            decreases index,
        {
            index = index - 1;
            let ghost prefix = self.stack@.take(index as int + 1);
            proof {
                assert(prefix.last() == self.stack@[index as int]);
                assert(prefix.drop_last() =~= self.stack@.take(index as int));
            }
            match &self.stack[index] {
                Item::Local { local: l, data } => {
                    if l.name == local.name {
                        return Some(index);
                    }
                },
                Item::Frame => {
                    return None;
                },
                Item::Data(_) => {},
            }
        }
        None
    }

    /// Reads a descriptor operand, looks the descriptor up in the chunk's
    /// table, and resolves it against the stack.
    pub fn local_index(&mut self) -> (r: Result<(Local, Option<usize>), Fault>)
        requires
            old(self).ip < old(self).chunk.code@.len(),
        ensures
            final(self).chunk == old(self).chunk,
            final(self).stack == old(self).stack,
            match decode_at(old(self).chunk.code@, old(self).ip as int + 1) {
                None => r == Err::<(Local, Option<usize>), Fault>(Fault::Decode)
                    && final(self).ip == old(self).ip + 1,
                Some((value, end)) => if value > usize::MAX {
                    r == Err::<(Local, Option<usize>), Fault>(Fault::Decode)
                        && final(self).ip == old(self).ip + 1
                } else if value >= old(self).chunk.locals@.len() {
                    r == Err::<(Local, Option<usize>), Fault>(Fault::OutOfBounds)
                        && final(self).ip == end - 1
                } else {
                    ({
                        let l = old(self).chunk.locals@[value as int];
                        final(self).ip == end - 1
                            && final(self).ip < old(self).chunk.code@.len()
                            && old(self).stack@.len() <= usize::MAX
                            && match find_local_at(old(self).stack@, l.key()) {
                            Some(i) => r == Ok::<(Local, Option<usize>), Fault>(
                                (l, Some(i as usize)),
                            ),
                            None => r == Ok::<(Local, Option<usize>), Fault>((l, None)),
                        }
                    })
                },
            },
    {
        let value = match self.next_number() {
            Ok(v) => v,
            Err(fault) => {
                return Err(fault);
            },
        };
        if value >= self.chunk.locals.len() {
            return Err(Fault::OutOfBounds);
        }
        let local = self.chunk.locals[value].clone();
        let index = self.find_local(&local);
        Ok((local, index))
    }

    /// Fetches the opcode under the instruction pointer and dispatches to
    /// its handler; a byte that names no opcode is a decode fault.
    pub fn step(&mut self) -> (r: RunResult)
        requires
            old(self).ip < old(self).chunk.code@.len(),
        ensures
            final(self).chunk == old(self).chunk,
            ({
                let (r2, stack2, ip2) = step_spec(
                    old(self).chunk,
                    old(self).stack@,
                    old(self).ip as nat,
                );
                r == r2 && final(self).stack@ == stack2 && final(self).ip == ip2
            }),
    {
        let opcode = Opcode::from_byte(self.peek_byte());
        match opcode {
            Some(Opcode::Con) => self.con(),
            Some(Opcode::Save) => self.save(),
            Some(Opcode::Load) => self.load(),
            Some(Opcode::Clear) => self.clear(),
            None => Err(Fault::Decode),
        }
    }

    /// Executes `chunk` from its first byte to its end against the
    /// machine's persistent stack. The chunk and instruction pointer that
    /// were active before are restored afterward; what the program left on
    /// the stack stays there, on success — everything `run_spec` promises —
    /// and on a fault, where the stack holds whatever the partial
    /// execution made of it.
    pub fn run(&mut self, chunk: Chunk) -> (r: RunResult)
        ensures
            final(self).chunk == old(self).chunk,
            final(self).ip == old(self).ip,
            ({
                let (r2, stack2) = run_spec(chunk, old(self).stack@, 0);
                r == r2 && final(self).stack@ == stack2
            }),
    {
        let mut previous = chunk;
        core::mem::swap(&mut self.chunk, &mut previous);
        let entry_ip = self.ip;
        self.ip = 0;
        while self.ip < self.chunk.code.len()
            invariant
                self.chunk == chunk,
                previous == old(self).chunk,
                entry_ip == old(self).ip,
                run_spec(chunk, old(self).stack@, 0) == run_spec(
                    chunk,
                    self.stack@,
                    self.ip as nat,
                ),
            decreases self.chunk.code@.len() - self.ip,
        {
            let ghost pre = *self;
            match self.step() {
                Ok(()) => {
                    proof {
                        lemma_step_in_range(chunk, pre.stack@, pre.ip as nat);
                    }
                },
                Err(fault) => {
                    core::mem::swap(&mut self.chunk, &mut previous);
                    self.ip = entry_ip;
                    return Err(fault);
                },
            }
        }
        core::mem::swap(&mut self.chunk, &mut previous);
        self.ip = entry_ip;
        Ok(())
    }
}

// The opcode handlers. Each one is dispatched with the instruction pointer
// on its own opcode byte, consumes its operand bytes, and leaves the
// pointer on the next opcode.
impl VM {
    /// Constant-push: copy the operand-indexed constant out of the pool
    /// and push it as an anonymous value. The pool itself is never moved
    /// from or mutated.
    pub fn con(&mut self) -> (r: RunResult)
        requires
            old(self).ip < old(self).chunk.code@.len(),
        ensures
            final(self).chunk == old(self).chunk,
            ({
                let (r2, stack2, ip2) = con_spec(
                    old(self).chunk,
                    old(self).stack@,
                    old(self).ip as nat,
                );
                r == r2 && final(self).stack@ == stack2 && final(self).ip == ip2
            }),
    {
        let index = match self.next_number() {
            Ok(v) => v,
            Err(fault) => {
                return Err(fault);
            },
        };
        if index >= self.chunk.constants.len() {
            return Err(Fault::OutOfBounds);
        }
        let value = self.chunk.constants[index].clone();
        self.stack.push(Item::Data(Tagged::from(value)));
        self.done()
    }

    /// Save: consume the anonymous value on top of the stack and bind an
    /// owned copy of it to the operand's descriptor — replacing the
    /// binding in place if the descriptor is already bound in the current
    /// frame, pushing a first declaration otherwise.
    pub fn save(&mut self) -> (r: RunResult)
        requires
            old(self).ip < old(self).chunk.code@.len(),
        ensures
            final(self).chunk == old(self).chunk,
            ({
                let (r2, stack2, ip2) = save_spec(
                    old(self).chunk,
                    old(self).stack@,
                    old(self).ip as nat,
                );
                r == r2 && final(self).stack@ == stack2 && final(self).ip == ip2
            }),
    {
        let data = match self.stack.pop() {
            Some(Item::Data(tagged)) => tagged.deref(),
            Some(other) => {
                self.stack.push(other);
                proof {
                    assert(self.stack@ =~= old(self).stack@);
                }
                return Err(Fault::StackShape);
            },
            None => {
                return Err(Fault::StackShape);
            },
        };
        let (local, index) = match self.local_index() {
            Ok(pair) => pair,
            Err(fault) => {
                return Err(fault);
            },
        };
        match index {
            Some(i) => {
                proof {
                    lemma_find_local_at_binding(self.stack@, local.key());
                }
                self.stack[i] = Item::Local { local, data };
            },
            None => {
                self.stack.push(Item::Local { local, data });
            },
        }
        self.done()
    }

    /// Load: resolve the operand's descriptor and push an anonymous copy
    /// of the binding's value; the binding itself stays where it is,
    /// untouched. A descriptor with no binding in the current frame is a
    /// resolution fault.
    pub fn load(&mut self) -> (r: RunResult)
        requires
            old(self).ip < old(self).chunk.code@.len(),
        ensures
            final(self).chunk == old(self).chunk,
            ({
                let (r2, stack2, ip2) = load_spec(
                    old(self).chunk,
                    old(self).stack@,
                    old(self).ip as nat,
                );
                r == r2 && final(self).stack@ == stack2 && final(self).ip == ip2
            }),
    {
        let (local, index) = match self.local_index() {
            Ok(pair) => pair,
            Err(fault) => {
                return Err(fault);
            },
        };
        match index {
            Some(i) => {
                proof {
                    lemma_find_local_at_binding(self.stack@, local.key());
                }
                let data = match &self.stack[i] {
                    Item::Local { local: l, data } => data.clone(),
                    _ => {
                        return Err(Fault::Resolution);
                    },
                };
                self.stack.push(Item::Data(Tagged::from(data)));
                self.done()
            },
            None => Err(Fault::Resolution),
        }
    }

    /// Clear: pop anonymous values until something that is not one — a
    /// binding or a frame marker — shows up, and put that item back.
    /// Statement results that were never consumed are swept away without
    /// disturbing anything beneath them.
    pub fn clear(&mut self) -> (r: RunResult)
        requires
            old(self).ip < old(self).chunk.code@.len(),
        ensures
            final(self).chunk == old(self).chunk,
            ({
                let (r2, stack2, ip2) = clear_spec(
                    old(self).chunk,
                    old(self).stack@,
                    old(self).ip as nat,
                );
                r == r2 && final(self).stack@ == stack2 && final(self).ip == ip2
            }),
    {
        loop
            invariant
                self.chunk == old(self).chunk,
                self.ip == old(self).ip,
                self.ip < self.chunk.code@.len(),
                clear_stack(self.stack@) == clear_stack(old(self).stack@),
            ensures
                self.chunk == old(self).chunk,
                self.ip == old(self).ip,
                self.ip < self.chunk.code@.len(),
                clear_stack(old(self).stack@) == Some(self.stack@),
            decreases self.stack@.len(),
        {
            match self.stack.pop() {
                None => {
                    proof {
                        assert(self.stack@ =~= Seq::<Item>::empty());
                    }
                    return Err(Fault::Exhaustion);
                },
                Some(item) => match item {
                    Item::Data(_) => {},
                    other => {
                        self.stack.push(other);
                        break;
                    },
                },
            }
        }
        self.done()
    }
}

} // verus!
