//! Running hand-assembled chunks on the machine and inspecting the stack.

use passerine::Chunk;
use passerine::Data;
use passerine::Fault;
use passerine::Item;
use passerine::Local;
use passerine::VM;

fn local(name: &str) -> Local {
    Local { name: name.to_string() }
}

fn number(value: f64) -> Data {
    Data::Number(value.to_bits())
}

// Opcode bytes: 0 = Con, 1 = Save, 2 = Load, 3 = Clear; every operand here
// is small enough for a single encoding byte.
fn chunk(code: Vec<u8>, constants: Vec<Data>, locals: Vec<Local>) -> Chunk {
    Chunk { code, constants, locals }
}

// boop = 37.201; true; dhuiew = true; boop
#[test]
fn init_run() {
    let program = chunk(
        vec![0, 0, 1, 0, 3, 0, 1, 3, 0, 1, 1, 1, 3, 2, 0],
        vec![number(37.201), Data::Boolean(true)],
        vec![local("boop"), local("dhuiew")],
    );

    let mut vm = VM::init();

    match vm.run(program) {
        Ok(_) => (),
        Err(_) => panic!("VM threw error"),
    }
}

// boop = true; heck = { x = boop; x }; heck
// The block's binding of x is flattened by the generator; the machine
// itself pushes no frame marker for it.
#[test]
fn block_expression() {
    let program = chunk(
        vec![0, 0, 1, 0, 3, 2, 0, 1, 1, 2, 1, 1, 2, 3, 2, 2],
        vec![Data::Boolean(true)],
        vec![local("boop"), local("x"), local("heck")],
    );

    println!("{:#?}", program);

    let mut vm = VM::init();

    match vm.run(program) {
        Ok(_) => (),
        Err(_) => panic!("VM threw error"),
    }

    if let Some(Item::Data(t)) = vm.stack.pop() {
        match t.deref() {
            Data::Boolean(true) => (),
            _ => panic!("Expected true value"),
        }
    } else {
        panic!("Expected data on top of stack")
    }
}

#[test]
fn save_then_load_round_trip() {
    // con 0; save 0; load 0
    let program = chunk(vec![0, 0, 1, 0, 2, 0], vec![number(2.5)], vec![local("x")]);
    let mut vm = VM::init();
    assert_eq!(vm.run(program), Ok(()));
    match vm.stack.pop() {
        Some(Item::Data(t)) => assert_eq!(t.deref(), number(2.5)),
        other => panic!("expected an anonymous value on top, got {:?}", other),
    }
    // The binding itself is untouched beneath.
    match vm.stack.pop() {
        Some(Item::Local { local: l, data }) => {
            assert_eq!(l, local("x"));
            assert_eq!(data, number(2.5));
        },
        other => panic!("expected the binding beneath, got {:?}", other),
    }
}

#[test]
fn resave_replaces_in_place() {
    // con 0; save 0 — first declaration
    let first = chunk(vec![0, 0, 1, 0], vec![number(1.0)], vec![local("x")]);
    // con 0; save 0 — re-assignment of the same descriptor
    let second = chunk(vec![0, 0, 1, 0], vec![number(2.0)], vec![local("x")]);
    // load 0
    let read = chunk(vec![2, 0], vec![], vec![local("x")]);

    let mut vm = VM::init();
    assert_eq!(vm.run(first), Ok(()));
    let depth = vm.stack.len();
    assert_eq!(vm.run(second), Ok(()));
    assert_eq!(vm.stack.len(), depth, "re-save must not grow the stack");
    assert_eq!(vm.run(read), Ok(()));
    match vm.stack.pop() {
        Some(Item::Data(t)) => assert_eq!(t.deref(), number(2.0), "load must see the latest value"),
        other => panic!("expected an anonymous value on top, got {:?}", other),
    }
}

#[test]
fn clear_on_non_data_top_is_noop() {
    // Fresh machine: the frame marker is on top. Clear must change nothing.
    let mut vm = VM::init();
    assert_eq!(vm.run(chunk(vec![3], vec![], vec![])), Ok(()));
    assert_eq!(vm.stack.len(), 1);
    assert!(matches!(vm.stack[0], Item::Frame));

    // A binding on top: still a no-op.
    let bind = chunk(vec![0, 0, 1, 0], vec![Data::Boolean(false)], vec![local("x")]);
    assert_eq!(vm.run(bind), Ok(()));
    let depth = vm.stack.len();
    assert_eq!(vm.run(chunk(vec![3], vec![], vec![])), Ok(()));
    assert_eq!(vm.stack.len(), depth);
    assert!(matches!(vm.stack.last(), Some(Item::Local { .. })));
}

#[test]
fn clear_sweeps_data_down_to_boundary() {
    // con 0; con 0; con 0; clear — three anonymous values, all swept.
    let program = chunk(vec![0, 0, 0, 0, 0, 0, 3], vec![Data::Unit], vec![]);
    let mut vm = VM::init();
    assert_eq!(vm.run(program), Ok(()));
    assert_eq!(vm.stack.len(), 1);
    assert!(matches!(vm.stack[0], Item::Frame));
}

// x = 37.2; true; y = true; x
#[test]
fn statement_sequence_leaves_result_on_top() {
    let program = chunk(
        vec![0, 0, 1, 0, 3, 0, 1, 3, 0, 1, 1, 1, 3, 2, 0],
        vec![number(37.2), Data::Boolean(true)],
        vec![local("x"), local("y")],
    );
    let mut vm = VM::init();
    assert_eq!(vm.run(program), Ok(()));

    // Exactly one anonymous value on top, bearing 37.2 ...
    assert_eq!(vm.stack.len(), 4);
    match vm.stack.pop() {
        Some(Item::Data(t)) => assert_eq!(t.deref(), number(37.2)),
        other => panic!("expected an anonymous value on top, got {:?}", other),
    }
    // ... with the x and y bindings still present beneath it.
    match vm.stack.pop() {
        Some(Item::Local { local: l, data }) => {
            assert_eq!(l, local("y"));
            assert_eq!(data, Data::Boolean(true));
        },
        other => panic!("expected the y binding, got {:?}", other),
    }
    match vm.stack.pop() {
        Some(Item::Local { local: l, data }) => {
            assert_eq!(l, local("x"));
            assert_eq!(data, number(37.2));
        },
        other => panic!("expected the x binding, got {:?}", other),
    }
    assert!(matches!(vm.stack.pop(), Some(Item::Frame)));
}

#[test]
fn resolution_stops_at_frame_marker() {
    // Bind x in the outer frame.
    let bind = chunk(vec![0, 0, 1, 0], vec![Data::Boolean(true)], vec![local("x")]);
    let mut vm = VM::init();
    assert_eq!(vm.run(bind), Ok(()));

    // Enter a nested scope: the generator would emit a frame marker.
    vm.stack.push(Item::Frame);

    // Reading x from inside the nested scope must fail resolution: the
    // scan stops the instant it sees the frame marker.
    let read = chunk(vec![2, 0], vec![], vec![local("x")]);
    assert_eq!(vm.run(read), Err(Fault::Resolution));
}

#[test]
fn load_of_unsaved_descriptor_is_resolution_fault() {
    let read = chunk(vec![2, 0], vec![], vec![local("ghost_var")]);
    let mut vm = VM::init();
    assert_eq!(vm.run(read), Err(Fault::Resolution));
}

#[test]
fn truncated_operand_is_decode_fault() {
    // The final operand's encoding claims a continuation byte that never
    // comes: a decode fault, never a read past the end of the stream.
    let program = chunk(vec![0, 128], vec![Data::Unit], vec![]);
    let mut vm = VM::init();
    assert_eq!(vm.run(program), Err(Fault::Decode));
}

#[test]
fn missing_operand_is_decode_fault() {
    // An opcode as the last byte, with no operand bytes at all.
    let program = chunk(vec![0], vec![Data::Unit], vec![]);
    let mut vm = VM::init();
    assert_eq!(vm.run(program), Err(Fault::Decode));
}

#[test]
fn unknown_opcode_is_decode_fault() {
    let program = chunk(vec![9], vec![], vec![]);
    let mut vm = VM::init();
    assert_eq!(vm.run(program), Err(Fault::Decode));
}

#[test]
fn save_without_data_on_top_is_stack_shape_fault() {
    // Fresh machine: the top of the stack is the frame marker, not data.
    let program = chunk(vec![1, 0], vec![], vec![local("x")]);
    let mut vm = VM::init();
    assert_eq!(vm.run(program), Err(Fault::StackShape));
}

#[test]
fn constant_index_outside_pool_is_out_of_bounds_fault() {
    let program = chunk(vec![0, 5], vec![], vec![]);
    let mut vm = VM::init();
    assert_eq!(vm.run(program), Err(Fault::OutOfBounds));
}

#[test]
fn descriptor_index_outside_table_is_out_of_bounds_fault() {
    // con 0; save 7 — the descriptor table has a single entry.
    let program = chunk(vec![0, 0, 1, 7], vec![Data::Unit], vec![local("x")]);
    let mut vm = VM::init();
    assert_eq!(vm.run(program), Err(Fault::OutOfBounds));
}

#[test]
fn clearing_everything_is_exhaustion_fault() {
    let mut vm = VM::init();
    // Strip even the outermost frame marker, then leave bare data: a
    // malformed state the machine must detect, not assume away.
    vm.stack.clear();
    vm.stack.push(Item::Data(passerine::Tagged(Data::Unit)));
    let program = chunk(vec![3], vec![], vec![]);
    assert_eq!(vm.run(program), Err(Fault::Exhaustion));
}

#[test]
fn run_restores_chunk_and_instruction_pointer() {
    let program = chunk(vec![0, 0, 3], vec![Data::Unit], vec![]);
    let mut vm = VM::init();
    assert_eq!(vm.run(program), Ok(()));
    assert_eq!(vm.ip, 0);
    assert!(vm.chunk.code.is_empty());
    // A second program runs from the start against the persistent stack.
    let again = chunk(vec![0, 0], vec![Data::Boolean(true)], vec![]);
    assert_eq!(vm.run(again), Ok(()));
    assert_eq!(vm.stack.len(), 2);
}

#[test]
fn multi_byte_operand_reaches_wide_tables() {
    // An operand of 130 needs two encoding bytes: 130 = 2 + 1 * 128.
    let mut constants: Vec<Data> = Vec::new();
    for _ in 0..130 {
        constants.push(Data::Unit);
    }
    constants.push(Data::Boolean(true));
    let program = chunk(vec![0, 130, 1], constants, vec![]);
    let mut vm = VM::init();
    assert_eq!(vm.run(program), Ok(()));
    match vm.stack.pop() {
        Some(Item::Data(t)) => assert_eq!(t.deref(), Data::Boolean(true)),
        other => panic!("expected the wide constant, got {:?}", other),
    }
}
