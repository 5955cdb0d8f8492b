use skitter::eval_spec::RunResult;
use skitter::instr::{FloatBinary, FloatWidth, FuncId, Instr, IntBinary, IntUnary, Slot, Width};
use skitter::machine::{run_effect, Frame, StepResult, VMThread, VmError};
use skitter::program::Program;
use skitter::types::Span;
use skitter::vm::{Builtin, FunctionSource, CONST_BASE, FUNC_BASE, STACK_BASE, STACK_SIZE, VM};
use skitter::types::ListId;

fn run(code: Vec<Instr>) -> (VM, VMThread, RunResult) {
    let mut vm = VM::new(false);
    let prog = Program::new();
    let mut th = VMThread::new();
    let r = th.run_bytecode(&mut vm, &prog, &code, 0, 10_000, 4);
    (vm, th, r)
}

fn word(th: &VMThread, at: usize, n: usize) -> u128 {
    let b = th.copy_result(at, n).unwrap();
    let mut v: u128 = 0;
    for (i, x) in b.iter().enumerate() {
        v |= (*x as u128) << (8 * i);
    }
    v
}

#[test]
fn a_new_thread_has_a_zeroed_stack() {
    let th = VMThread::new();
    assert_eq!(th.stack.len(), STACK_SIZE as usize);
    assert!(th.stack.iter().all(|b| *b == 0));
    assert!(th.frames.is_empty());
    assert_eq!(VM::new(true).make_thread().stack.len(), STACK_SIZE as usize);
}

#[test]
fn constants_and_arithmetic() {
    let (_, th, r) = run(vec![
        Instr::Const(Width::W32, Slot(0), 40),
        Instr::Const(Width::W32, Slot(4), 2),
        Instr::Binary(Width::W32, IntBinary::Add, Slot(8), Slot(0), Slot(4)),
        Instr::Unary(Width::W32, IntUnary::Neg, Slot(12), Slot(8)),
        Instr::Binary(Width::W32, IntBinary::SLt, Slot(16), Slot(12), Slot(0)),
        Instr::BoolNot(Slot(17), Slot(16)),
        Instr::Widen { to: Width::W64, from: Width::W32, signed: true, dst: Slot(24), src: Slot(12) },
        Instr::Const(Width::W16, Slot(32), -2),
        Instr::Return,
    ]);
    assert_eq!(r, RunResult::Returned);
    assert_eq!(word(&th, 8, 4), 42);
    assert_eq!(word(&th, 12, 4), (-42i32) as u32 as u128);
    assert_eq!(word(&th, 16, 1), 1);
    assert_eq!(word(&th, 17, 1), 0);
    assert_eq!(word(&th, 24, 8), (-42i64) as u64 as u128);
    assert_eq!(word(&th, 32, 2), 0xfffe);
    assert!(th.frames.is_empty());
}

#[test]
fn moves_between_slots_and_pointers() {
    let (_, th, r) = run(vec![
        Instr::Const(Width::W64, Slot(0), 0x0807_0605_0403_0201),
        Instr::MovSS(3, Slot(8), Slot(1)),
        Instr::SlotAddr(Slot(16), Slot(0)),
        Instr::MovPS(2, Slot(24), Slot(16), 6),
        Instr::MovSP(2, Slot(16), Slot(0), 32),
        Instr::PointerOffset2(Slot(40), Slot(16), -8),
        Instr::Return,
    ]);
    assert_eq!(r, RunResult::Returned);
    assert_eq!(th.copy_result(8, 3), Some(vec![2, 3, 4]));
    assert_eq!(word(&th, 16, 8), STACK_BASE as u128);
    assert_eq!(th.copy_result(24, 2), Some(vec![7, 8]));
    assert_eq!(th.copy_result(32, 2), Some(vec![1, 2]));
    assert_eq!(word(&th, 40, 8), STACK_BASE as u128 - 8);
    assert_eq!(th.copy_ptr(Slot(16)), Some(STACK_BASE));
}

#[test]
fn jumps_move_the_program_counter() {
    // counts slot 0 up to 5
    let (_, th, r) = run(vec![
        Instr::Const(Width::W32, Slot(0), 0),
        Instr::Const(Width::W32, Slot(4), 1),
        Instr::Const(Width::W32, Slot(8), 5),
        Instr::Binary(Width::W32, IntBinary::Add, Slot(0), Slot(0), Slot(4)),
        Instr::Binary(Width::W32, IntBinary::ULt, Slot(12), Slot(0), Slot(8)),
        Instr::JumpT(-2, Slot(12)),
        Instr::JumpF(2, Slot(12)),
        Instr::Bad,
        Instr::Jump(1),
        Instr::Return,
    ]);
    assert_eq!(r, RunResult::Returned);
    assert_eq!(word(&th, 0, 4), 5);
}

#[test]
fn index_arithmetic() {
    let (_, th, r) = run(vec![
        Instr::Const(Width::W64, Slot(0), 3),
        Instr::IndexCalc { arg_out: Slot(0), elem_size: 4, elem_count: 10 },
        Instr::SlotAddrOffset { out: Slot(8), arg: Slot(64), offset: Slot(0) },
        Instr::Const(Width::W64, Slot(16), 2),
        Instr::IndexCalcDyn { arg_out: Slot(16), elem_size: 8, elem_count: Slot(0) },
        Instr::SlotAddr(Slot(24), Slot(64)),
        Instr::PointerOffset3(Slot(16), Slot(24), 1),
        // a slice of 3 elements of 4 bytes at slot 64
        Instr::SlotAddr(Slot(32), Slot(64)),
        Instr::Const(Width::W64, Slot(40), 3),
        Instr::IndexCalcEndPointer { out: Slot(48), slice: Slot(32), elem_size: 4 },
        Instr::Return,
    ]);
    assert_eq!(r, RunResult::Returned);
    assert_eq!(word(&th, 0, 8), 12);
    assert_eq!(word(&th, 8, 8), STACK_BASE as u128 + 64 + 12);
    assert_eq!(word(&th, 16, 8), STACK_BASE as u128 + 64 + 16 + 1);
    assert_eq!(word(&th, 48, 8), STACK_BASE as u128 + 64 + 12);
}

#[test]
fn array_repeat_copies_the_first_element() {
    let (_, th, r) = run(vec![
        Instr::Const(Width::W16, Slot(8), 0x0102),
        Instr::ArrayRepeat { base: Slot(8), size: 2, count: 4 },
        Instr::Return,
    ]);
    assert_eq!(r, RunResult::Returned);
    assert_eq!(th.copy_result(8, 10), Some(vec![2, 1, 2, 1, 2, 1, 2, 1, 0, 0]));
}

#[test]
fn array_repeat_outside_the_stack_changes_nothing() {
    let (_, th, r) = run(vec![
        Instr::Const(Width::W16, Slot(STACK_SIZE - 4), 0x0102),
        Instr::ArrayRepeat { base: Slot(STACK_SIZE - 4), size: 2, count: 3 },
        Instr::Return,
    ]);
    assert_eq!(r, RunResult::Fault(VmError::BadAddress));
    assert_eq!(th.copy_result(STACK_SIZE as usize - 4, 4), Some(vec![2, 1, 0, 0]));
}

#[test]
fn mem_compare_compares_byte_runs() {
    let mut vm = VM::new(false);
    let prog = Program::new();
    let a = vm.alloc_constant(&b"hello".to_vec()).unwrap();
    let b = vm.alloc_constant(&b"hello".to_vec()).unwrap();
    let c = vm.alloc_constant(&b"help!".to_vec()).unwrap();
    assert_eq!((a, b, c), (0, 5, 10));
    let code = vec![
        Instr::Const(Width::W64, Slot(0), (CONST_BASE + a as u64) as i128),
        Instr::Const(Width::W64, Slot(8), 5),
        Instr::Const(Width::W64, Slot(16), (CONST_BASE + b as u64) as i128),
        Instr::Const(Width::W64, Slot(24), 5),
        Instr::Const(Width::W64, Slot(32), (CONST_BASE + c as u64) as i128),
        Instr::Const(Width::W64, Slot(40), 5),
        Instr::Const(Width::W64, Slot(48), (CONST_BASE + a as u64) as i128),
        Instr::Const(Width::W64, Slot(56), 4),
        Instr::MemCompare(Slot(64), Slot(0), Slot(16)),
        Instr::MemCompare(Slot(65), Slot(0), Slot(32)),
        Instr::MemCompare(Slot(66), Slot(0), Slot(48)),
        Instr::Return,
    ];
    let mut th = VMThread::new();
    assert_eq!(th.run_bytecode(&mut vm, &prog, &code, 0, 1000, 4), RunResult::Returned);
    assert_eq!(th.copy_result(64, 3), Some(vec![1, 0, 0]));
}

#[test]
fn faults() {
    assert_eq!(run(vec![Instr::Bad]).2, RunResult::Fault(VmError::BadCode));
    assert_eq!(run(vec![Instr::Skipped]).2, RunResult::Fault(VmError::BadCode));
    assert_eq!(run(vec![]).2, RunResult::Fault(VmError::BadCode));
    assert_eq!(run(vec![Instr::Const(Width::W8, Slot(0), 1)]).2, RunResult::Fault(VmError::BadCode));
    assert_eq!(run(vec![Instr::Jump(1)]).2, RunResult::Fault(VmError::BadCode));
    assert_eq!(run(vec![Instr::Jump(-1)]).2, RunResult::Fault(VmError::BadCode));
    assert_eq!(
        run(vec![Instr::Const(Width::W64, Slot(STACK_SIZE - 4), 1)]).2,
        RunResult::Fault(VmError::BadAddress)
    );
    assert_eq!(
        run(vec![Instr::MovPS(1, Slot(8), Slot(0), 0)]).2,
        RunResult::Fault(VmError::BadAddress)
    );
    assert_eq!(
        run(vec![
            Instr::Const(Width::W64, Slot(0), CONST_BASE as i128),
            Instr::MovSP(1, Slot(0), Slot(8), 0),
        ])
        .2,
        RunResult::Fault(VmError::BadAddress)
    );
    assert_eq!(
        run(vec![Instr::Binary(Width::W32, IntBinary::UDiv, Slot(0), Slot(4), Slot(8))]).2,
        RunResult::Fault(VmError::DivisionByZero)
    );
    assert_eq!(run(vec![Instr::Call(Slot(16), FuncId(3))]).2, RunResult::Fault(VmError::BadFunction));
    assert_eq!(
        run(vec![Instr::CallPtr { frame: Slot(16), func_ptr: Slot(0) }]).2,
        RunResult::Fault(VmError::BadFunction)
    );
    assert_eq!(run(vec![Instr::Jump(0)]).2, RunResult::OutOfSteps);
}

#[test]
fn floats_are_left_to_the_caller() {
    let add = Instr::FloatBinary(FloatWidth::F32, FloatBinary::Add, Slot(0), Slot(4), Slot(8));
    let (mut vm, mut th, r) = run(vec![add, Instr::Return]);
    assert_eq!(r, RunResult::Float(add, 0));
    // the caller writes the result and goes on
    assert!(th.write_bytes(0, &1.5f32.to_bits().to_le_bytes().to_vec()));
    let prog = Program::new();
    assert_eq!(vm.run(&prog, &mut th, 10, 4), RunResult::Returned);
    assert_eq!(word(&th, 0, 4), 1.5f32.to_bits() as u128);
}

#[test]
fn calls_push_and_pop_frames() {
    let mut vm = VM::new(false);
    let prog = Program::new();
    let l = vm.types.intern_list(&vec![]).unwrap();
    let f = vm.alloc_function(&prog, FunctionSource::Closure(0), l).unwrap();
    assert_eq!(f, FuncId(0));
    assert_eq!(vm.get_bytecode(f), None);
    vm.set_bytecode(f, &vec![Instr::Const(Width::W32, Slot(0), 77), Instr::Return]).unwrap();
    // the first publication wins
    vm.set_bytecode(f, &vec![Instr::Bad]).unwrap();
    assert_eq!(vm.get_bytecode(f), Some(Span { start: 0, len: 2 }));
    assert_eq!(vm.code.len(), 2);
    let code = vec![
        Instr::Call(Slot(16), f),
        Instr::Const(Width::W64, Slot(0), (FUNC_BASE + 0) as i128),
        Instr::CallPtr { frame: Slot(32), func_ptr: Slot(0) },
        Instr::Return,
    ];
    let mut th = VMThread::new();
    assert_eq!(th.run_bytecode(&mut vm, &prog, &code, 8, 100, 4), RunResult::Returned);
    assert_eq!(word(&th, 8 + 16, 4), 77);
    assert_eq!(word(&th, 8 + 32, 4), 77);
    // a frame that would start outside the stack
    let mut th2 = VMThread::new();
    let far = vec![Instr::Call(Slot(STACK_SIZE), f), Instr::Return];
    assert_eq!(
        th2.run_bytecode(&mut vm, &prog, &far, 8, 100, 4),
        RunResult::Fault(VmError::FrameOverflow)
    );
    assert_eq!(vm.set_bytecode(FuncId(9), &vec![]), Err(skitter::error::CompileError::ItemMismatch));
}

#[test]
fn native_functions_are_left_to_the_caller() {
    let mut vm = VM::new(false);
    let prog = Program::new();
    let l = vm.types.intern_list(&vec![]).unwrap();
    let f = vm.alloc_function(&prog, FunctionSource::Closure(0), l).unwrap();
    assert_eq!(vm.get_native(f), None);
    vm.set_native(f, Builtin::PrintBool).unwrap();
    assert_eq!(vm.get_native(f), Some(Builtin::PrintBool));
    let code = vec![Instr::Call(Slot(16), f), Instr::Return];
    let mut th = VMThread::new();
    assert_eq!(th.run_bytecode(&mut vm, &prog, &code, 0, 100, 4), RunResult::Native(Builtin::PrintBool, 16));
    assert_eq!(vm.run(&prog, &mut th, 100, 4), RunResult::Returned);
    let mut th2 = VMThread::new();
    assert_eq!(th2.call(&mut vm, &prog, f, 24, 100, 4), RunResult::Native(Builtin::PrintBool, 24));
}

#[test]
fn single_steps() {
    let mut vm = VM::new(false);
    let span = vm
        .alloc_bytecode(&vec![Instr::Const(Width::W8, Slot(1), 9), Instr::Return])
        .unwrap();
    let mut th = VMThread::new();
    assert_eq!(th.step(&vm), StepResult::Fault(VmError::BadCode));
    th.enter(span, 4);
    assert_eq!(th.frames, vec![Frame { start: 0, len: 2, pc: 0, base: 4 }]);
    assert_eq!(th.step(&vm), StepResult::Continue);
    assert_eq!(th.frames, vec![Frame { start: 0, len: 2, pc: 1, base: 4 }]);
    assert_eq!(th.stack[5], 9);
    assert_eq!(th.step(&vm), StepResult::Returned);
    assert!(th.frames.is_empty());
    let mut stack = vec![0u8; 16];
    assert_eq!(run_effect(&vm.constants, &mut stack, 0, Instr::Return), Err(VmError::BadCode));
    assert_eq!(run_effect(&vm.constants, &mut stack, 8, Instr::Const(Width::W32, Slot(4), -1)), Ok(()));
    assert_eq!(stack[12..16], [0xff; 4]);
    let _ = ListId(0);
}

#[test]
fn vtable_fetch_reads_the_table() {
    let mut vm = VM::new(false);
    let prog = Program::new();
    let mut table = Vec::new();
    table.extend_from_slice(&(FUNC_BASE + 5).to_le_bytes());
    table.extend_from_slice(&(FUNC_BASE + 6).to_le_bytes());
    let off = vm.alloc_constant(&table).unwrap();
    let code = vec![
        Instr::Const(Width::W64, Slot(0), (CONST_BASE + off as u64) as i128),
        Instr::VTableFunc(Slot(8), Slot(0), 1),
        Instr::Return,
    ];
    let mut th = VMThread::new();
    assert_eq!(th.run_bytecode(&mut vm, &prog, &code, 0, 100, 4), RunResult::Returned);
    assert_eq!(word(&th, 8, 8), (FUNC_BASE + 6) as u128);
}
