//! The virtual machine: threads with a flat stack and a stack of frames,
//! and the step that executes one instruction.

use vstd::prelude::*;
use crate::alu::{alu1, alu2, compute_binary, compute_unary, compute_widen, flag, widen};
use crate::instr::{FuncId, Instr, Slot, Width};
use crate::memory::{
    bytes_of, bytes_view, load, load_mem, load_val, read_at, read_mem, read_val, same_bytes,
    store, store_mem, store_val, value, value_of, write_at, write_mem, write_val,
};
use crate::types::Span;
use crate::vm::{Builtin, VmView, FUNC_BASE, STACK_BASE, STACK_SIZE, VM};

verus! {

/// Why a thread cannot go on.
#[derive(Debug, Clone, Copy, PartialEq, Eq, Structural)]
pub enum VmError {
    /// A read or write outside the stack and the constant arena.
    BadAddress,
    /// No instruction at the program counter, a jump out of the function's
    /// bytecode, or an instruction that is never to be executed.
    BadCode,
    DivisionByZero,
    /// A call of something that is not a function.
    BadFunction,
    /// A call frame that would start outside the stack.
    FrameOverflow,
}

/// What a step came to.
#[derive(Debug, Clone, Copy, PartialEq, Eq, Structural)]
pub enum StepResult {
    /// An instruction was executed.
    Continue,
    /// The outermost frame has returned.
    Returned,
    /// The function that is to be called has no bytecode. Nothing was executed.
    NeedsCompile(FuncId),
    /// A native function was called, with its frame at the given stack
    /// index. It is left to the caller to run it.
    Native(Builtin, u32),
    /// A floating-point instruction was reached, in the frame at the given
    /// stack index. It is left to the caller to execute it.
    Float(Instr, u32),
    Fault(VmError),
}

/// One activation: a run of the bytecode arena, the index of the next
/// instruction in it, and the stack index that slot 0 stands for.
#[derive(Debug, Clone, Copy, PartialEq, Eq, Structural)]
pub struct Frame {
    pub start: u32,
    pub len: u32,
    pub pc: u32,
    pub base: u32,
}

pub struct VMThread {
    pub stack: Vec<u8>,
    pub frames: Vec<Frame>,
}

pub struct ThreadView {
    pub stack: Seq<u8>,
    pub frames: Seq<Frame>,
}

impl View for VMThread {
    type V = ThreadView;

    open spec fn view(&self) -> ThreadView {
        ThreadView { stack: self.stack@, frames: self.frames@ }
    }
}

pub open spec fn slot_idx(base: u32, s: Slot) -> int {
    base + s.0
}

pub open spec fn stored(o: Option<Seq<u8>>) -> Result<Seq<u8>, VmError> {
    match o {
        Some(s) => Ok(s),
        None => Err(VmError::BadAddress),
    }
}

/// The pointer held in a slot.
pub open spec fn ptr_at(stack: Seq<u8>, base: u32, s: Slot) -> Option<u64> {
    match read_val(stack, slot_idx(base, s), 8) {
        Some(v) => Some(v as u64),
        None => None,
    }
}

pub open spec fn put_ptr(stack: Seq<u8>, base: u32, s: Slot, p: u64) -> Result<Seq<u8>, VmError> {
    stored(write_val(stack, slot_idx(base, s), 8, p as u128))
}

pub open spec fn offset_ptr(p: u64, off: i32) -> u64 {
    p.wrapping_add_signed(off as i64)
}

/// The stack after an arithmetic instruction.
pub open spec fn arith_effect(stack: Seq<u8>, base: u32, instr: Instr) -> Result<Seq<u8>, VmError> {
    match instr {
        Instr::Const(w, d, n) => stored(
            write_val(stack, slot_idx(base, d), w.bytes_spec(), n as u128),
        ),
        Instr::Unary(w, op, d, s) => match read_val(
            stack,
            slot_idx(base, s),
            w.bytes_spec() as int,
        ) {
            Some(a) => stored(write_val(stack, slot_idx(base, d), w.bytes_spec(), alu1(op, w, a))),
            None => Err(VmError::BadAddress),
        },
        Instr::Binary(w, op, d, x, y) => match (
            read_val(stack, slot_idx(base, x), w.bytes_spec() as int),
            read_val(stack, slot_idx(base, y), w.bytes_spec() as int),
        ) {
            (Some(a), Some(b)) => match alu2(op, w, a, b) {
                Some(v) => stored(
                    write_val(
                        stack,
                        slot_idx(base, d),
                        if op.is_test_spec() {
                            1
                        } else {
                            w.bytes_spec()
                        },
                        v,
                    ),
                ),
                None => Err(VmError::DivisionByZero),
            },
            _ => Err(VmError::BadAddress),
        },
        Instr::BoolNot(d, s) => match read_val(stack, slot_idx(base, s), 1) {
            Some(a) => stored(write_val(stack, slot_idx(base, d), 1, flag(a == 0))),
            None => Err(VmError::BadAddress),
        },
        Instr::Widen { to, from, signed, dst, src } => match read_val(
            stack,
            slot_idx(base, src),
            from.bytes_spec() as int,
        ) {
            Some(a) => stored(
                write_val(stack, slot_idx(base, dst), to.bytes_spec(), widen(to, from, signed, a)),
            ),
            None => Err(VmError::BadAddress),
        },
        _ => Err(VmError::BadCode),
    }
}

/// The stack after a move.
pub open spec fn move_effect(consts: Seq<u8>, stack: Seq<u8>, base: u32, instr: Instr) -> Result<
    Seq<u8>,
    VmError,
> {
    match instr {
        Instr::MovSS(n, d, s) => match read_at(stack, slot_idx(base, s), n as int) {
            Some(b) => stored(write_at(stack, slot_idx(base, d), b)),
            None => Err(VmError::BadAddress),
        },
        Instr::MovSP(n, p, s, off) => match (
            ptr_at(stack, base, p),
            read_at(stack, slot_idx(base, s), n as int),
        ) {
            (Some(addr), Some(b)) => stored(write_mem(stack, offset_ptr(addr, off), b)),
            _ => Err(VmError::BadAddress),
        },
        Instr::MovPS(n, d, p, off) => match ptr_at(stack, base, p) {
            Some(addr) => match read_mem(consts, stack, offset_ptr(addr, off), n as int) {
                Some(b) => stored(write_at(stack, slot_idx(base, d), b)),
                None => Err(VmError::BadAddress),
            },
            None => Err(VmError::BadAddress),
        },
        _ => Err(VmError::BadCode),
    }
}

/// The address of a slot.
pub open spec fn slot_address(base: u32, s: Slot) -> u64 {
    (STACK_BASE + base + s.0) as u64
}

/// The stack after an instruction that computes an address.
pub open spec fn pointer_effect(consts: Seq<u8>, stack: Seq<u8>, base: u32, instr: Instr) -> Result<
    Seq<u8>,
    VmError,
> {
    match instr {
        Instr::SlotAddr(d, s) => put_ptr(stack, base, d, slot_address(base, s)),
        Instr::SlotAddrOffset { out, arg, offset } => match ptr_at(stack, base, offset) {
            Some(v) => put_ptr(stack, base, out, slot_address(base, arg).wrapping_add(v)),
            None => Err(VmError::BadAddress),
        },
        Instr::PointerOffset2(d, s, off) => match ptr_at(stack, base, s) {
            Some(p) => put_ptr(stack, base, d, offset_ptr(p, off)),
            None => Err(VmError::BadAddress),
        },
        Instr::PointerOffset3(d, s, off) => match (ptr_at(stack, base, d), ptr_at(stack, base, s)) {
            (Some(i), Some(p)) => put_ptr(stack, base, d, offset_ptr(i.wrapping_add(p), off)),
            _ => Err(VmError::BadAddress),
        },
        Instr::IndexCalc { arg_out, elem_size, elem_count } => match ptr_at(stack, base, arg_out) {
            Some(i) => put_ptr(stack, base, arg_out, i.wrapping_mul(elem_size as u64)),
            None => Err(VmError::BadAddress),
        },
        Instr::IndexCalcDyn { arg_out, elem_size, elem_count } => match ptr_at(
            stack,
            base,
            arg_out,
        ) {
            Some(i) => put_ptr(stack, base, arg_out, i.wrapping_mul(elem_size as u64)),
            None => Err(VmError::BadAddress),
        },
        Instr::IndexCalcEndPointer { out, slice, elem_size } => match (
            ptr_at(stack, base, slice),
            read_val(stack, slot_idx(base, slice) + 8, 8),
        ) {
            (Some(p), Some(n)) => put_ptr(
                stack,
                base,
                out,
                p.wrapping_add((n as u64).wrapping_mul(elem_size as u64)),
            ),
            _ => Err(VmError::BadAddress),
        },
        Instr::VTableFunc(d, vt, index) => match ptr_at(stack, base, vt) {
            Some(p) => match read_mem(
                consts,
                stack,
                p.wrapping_add((index as u64).wrapping_mul(8)),
                8,
            ) {
                Some(b) => put_ptr(stack, base, d, value_of(b) as u64),
                None => Err(VmError::BadAddress),
            },
            None => Err(VmError::BadAddress),
        },
        _ => Err(VmError::BadCode),
    }
}

/// The stack after the copies `i..count` of the element at `at` are written.
pub open spec fn repeat(stack: Seq<u8>, at: int, size: int, count: int, i: int) -> Option<Seq<u8>>
    decreases count - i,
{
    if i >= count {
        Some(stack)
    } else {
        match read_at(stack, at, size) {
            Some(elem) => match write_at(stack, at + i * size, elem) {
                Some(s2) => repeat(s2, at, size, count, i + 1),
                None => None,
            },
            None => None,
        }
    }
}

/// The stack after an instruction that works on a run of memory.
pub open spec fn bulk_effect(consts: Seq<u8>, stack: Seq<u8>, base: u32, instr: Instr) -> Result<
    Seq<u8>,
    VmError,
> {
    match instr {
        Instr::ArrayRepeat { base: b, size, count } => if slot_idx(base, b) + size * count
            > stack.len() {
            Err(VmError::BadAddress)
        } else {
            stored(repeat(stack, slot_idx(base, b), size as int, count as int, 1))
        },
        Instr::MemCompare(res, x, y) => match (
            ptr_at(stack, base, x),
            read_val(stack, slot_idx(base, x) + 8, 8),
            ptr_at(stack, base, y),
            read_val(stack, slot_idx(base, y) + 8, 8),
        ) {
            (Some(pa), Some(la), Some(pb), Some(lb)) => if la != lb {
                stored(write_val(stack, slot_idx(base, res), 1, 0))
            } else {
                match (
                    read_mem(consts, stack, pa, (la as u64) as int),
                    read_mem(consts, stack, pb, (la as u64) as int),
                ) {
                    (Some(a), Some(b)) => stored(
                        write_val(stack, slot_idx(base, res), 1, flag(a == b)),
                    ),
                    _ => Err(VmError::BadAddress),
                }
            },
            _ => Err(VmError::BadAddress),
        },
        _ => Err(VmError::BadCode),
    }
}

pub open spec fn is_arith(instr: Instr) -> bool {
    instr is Const || instr is Unary || instr is Binary || instr is BoolNot || instr is Widen
}

pub open spec fn is_move(instr: Instr) -> bool {
    instr is MovSS || instr is MovSP || instr is MovPS
}

pub open spec fn is_pointer(instr: Instr) -> bool {
    instr is SlotAddr || instr is SlotAddrOffset || instr is PointerOffset2
        || instr is PointerOffset3 || instr is IndexCalc || instr is IndexCalcDyn
        || instr is IndexCalcEndPointer || instr is VTableFunc
}

pub open spec fn is_bulk(instr: Instr) -> bool {
    instr is ArrayRepeat || instr is MemCompare
}

pub open spec fn is_float(instr: Instr) -> bool {
    instr is FloatNeg || instr is FloatBinary || instr is FloatFromFloat || instr is FloatFromInt
        || instr is FloatIntoInt
}

/// The stack after an instruction that only reads and writes memory.
pub open spec fn effect(consts: Seq<u8>, stack: Seq<u8>, base: u32, instr: Instr) -> Result<
    Seq<u8>,
    VmError,
> {
    if is_arith(instr) {
        arith_effect(stack, base, instr)
    } else if is_move(instr) {
        move_effect(consts, stack, base, instr)
    } else if is_pointer(instr) {
        pointer_effect(consts, stack, base, instr)
    } else if is_bulk(instr) {
        bulk_effect(consts, stack, base, instr)
    } else {
        Err(VmError::BadCode)
    }
}

impl ThreadView {
    pub open spec fn current(self) -> Frame {
        self.frames[self.frames.len() - 1]
    }

    /// The thread with the program counter of its current frame set.
    pub open spec fn at_pc(self, pc: u32) -> ThreadView {
        ThreadView {
            frames: self.frames.update(
                self.frames.len() - 1,
                Frame { pc, ..self.current() },
            ),
            ..self
        }
    }
}

/// The instruction that a frame is at.
pub open spec fn fetch(vm: VmView, f: Frame) -> Option<Instr> {
    if f.pc < f.len && f.start + f.pc < vm.code.len() {
        Some(vm.code[f.start + f.pc])
    } else {
        None
    }
}

/// Where a jump by `off` leads: the program counter moves by the signed
/// offset and must stay inside the function.
pub open spec fn jump_target(f: Frame, off: i32) -> Option<u32> {
    if 0 <= f.pc + off < f.len {
        Some((f.pc + off) as u32)
    } else {
        None
    }
}

/// The function that a function pointer stands for.
pub open spec fn func_of_ptr(vm: VmView, p: u64) -> Option<FuncId> {
    if p >= FUNC_BASE && p - FUNC_BASE < vm.functions.len() && p - FUNC_BASE <= u32::MAX {
        Some(FuncId((p - FUNC_BASE) as u32))
    } else {
        None
    }
}

/// Calling a function with its frame at `frame`: a native function is left
/// to the caller, a function without bytecode is reported, any other gets a
/// new frame whose slot 0 is the frame's base.
pub open spec fn call(vm: VmView, th: ThreadView, frame: Slot, func: FuncId) -> (
    ThreadView,
    StepResult,
) {
    let cur = th.current();
    if !vm.has_func(func) {
        (th, StepResult::Fault(VmError::BadFunction))
    } else if cur.base + frame.0 > th.stack.len() || cur.base + frame.0 > u32::MAX {
        (th, StepResult::Fault(VmError::FrameOverflow))
    } else {
        let base = (cur.base + frame.0) as u32;
        match vm.func(func).native {
            Some(b) => (th.at_pc((cur.pc + 1) as u32), StepResult::Native(b, base)),
            None => match vm.func(func).bytecode {
                None => (th, StepResult::NeedsCompile(func)),
                Some(span) => (
                    ThreadView {
                        frames: th.at_pc((cur.pc + 1) as u32).frames.push(
                            Frame { start: span.start, len: span.len, pc: 0, base },
                        ),
                        ..th
                    },
                    StepResult::Continue,
                ),
            },
        }
    }
}

/// A conditional jump: taken when the truth value in `cond` is `when`.
pub open spec fn branch(th: ThreadView, off: i32, cond: Slot, when: bool) -> (
    ThreadView,
    StepResult,
) {
    let cur = th.current();
    match read_val(th.stack, slot_idx(cur.base, cond), 1) {
        None => (th, StepResult::Fault(VmError::BadAddress)),
        Some(c) => if (c != 0) == when {
            match jump_target(cur, off) {
                Some(t) => (th.at_pc(t), StepResult::Continue),
                None => (th, StepResult::Fault(VmError::BadCode)),
            }
        } else {
            (th.at_pc((cur.pc + 1) as u32), StepResult::Continue)
        },
    }
}

/// One step of a thread: the instruction at the program counter of the
/// current frame is executed.
pub open spec fn step(vm: VmView, th: ThreadView) -> (ThreadView, StepResult) {
    if th.frames.len() == 0 {
        (th, StepResult::Fault(VmError::BadCode))
    } else {
        let cur = th.current();
        match fetch(vm, cur) {
            None => (th, StepResult::Fault(VmError::BadCode)),
            Some(instr) => match instr {
                Instr::Jump(off) => match jump_target(cur, off) {
                    Some(t) => (th.at_pc(t), StepResult::Continue),
                    None => (th, StepResult::Fault(VmError::BadCode)),
                },
                Instr::JumpF(off, c) => branch(th, off, c, false),
                Instr::JumpT(off, c) => branch(th, off, c, true),
                Instr::Call(frame, func) => call(vm, th, frame, func),
                Instr::CallPtr { frame, func_ptr } => match ptr_at(th.stack, cur.base, func_ptr) {
                    None => (th, StepResult::Fault(VmError::BadAddress)),
                    Some(p) => match func_of_ptr(vm, p) {
                        Some(f) => call(vm, th, frame, f),
                        None => (th, StepResult::Fault(VmError::BadFunction)),
                    },
                },
                Instr::Return => (
                    ThreadView { frames: th.frames.drop_last(), ..th },
                    if th.frames.len() == 1 {
                        StepResult::Returned
                    } else {
                        StepResult::Continue
                    },
                ),
                Instr::Bad => (th, StepResult::Fault(VmError::BadCode)),
                Instr::Skipped => (th, StepResult::Fault(VmError::BadCode)),
                _ => if is_float(instr) {
                    (th.at_pc((cur.pc + 1) as u32), StepResult::Float(instr, cur.base))
                } else {
                    match effect(vm.constants, th.stack, cur.base, instr) {
                        Ok(stack) => (
                            ThreadView { stack, ..th }.at_pc((cur.pc + 1) as u32),
                            StepResult::Continue,
                        ),
                        Err(e) => (th, StepResult::Fault(e)),
                    }
                },
            },
        }
    }
}


/// The outcome of an instruction's effect: the stack afterwards, or the fault.
pub open spec fn effect_view(r: Result<(), VmError>, stack: Seq<u8>) -> Result<Seq<u8>, VmError> {
    match r {
        Ok(_) => Ok(stack),
        Err(e) => Err(e),
    }
}

fn index_of(base: u32, s: Slot) -> (r: u64)
    ensures
        r == slot_idx(base, s),
{
    base as u64 + s.0 as u64
}

fn get_ptr(stack: &Vec<u8>, base: u32, s: Slot) -> (r: Option<u64>)
    ensures
        r == ptr_at(stack@, base, s),
{
    match load_val(stack, index_of(base, s), 8) {
        Some(v) => Some(v as u64),
        None => None,
    }
}

fn set_val(stack: &mut Vec<u8>, base: u32, s: Slot, n: u32, v: u128) -> (r: Result<(), VmError>)
    ensures
        effect_view(r, final(stack)@) == stored(write_val(old(stack)@, slot_idx(base, s), n, v)),
        r is Err ==> final(stack)@ == old(stack)@,
{
    if store_val(stack, index_of(base, s), n, v) {
        Ok(())
    } else {
        Err(VmError::BadAddress)
    }
}

fn set_bytes(stack: &mut Vec<u8>, base: u32, s: Slot, b: &Vec<u8>) -> (r: Result<(), VmError>)
    ensures
        effect_view(r, final(stack)@) == stored(write_at(old(stack)@, slot_idx(base, s), b@)),
        r is Err ==> final(stack)@ == old(stack)@,
{
    if store(stack, index_of(base, s), b) {
        Ok(())
    } else {
        Err(VmError::BadAddress)
    }
}

fn set_ptr(stack: &mut Vec<u8>, base: u32, s: Slot, p: u64) -> (r: Result<(), VmError>)
    ensures
        effect_view(r, final(stack)@) == put_ptr(old(stack)@, base, s, p),
        r is Err ==> final(stack)@ == old(stack)@,
{
    set_val(stack, base, s, 8, p as u128)
}

fn move_ptr(p: u64, off: i32) -> (r: u64)
    ensures
        r == offset_ptr(p, off),
{
    p.wrapping_add_signed(off as i64)
}

fn run_arith(stack: &mut Vec<u8>, base: u32, instr: Instr) -> (r: Result<(), VmError>)
    ensures
        effect_view(r, final(stack)@) == arith_effect(old(stack)@, base, instr),
        r is Err ==> final(stack)@ == old(stack)@,
{
    match instr {
        Instr::Const(w, d, n) => set_val(stack, base, d, w.bytes(), n as u128),
        Instr::Unary(w, op, d, s) => match load_val(stack, index_of(base, s), w.bytes() as u64) {
            Some(a) => set_val(stack, base, d, w.bytes(), compute_unary(op, w, a)),
            None => Err(VmError::BadAddress),
        },
        Instr::Binary(w, op, d, x, y) => {
            let a = load_val(stack, index_of(base, x), w.bytes() as u64);
            let b = load_val(stack, index_of(base, y), w.bytes() as u64);
            match (a, b) {
                (Some(a), Some(b)) => match compute_binary(op, w, a, b) {
                    Some(v) => {
                        let n: u32 = if op.is_test() {
                            1
                        } else {
                            w.bytes()
                        };
                        set_val(stack, base, d, n, v)
                    },
                    None => Err(VmError::DivisionByZero),
                },
                _ => Err(VmError::BadAddress),
            }
        },
        Instr::BoolNot(d, s) => match load_val(stack, index_of(base, s), 1) {
            Some(a) => set_val(stack, base, d, 1, if a == 0 { 1 } else { 0 }),
            None => Err(VmError::BadAddress),
        },
        Instr::Widen { to, from, signed, dst, src } => match load_val(
            stack,
            index_of(base, src),
            from.bytes() as u64,
        ) {
            Some(a) => set_val(stack, base, dst, to.bytes(), compute_widen(to, from, signed, a)),
            None => Err(VmError::BadAddress),
        },
        _ => Err(VmError::BadCode),
    }
}

fn run_move(consts: &Vec<u8>, stack: &mut Vec<u8>, base: u32, instr: Instr) -> (r: Result<
    (),
    VmError,
>)
    ensures
        effect_view(r, final(stack)@) == move_effect(consts@, old(stack)@, base, instr),
        r is Err ==> final(stack)@ == old(stack)@,
{
    match instr {
        Instr::MovSS(n, d, s) => match load(stack, index_of(base, s), n as u64) {
            Some(b) => set_bytes(stack, base, d, &b),
            None => Err(VmError::BadAddress),
        },
        Instr::MovSP(n, p, s, off) => {
            let addr = get_ptr(stack, base, p);
            let b = load(stack, index_of(base, s), n as u64);
            match (addr, b) {
                (Some(addr), Some(b)) => if store_mem(stack, move_ptr(addr, off), &b) {
                    Ok(())
                } else {
                    Err(VmError::BadAddress)
                },
                _ => Err(VmError::BadAddress),
            }
        },
        Instr::MovPS(n, d, p, off) => match get_ptr(stack, base, p) {
            Some(addr) => match load_mem(consts, stack, move_ptr(addr, off), n as u64) {
                Some(b) => set_bytes(stack, base, d, &b),
                None => Err(VmError::BadAddress),
            },
            None => Err(VmError::BadAddress),
        },
        _ => Err(VmError::BadCode),
    }
}

fn address_of(base: u32, s: Slot) -> (r: u64)
    ensures
        r == slot_address(base, s),
{
    STACK_BASE + base as u64 + s.0 as u64
}

fn run_pointer(consts: &Vec<u8>, stack: &mut Vec<u8>, base: u32, instr: Instr) -> (r: Result<
    (),
    VmError,
>)
    ensures
        effect_view(r, final(stack)@) == pointer_effect(consts@, old(stack)@, base, instr),
        r is Err ==> final(stack)@ == old(stack)@,
{
    match instr {
        Instr::SlotAddr(d, s) => set_ptr(stack, base, d, address_of(base, s)),
        Instr::SlotAddrOffset { out, arg, offset } => match get_ptr(stack, base, offset) {
            Some(v) => set_ptr(stack, base, out, address_of(base, arg).wrapping_add(v)),
            None => Err(VmError::BadAddress),
        },
        Instr::PointerOffset2(d, s, off) => match get_ptr(stack, base, s) {
            Some(p) => set_ptr(stack, base, d, move_ptr(p, off)),
            None => Err(VmError::BadAddress),
        },
        Instr::PointerOffset3(d, s, off) => {
            let i = get_ptr(stack, base, d);
            let p = get_ptr(stack, base, s);
            match (i, p) {
                (Some(i), Some(p)) => set_ptr(stack, base, d, move_ptr(i.wrapping_add(p), off)),
                _ => Err(VmError::BadAddress),
            }
        },
        Instr::IndexCalc { arg_out, elem_size, elem_count } => match get_ptr(stack, base, arg_out) {
            Some(i) => set_ptr(stack, base, arg_out, i.wrapping_mul(elem_size as u64)),
            None => Err(VmError::BadAddress),
        },
        Instr::IndexCalcDyn { arg_out, elem_size, elem_count } => match get_ptr(
            stack,
            base,
            arg_out,
        ) {
            Some(i) => set_ptr(stack, base, arg_out, i.wrapping_mul(elem_size as u64)),
            None => Err(VmError::BadAddress),
        },
        Instr::IndexCalcEndPointer { out, slice, elem_size } => {
            let p = get_ptr(stack, base, slice);
            let n = load_val(stack, index_of(base, slice) + 8, 8);
            match (p, n) {
                (Some(p), Some(n)) => set_ptr(
                    stack,
                    base,
                    out,
                    p.wrapping_add((n as u64).wrapping_mul(elem_size as u64)),
                ),
                _ => Err(VmError::BadAddress),
            }
        },
        Instr::VTableFunc(d, vt, index) => match get_ptr(stack, base, vt) {
            Some(p) => match load_mem(
                consts,
                stack,
                p.wrapping_add((index as u64).wrapping_mul(8)),
                8,
            ) {
                Some(b) => set_ptr(stack, base, d, value(&b) as u64),
                None => Err(VmError::BadAddress),
            },
            None => Err(VmError::BadAddress),
        },
        _ => Err(VmError::BadCode),
    }
}

fn run_repeat(stack: &mut Vec<u8>, at: u64, size: u32, count: u32) -> (r: Result<(), VmError>)
    requires
        at + size * count <= old(stack).len(),
        at <= u32::MAX as u64 * 2,
    ensures
        effect_view(r, final(stack)@) == stored(
            repeat(old(stack)@, at as int, size as int, count as int, 1),
        ),
        r is Err ==> final(stack)@ == old(stack)@,
{
    let mut i: u32 = 1;
    if count <= 1 {
        return Ok(());
    }
    while i < count
        invariant
            1 <= i <= count,
            stack.len() == old(stack).len(),
            at + size * count <= stack.len(),
            at <= u32::MAX as u64 * 2,
            repeat(stack@, at as int, size as int, count as int, i as int) == repeat(
                old(stack)@,
                at as int,
                size as int,
                count as int,
                1,
            ),
        decreases count - i,
    {
        assert(i * size + size <= size * count) by (nonlinear_arith)
            requires
                i < count,
                size >= 0,
        ;
        assert(i * size <= 0xffff_ffff * 0xffff_ffff) by (nonlinear_arith)
            requires
                i <= 0xffff_ffff,
                size <= 0xffff_ffff,
        ;
        let elem = load(stack, at, size as u64);
        let elem = match elem {
            Some(e) => e,
            None => {
                assert(false);
                return Err(VmError::BadAddress);
            },
        };
        let ok = store(stack, at + i as u64 * size as u64, &elem);
        assert(ok);
        i += 1;
    }
    Ok(())
}

fn run_bulk(consts: &Vec<u8>, stack: &mut Vec<u8>, base: u32, instr: Instr) -> (r: Result<
    (),
    VmError,
>)
    ensures
        effect_view(r, final(stack)@) == bulk_effect(consts@, old(stack)@, base, instr),
        r is Err ==> final(stack)@ == old(stack)@,
{
    match instr {
        Instr::ArrayRepeat { base: b, size, count } => {
            assert(size * count <= 0xffff_ffff * 0xffff_ffff) by (nonlinear_arith)
                requires
                    size <= 0xffff_ffff,
                    count <= 0xffff_ffff,
            ;
            let total: u128 = index_of(base, b) as u128 + size as u128 * count as u128;
            if total > stack.len() as u128 {
                return Err(VmError::BadAddress);
            }
            run_repeat(stack, index_of(base, b), size, count)
        },
        Instr::MemCompare(res, x, y) => {
            let pa = get_ptr(stack, base, x);
            let la = load_val(stack, index_of(base, x) + 8, 8);
            let pb = get_ptr(stack, base, y);
            let lb = load_val(stack, index_of(base, y) + 8, 8);
            match (pa, la, pb, lb) {
                (Some(pa), Some(la), Some(pb), Some(lb)) => {
                    if la != lb {
                        set_val(stack, base, res, 1, 0)
                    } else {
                        let a = load_mem(consts, stack, pa, la as u64);
                        let b = load_mem(consts, stack, pb, la as u64);
                        match (a, b) {
                            (Some(a), Some(b)) => set_val(
                                stack,
                                base,
                                res,
                                1,
                                if same_bytes(&a, &b) {
                                    1
                                } else {
                                    0
                                },
                            ),
                            _ => Err(VmError::BadAddress),
                        }
                    }
                },
                _ => Err(VmError::BadAddress),
            }
        },
        _ => Err(VmError::BadCode),
    }
}

fn classify(instr: Instr) -> (r: u8)
    ensures
        r == (if is_arith(instr) {
            1u8
        } else if is_move(instr) {
            2u8
        } else if is_pointer(instr) {
            3u8
        } else if is_bulk(instr) {
            4u8
        } else if is_float(instr) {
            5u8
        } else {
            0u8
        }),
{
    match instr {
        Instr::Const(..) | Instr::Unary(..) | Instr::Binary(..) | Instr::BoolNot(..)
        | Instr::Widen { .. } => 1,
        Instr::MovSS(..) | Instr::MovSP(..) | Instr::MovPS(..) => 2,
        Instr::SlotAddr(..) | Instr::SlotAddrOffset { .. } | Instr::PointerOffset2(..)
        | Instr::PointerOffset3(..) | Instr::IndexCalc { .. } | Instr::IndexCalcDyn { .. }
        | Instr::IndexCalcEndPointer { .. } | Instr::VTableFunc(..) => 3,
        Instr::ArrayRepeat { .. } | Instr::MemCompare(..) => 4,
        Instr::FloatNeg(..) | Instr::FloatBinary(..) | Instr::FloatFromFloat { .. }
        | Instr::FloatFromInt { .. } | Instr::FloatIntoInt { .. } => 5,
        _ => 0,
    }
}

/// Executes an instruction that only reads and writes memory.
pub fn run_effect(consts: &Vec<u8>, stack: &mut Vec<u8>, base: u32, instr: Instr) -> (r: Result<
    (),
    VmError,
>)
    ensures
        effect_view(r, final(stack)@) == effect(consts@, old(stack)@, base, instr),
        r is Err ==> final(stack)@ == old(stack)@,
{
    let c = classify(instr);
    if c == 1 {
        run_arith(stack, base, instr)
    } else if c == 2 {
        run_move(consts, stack, base, instr)
    } else if c == 3 {
        run_pointer(consts, stack, base, instr)
    } else if c == 4 {
        run_bulk(consts, stack, base, instr)
    } else {
        Err(VmError::BadCode)
    }
}

impl VMThread {
    /// A thread with a zeroed stack and no frame.
    pub fn new() -> (r: Self)
        ensures
            r@.stack.len() == STACK_SIZE,
            forall|i: int| 0 <= i < STACK_SIZE ==> r@.stack[i] == 0,
            r@.frames.len() == 0,
            r@ == ThreadView::fresh(),
    {
        let mut stack: Vec<u8> = Vec::new();
        let mut i: u32 = 0;
        while i < STACK_SIZE
            invariant
                i <= STACK_SIZE,
                stack@.len() == i,
                forall|k: int| 0 <= k < i ==> stack@[k] == 0,
            decreases STACK_SIZE - i,
        {
            stack.push(0);
            i += 1;
        }
        let th = VMThread { stack, frames: Vec::new() };
        proof {
            assert(th@.stack =~= ThreadView::fresh().stack);
            assert(th@.frames =~= ThreadView::fresh().frames);
        }
        th
    }

    /// Enters a run of the bytecode arena, with slot 0 at `stack_offset`.
    pub fn enter(&mut self, code: Span, stack_offset: u32)
        ensures
            final(self)@ == old(self)@.enter(code, stack_offset),
    {
        self.frames.push(Frame { start: code.start, len: code.len, pc: 0, base: stack_offset });
    }

    /// A copy of `size` bytes of the stack from `offset` on.
    pub fn copy_result(&self, offset: usize, size: usize) -> (r: Option<Vec<u8>>)
        ensures
            bytes_view(r) == read_at(self@.stack, offset as int, size as int),
    {
        load(&self.stack, offset as u64, size as u64)
    }

    /// Writes bytes to the stack from `offset` on. Nothing is written
    /// where they do not all fit.
    pub fn write_bytes(&mut self, offset: usize, bytes: &Vec<u8>) -> (ok: bool)
        ensures
            final(self)@.frames == old(self)@.frames,
            ok ==> write_at(old(self)@.stack, offset as int, bytes@) == Some(final(self)@.stack),
            !ok ==> write_at(old(self)@.stack, offset as int, bytes@) is None && final(self)@
                == old(self)@,
    {
        store(&mut self.stack, offset as u64, bytes)
    }

    /// The pointer held in a slot of the outermost frame.
    pub fn copy_ptr(&self, slot: Slot) -> (r: Option<u64>)
        ensures
            r == ptr_at(self@.stack, 0, slot),
    {
        get_ptr(&self.stack, 0, slot)
    }

    fn set_pc(&mut self, pc: u32)
        requires
            old(self).frames.len() > 0,
        ensures
            final(self)@ == old(self)@.at_pc(pc),
    {
        let n: usize = self.frames.len();
        let mut f = self.frames[n - 1];
        f.pc = pc;
        self.frames.set(n - 1, f);
    }

    fn jump(&mut self, off: i32) -> (r: StepResult)
        requires
            old(self).frames.len() > 0,
        ensures
            (final(self)@, r) == (match jump_target(old(self)@.current(), off) {
                Some(t) => (old(self)@.at_pc(t), StepResult::Continue),
                None => (old(self)@, StepResult::Fault(VmError::BadCode)),
            }),
    {
        let f = self.frames[self.frames.len() - 1];
        let t: i64 = f.pc as i64 + off as i64;
        if 0 <= t && t < f.len as i64 {
            self.set_pc(t as u32);
            StepResult::Continue
        } else {
            StepResult::Fault(VmError::BadCode)
        }
    }

    fn branch(&mut self, off: i32, cond: Slot, when: bool) -> (r: StepResult)
        requires
            old(self).frames.len() > 0,
            old(self)@.current().pc < u32::MAX,
        ensures
            (final(self)@, r) == branch(old(self)@, off, cond, when),
    {
        let f = self.frames[self.frames.len() - 1];
        match load_val(&self.stack, index_of(f.base, cond), 1) {
            None => StepResult::Fault(VmError::BadAddress),
            Some(c) => if (c != 0) == when {
                self.jump(off)
            } else {
                self.set_pc(f.pc + 1);
                StepResult::Continue
            },
        }
    }

    fn enter_call(&mut self, vm: &VM, frame: Slot, func: FuncId) -> (r: StepResult)
        requires
            old(self).frames.len() > 0,
            old(self)@.current().pc < u32::MAX,
        ensures
            (final(self)@, r) == call(vm@, old(self)@, frame, func),
    {
        let cur = self.frames[self.frames.len() - 1];
        if (func.0 as usize) >= vm.functions.len() {
            return StepResult::Fault(VmError::BadFunction);
        }
        let base: u64 = cur.base as u64 + frame.0 as u64;
        if base > self.stack.len() as u64 || base > u32::MAX as u64 {
            return StepResult::Fault(VmError::FrameOverflow);
        }
        let f = vm.functions[func.0 as usize];
        match f.native {
            Some(b) => {
                self.set_pc(cur.pc + 1);
                StepResult::Native(b, base as u32)
            },
            None => match f.bytecode {
                None => StepResult::NeedsCompile(func),
                Some(span) => {
                    self.set_pc(cur.pc + 1);
                    self.frames.push(
                        Frame { start: span.start, len: span.len, pc: 0, base: base as u32 },
                    );
                    StepResult::Continue
                },
            },
        }
    }

    /// Executes the instruction at the program counter of the current frame.
    pub fn step(&mut self, vm: &VM) -> (r: StepResult)
        ensures
            (final(self)@, r) == step(vm@, old(self)@),
    {
        let n: usize = self.frames.len();
        if n == 0 {
            return StepResult::Fault(VmError::BadCode);
        }
        let cur = self.frames[n - 1];
        if cur.pc >= cur.len || cur.start as u64 + cur.pc as u64 >= vm.code.len() as u64 {
            return StepResult::Fault(VmError::BadCode);
        }
        let at: u64 = cur.start as u64 + cur.pc as u64;
        let instr = vm.code[at as usize];
        match instr {
            Instr::Jump(off) => self.jump(off),
            Instr::JumpF(off, c) => self.branch(off, c, false),
            Instr::JumpT(off, c) => self.branch(off, c, true),
            Instr::Call(frame, func) => self.enter_call(vm, frame, func),
            Instr::CallPtr { frame, func_ptr } => match get_ptr(&self.stack, cur.base, func_ptr) {
                None => StepResult::Fault(VmError::BadAddress),
                Some(p) => {
                    if p >= FUNC_BASE && p - FUNC_BASE < vm.functions.len() as u64 && p - FUNC_BASE
                        <= u32::MAX as u64 {
                        self.enter_call(vm, frame, FuncId((p - FUNC_BASE) as u32))
                    } else {
                        StepResult::Fault(VmError::BadFunction)
                    }
                },
            },
            Instr::Return => {
                self.frames.pop();
                if n == 1 {
                    StepResult::Returned
                } else {
                    StepResult::Continue
                }
            },
            Instr::Bad => StepResult::Fault(VmError::BadCode),
            Instr::Skipped => StepResult::Fault(VmError::BadCode),
            _ => {
                if classify(instr) == 5 {
                    self.set_pc(cur.pc + 1);
                    StepResult::Float(instr, cur.base)
                } else {
                    match run_effect(&vm.constants, &mut self.stack, cur.base, instr) {
                        Ok(_) => {
                            self.set_pc(cur.pc + 1);
                            StepResult::Continue
                        },
                        Err(e) => StepResult::Fault(e),
                    }
                }
            },
        }
    }
}

} // verus!
