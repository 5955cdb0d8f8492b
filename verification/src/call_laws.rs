//! Laws of calls and returns: where the value of a function is found.

use vstd::prelude::*;
use crate::instr::{FuncId, Instr, Slot};
use crate::lowering::Env;
use crate::machine::{fetch, slot_idx, step, Frame, StepResult, ThreadView};
use crate::memory::read_at;
use crate::vm::VmView;

verus! {

/// Whether `code` is what lowering the root expression of the function to
/// slot 0 gives, from the state that the prologue leaves, with a `Return`
/// behind it, and `after` the state of the machine's tables then.
pub open spec fn is_body_then_return(
    vm: VmView,
    env: Env,
    depth: nat,
    after: VmView,
    code: Seq<Instr>,
) -> bool {
    match vm.prologue(env, depth) {
        Ok((s5, _)) => match s5.lower_expr(env, env.ir.root_expr, Some(Slot(0)), depth) {
            Ok((s6, _)) => code == s6.c.out.push(Instr::Return) && after == s6.vm,
            Err(_) => false,
        },
        Err(_) => false,
    }
}

/// The bytecode of a function is the lowering of its root expression to
/// slot 0 and then a `Return`: nothing follows the body but the return.
pub proof fn lemma_compile_ends_in_return(vm: VmView, env: Env, depth: nat)
    ensures
        match vm.compile(env, depth) {
            Ok((after, code)) => code.len() > 0 && code.last() == Instr::Return
                && is_body_then_return(vm, env, depth, after, code),
            Err(_) => true,
        },
{
}

/// A call gives the callee a frame whose slot 0 is the frame slot of the
/// call, and a `Return` changes no byte of the stack. So when the callee
/// returns, whatever happened in between, the caller goes on behind the
/// call, and what it finds in the frame slot is what the callee's slot 0
/// held at the `Return`.
///
/// `th` is the thread at the call, `later` the thread at the callee's
/// `Return`: the frames below the callee's are those that the call left,
/// and the callee's frame has kept its base.
pub proof fn lemma_return_hands_over_slot_0(
    vm: VmView,
    th: ThreadView,
    frame: Slot,
    func: FuncId,
    later: ThreadView,
    n: int,
)
    requires
        th.frames.len() > 0,
        fetch(vm, th.current()) == Some(Instr::Call(frame, func)),
        step(vm, th).1 == StepResult::Continue,
        later.frames.len() == step(vm, th).0.frames.len(),
        later.frames.drop_last() == step(vm, th).0.frames.drop_last(),
        later.current().base == step(vm, th).0.current().base,
        fetch(vm, later.current()) == Some(Instr::Return),
    ensures
        step(vm, later).1 == StepResult::Continue,
        step(vm, later).0.stack == later.stack,
        step(vm, later).0.frames == th.frames.update(
            th.frames.len() - 1,
            Frame { pc: (th.current().pc + 1) as u32, ..th.current() },
        ),
        read_at(step(vm, later).0.stack, slot_idx(step(vm, later).0.current().base, frame), n)
            == read_at(later.stack, slot_idx(later.current().base, Slot(0)), n),
{
    let called = step(vm, th).0;
    let at_next = th.at_pc((th.current().pc + 1) as u32);
    assert(called.frames == at_next.frames.push(called.current()));
    assert(called.frames.drop_last() =~= at_next.frames);
}

} // verus!
