//! The lowering of expressions, as a function of the compiler's state.

use vstd::prelude::*;
use crate::abi::POINTER_SIZE;
use crate::error::CompileError;
use crate::ids::ItemRef;
use crate::instr::{Instr, Slot, Width};
use crate::ir::{
    BinaryOp, Block, ConstStatus, ExprId, ExprKind, FnTrait, LogicOp, LoopId, MatchArm,
    MatchGuard, PatternId, PointerCast, Stmt, UnaryOp, UpVar,
};
use crate::items::{FunctionAbi, ItemKind};
use crate::layout::LAYOUT_DEPTH;
use crate::lowering::{
    bool_layout, find_loop, shift, shift_place, word_layout, BreakInfo, CompilerView, Env,
    LoopInfo, Patch, St, R,
};
use crate::select::{
    binary_spec, cast_spec, copy_from_ptr_spec, copy_spec, copy_to_ptr_spec, literal_spec,
    unary_spec,
};
use crate::stack::{Place, PointerKind};
use crate::types::{ArrayLen, Layout, ListId, Mutability, Sub, Type, TypeKind};
use crate::vm::{VmView, CONST_BASE, FUNC_BASE};

verus! {

pub open spec fn or_dummy(dst: Option<Slot>) -> Slot {
    match dst {
        Some(d) => d,
        None => Slot(0),
    }
}

/// The target of a reference or raw pointer type.
pub open spec fn ref_target(k: TypeKind) -> Result<Type, CompileError> {
    match k {
        TypeKind::Ref(t, _) => Ok(t),
        TypeKind::Ptr(t, _) => Ok(t),
        _ => Err(CompileError::BadOperand),
    }
}

/// The one index at which two substitution lists differ, from `i` on.
pub open spec fn changed_index(a: Seq<Sub>, b: Seq<Sub>, i: int, found: Option<int>) -> Result<
    int,
    CompileError,
>
    decreases a.len() - i,
{
    if i < 0 || i >= a.len() || i >= b.len() {
        match found {
            Some(k) => Ok(k),
            None => Err(CompileError::Unsupported),
        }
    } else if a[i] != b[i] {
        if found is Some {
            Err(CompileError::Unsupported)
        } else {
            changed_index(a, b, i + 1, Some(i))
        }
    } else {
        changed_index(a, b, i + 1, found)
    }
}

/// The breaks that belong to a loop, and the others, from index `i` on.
pub open spec fn split_breaks(
    breaks: Seq<BreakInfo>,
    id: LoopId,
    i: int,
    mine: Seq<u32>,
    rest: Seq<BreakInfo>,
) -> (Seq<u32>, Seq<BreakInfo>)
    decreases breaks.len() - i,
{
    if i < 0 || i >= breaks.len() {
        (mine, rest)
    } else if breaks[i].loop_id == id {
        split_breaks(breaks, id, i + 1, mine.push(breaks[i].break_index), rest)
    } else {
        split_breaks(breaks, id, i + 1, mine, rest.push(breaks[i]))
    }
}

/// Whether a field index is among the fields given, from index `i` on.
pub open spec fn field_given(fields: Seq<(u32, ExprId)>, n: u32, i: int) -> bool
    decreases fields.len() - i,
{
    if i < 0 || i >= fields.len() {
        false
    } else {
        fields[i].0 == n || field_given(fields, n, i + 1)
    }
}

impl St {
    /// The layout of a type that needs no substitution.
    pub open spec fn layout_of(self, env: Env, ty: Type) -> R<Layout> {
        match self.vm.types.layout(env.prog, ty, LAYOUT_DEPTH as nat) {
            (tv, Ok(l)) => Ok((self.with_types(tv), l)),
            (_, Err(e)) => Err(e),
        }
    }

    /// The destination of an expression's value: the one given, or a new
    /// slot of the expression's layout. Also the type and the layout.
    pub open spec fn dest(self, env: Env, id: ExprId, dst: Option<Slot>) -> R<(Slot, Type, Layout)> {
        match self.expr_layout(env, id) {
            Ok((s, (ty, l))) => match s.dst_or_alloc(dst, l) {
                Ok((s2, d)) => Ok((s2, (d, ty, l))),
                Err(e) => Err(e),
            },
            Err(e) => Err(e),
        }
    }

    /// The kind of an expression's type, with the substitutions applied.
    pub open spec fn expr_kind(self, env: Env, id: ExprId) -> R<(TypeKind, Layout)> {
        match self.expr_layout(env, id) {
            Ok((s, (ty, l))) => match s.kind(ty) {
                Ok(k) => Ok((s, (k, l))),
                Err(e) => Err(e),
            },
            Err(e) => Err(e),
        }
    }

    /// Lowering an expression: the value is written to `dst` if one is
    /// given, and `dst` returned; else the slot that holds it is returned.
    pub open spec fn lower_expr(self, env: Env, id: ExprId, dst: Option<Slot>, depth: nat) -> R<Slot>
        decreases depth, 0int, id.0, 5int, 0int,
    {
        match env.is_place(id) {
            Err(e) => Err(e),
            Ok(true) => match self.place_of(env, id, depth) {
                Ok((s, place)) => match s.expr_layout(env, id) {
                    Ok((s2, (_, l))) => s2.load_place(place, dst, l),
                    Err(e) => Err(e),
                },
                Err(e) => Err(e),
            },
            Ok(false) => self.lower_value(env, id, dst, depth),
        }
    }

    /// The place of an expression: its own if it denotes one, else the slot
    /// that its value was lowered to.
    pub open spec fn expr_to_place(self, env: Env, id: ExprId, depth: nat) -> R<Place>
        decreases depth, 0int, id.0, 6int, 0int,
    {
        match env.is_place(id) {
            Err(e) => Err(e),
            Ok(true) => self.place_of(env, id, depth),
            Ok(false) => match self.lower_expr(env, id, None, depth) {
                Ok((s, slot)) => Ok((s, Place::Local(slot))),
                Err(e) => Err(e),
            },
        }
    }

    /// Lowering a value expression.
    pub open spec fn lower_value(self, env: Env, id: ExprId, dst: Option<Slot>, depth: nat) -> R<
        Slot,
    >
        decreases depth, 0int, id.0, 4int, 0int,
    {
        if !env.has_expr(id) {
            Err(CompileError::BadExpr)
        } else {
            match env.expr(id).kind {
                ExprKind::Dummy(v) => if v.0 < id.0 {
                    self.lower_expr(env, v, dst, depth)
                } else {
                    Err(CompileError::BadExpr)
                },
                ExprKind::Block(b) => self.lower_block(env, id, b, dst, depth),
                ExprKind::LiteralValue(n) => match self.dest(env, id, dst) {
                    Ok((s, (d, _, l))) => match s.emit_ok(literal_spec(n, l.size, d)) {
                        Ok(s2) => Ok((s2, d)),
                        Err(e) => Err(e),
                    },
                    Err(e) => Err(e),
                },
                ExprKind::LiteralVoid => Ok((self, or_dummy(dst))),
                ExprKind::LiteralBytes(bytes) => self.lower_bytes(env, id, bytes@, dst),
                ExprKind::Unary(op, arg) => self.lower_unary(env, id, op, arg, dst, depth),
                ExprKind::Cast(src) => self.lower_cast(env, id, src, dst, depth),
                ExprKind::Binary(op, lhs, rhs) => self.lower_binary(
                    env,
                    id,
                    op,
                    lhs,
                    rhs,
                    dst,
                    depth,
                ),
                ExprKind::Assign(lhs, rhs) => self.lower_assign(env, id, lhs, rhs, dst, depth),
                ExprKind::AssignOp(op, lhs, rhs) => self.lower_assign_op(
                    env,
                    id,
                    op,
                    lhs,
                    rhs,
                    dst,
                    depth,
                ),
                ExprKind::Call { func, args } => self.lower_call(env, id, func, args@, dst, depth),
                ExprKind::If { cond, then, else_opt } => self.lower_if(
                    env,
                    id,
                    cond,
                    then,
                    else_opt,
                    dst,
                    depth,
                ),
                ExprKind::LogicOp(op, lhs, rhs) => self.lower_logic(
                    env,
                    id,
                    op,
                    lhs,
                    rhs,
                    dst,
                    depth,
                ),
                ExprKind::Loop(body, loop_id) => self.lower_loop(env, id, body, loop_id, dst, depth),
                ExprKind::Break { loop_id, value } => self.lower_break(
                    env,
                    id,
                    loop_id,
                    value,
                    dst,
                    depth,
                ),
                ExprKind::Continue { loop_id } => match find_loop(self.c.loops, loop_id, 0) {
                    Some(info) => match self.jump_back(info.start_index) {
                        Ok(s) => Ok((s, or_dummy(dst))),
                        Err(e) => Err(e),
                    },
                    None => Err(CompileError::NoLoop),
                },
                ExprKind::Return(value) => self.lower_return(env, id, value, dst, depth),
                ExprKind::Ref(arg, m) => self.lower_ref(env, id, arg, m, dst, depth),
                ExprKind::PointerCast(src, cast) => self.lower_pointer_cast(
                    env,
                    id,
                    src,
                    cast,
                    dst,
                    depth,
                ),
                ExprKind::Tuple(fields) => match self.dest(env, id, dst) {
                    Ok((s, (d, _, l))) => match s.lower_fields(env, id, fields@, l, d, 0, depth) {
                        Ok((s2, _)) => Ok((s2, d)),
                        Err(e) => Err(e),
                    },
                    Err(e) => Err(e),
                },
                ExprKind::Array(fields) => self.lower_array(env, id, fields@, dst, depth),
                ExprKind::ArrayRepeat(arg, len) => self.lower_array_repeat(
                    env,
                    id,
                    arg,
                    len,
                    dst,
                    depth,
                ),
                ExprKind::Adt { variant, fields, rest } => self.lower_adt(
                    env,
                    id,
                    variant,
                    fields@,
                    rest,
                    dst,
                    depth,
                ),
                ExprKind::Let { pattern, init } => match self.dest(env, id, dst) {
                    Ok((s, (d, _, _))) => match s.match_pattern_expr(
                        env,
                        pattern,
                        Some(init),
                        Some(d),
                        id,
                        depth,
                    ) {
                        Ok((s2, _)) => Ok((s2, d)),
                        Err(e) => Err(e),
                    },
                    Err(e) => Err(e),
                },
                ExprKind::Match { arg, arms } => self.lower_match(env, id, arg, arms@, dst, depth),
                ExprKind::ConstParam(n) => match self.dest(env, id, dst) {
                    Ok((s, (d, _, l))) => if n < env.subs.len() {
                        match env.subs[n as int] {
                            Sub::Const(v) => match s.emit_ok(literal_spec(v, l.size, d)) {
                                Ok(s2) => Ok((s2, d)),
                                Err(e) => Err(e),
                            },
                            _ => Err(CompileError::MissingSub),
                        }
                    } else {
                        Err(CompileError::MissingSub)
                    },
                    Err(e) => Err(e),
                },
                _ => Err(CompileError::BadExpr),
            }
        }
    }

    /// A bytes literal: the bytes go to the constant arena, and the slot
    /// gets their address and their number.
    pub open spec fn lower_bytes(self, env: Env, id: ExprId, bytes: Seq<u8>, dst: Option<Slot>) -> R<
        Slot,
    > {
        match self.dest(env, id, dst) {
            Ok((s, (d, _, _))) => match s.vm.alloc_constant(bytes) {
                (vm, Ok(off)) => match shift(d, POINTER_SIZE as int) {
                    Ok(d2) => Ok(
                        (
                            St { vm, ..s }.emit_word((CONST_BASE + off) as i128, d).emit_word(
                                bytes.len() as i128,
                                d2,
                            ),
                            d,
                        ),
                    ),
                    Err(e) => Err(e),
                },
                (_, Err(e)) => Err(e),
            },
            Err(e) => Err(e),
        }
    }

    pub open spec fn lower_unary(
        self,
        env: Env,
        id: ExprId,
        op: UnaryOp,
        arg: ExprId,
        dst: Option<Slot>,
        depth: nat,
    ) -> R<Slot>
        decreases depth, 0int, id.0, 3int, 0int,
    {
        if arg.0 >= id.0 {
            Err(CompileError::BadExpr)
        } else {
            match self.dest(env, id, dst) {
                Ok((s, (d, _, _))) => match s.lower_expr(env, arg, None, depth) {
                    Ok((s1, a)) => match s1.expr_kind(env, arg) {
                        Ok((s2, (k, _))) => match s2.emit_ok(unary_spec(op, k, d, a)) {
                            Ok(s3) => Ok((s3, d)),
                            Err(e) => Err(e),
                        },
                        Err(e) => Err(e),
                    },
                    Err(e) => Err(e),
                },
                Err(e) => Err(e),
            }
        }
    }

    /// A cast: a copy where the types are the same, else a conversion.
    pub open spec fn lower_cast(
        self,
        env: Env,
        id: ExprId,
        src: ExprId,
        dst: Option<Slot>,
        depth: nat,
    ) -> R<Slot>
        decreases depth, 0int, id.0, 3int, 0int,
    {
        if src.0 >= id.0 {
            Err(CompileError::BadExpr)
        } else {
            match self.dest(env, id, dst) {
                Ok((s, (d, dst_ty, l))) => match s.lower_expr(env, src, None, depth) {
                    Ok((s1, a)) => match s1.expr_layout(env, src) {
                        Ok((s2, (src_ty, _))) => if src_ty == dst_ty {
                            match s2.emit_some(copy_spec(d, a, l.size)) {
                                Ok(s3) => Ok((s3, d)),
                                Err(e) => Err(e),
                            }
                        } else {
                            match (s2.kind(src_ty), s2.kind(dst_ty)) {
                                (Ok(ks), Ok(kd)) => match s2.emit_ok(cast_spec(ks, kd, d, a)) {
                                    Ok(s3) => Ok((s3, d)),
                                    Err(e) => Err(e),
                                },
                                _ => Err(CompileError::BadType),
                            }
                        },
                        Err(e) => Err(e),
                    },
                    Err(e) => Err(e),
                },
                Err(e) => Err(e),
            }
        }
    }

    pub open spec fn lower_binary(
        self,
        env: Env,
        id: ExprId,
        op: BinaryOp,
        lhs: ExprId,
        rhs: ExprId,
        dst: Option<Slot>,
        depth: nat,
    ) -> R<Slot>
        decreases depth, 0int, id.0, 3int, 0int,
    {
        if lhs.0 >= id.0 || rhs.0 >= id.0 {
            Err(CompileError::BadExpr)
        } else {
            match self.dest(env, id, dst) {
                Ok((s, (d, _, _))) => match s.lower_expr(env, lhs, None, depth) {
                    Ok((s1, a)) => match s1.lower_expr(env, rhs, None, depth) {
                        Ok((s2, b)) => match s2.expr_kind(env, lhs) {
                            Ok((s3, (k, _))) => match binary_spec(op, k) {
                                Ok((ctor, swap)) => Ok(
                                    (s3.emit(ctor.make_swapped(swap, d, a, b)), d),
                                ),
                                Err(e) => Err(e),
                            },
                            Err(e) => Err(e),
                        },
                        Err(e) => Err(e),
                    },
                    Err(e) => Err(e),
                },
                Err(e) => Err(e),
            }
        }
    }

    /// Writing the value in `from` to a place.
    pub open spec fn store_place(self, place: Place, from: Slot, size: u32) -> St {
        match place {
            Place::Local(slot) => self.emit_opt(copy_spec(slot, from, size)),
            Place::Ptr(p, off, _) => self.emit_opt(copy_to_ptr_spec(p, from, size, off)),
        }
    }

    pub open spec fn lower_assign(
        self,
        env: Env,
        id: ExprId,
        lhs: ExprId,
        rhs: ExprId,
        dst: Option<Slot>,
        depth: nat,
    ) -> R<Slot>
        decreases depth, 0int, id.0, 3int, 0int,
    {
        if lhs.0 >= id.0 || rhs.0 >= id.0 {
            Err(CompileError::BadExpr)
        } else {
            match self.lower_expr(env, rhs, None, depth) {
                Ok((s1, r)) => match s1.expr_layout(env, lhs) {
                    Ok((s2, (_, l))) => match l.size_spec() {
                        Ok(size) => match s2.expr_to_place(env, lhs, depth) {
                            Ok((s3, place)) => Ok((s3.store_place(place, r, size), or_dummy(dst))),
                            Err(e) => Err(e),
                        },
                        Err(e) => Err(e),
                    },
                    Err(e) => Err(e),
                },
                Err(e) => Err(e),
            }
        }
    }

    /// An operator assignment: on a local in place; behind a pointer by
    /// loading, operating and storing.
    pub open spec fn lower_assign_op(
        self,
        env: Env,
        id: ExprId,
        op: BinaryOp,
        lhs: ExprId,
        rhs: ExprId,
        dst: Option<Slot>,
        depth: nat,
    ) -> R<Slot>
        decreases depth, 0int, id.0, 3int, 0int,
    {
        if lhs.0 >= id.0 || rhs.0 >= id.0 {
            Err(CompileError::BadExpr)
        } else {
            match self.lower_expr(env, rhs, None, depth) {
                Ok((s1, r)) => match s1.expr_kind(env, lhs) {
                    Ok((s2, (k, l))) => match (binary_spec(op, k), l.size_spec()) {
                        (Ok((ctor, swap)), Ok(size)) => if swap {
                            Err(CompileError::Unsupported)
                        } else {
                            match s2.expr_to_place(env, lhs, depth) {
                                Ok((s3, Place::Local(slot))) => Ok(
                                    (s3.emit(ctor.make_spec(slot, slot, r)), or_dummy(dst)),
                                ),
                                Ok((s3, Place::Ptr(p, off, _))) => match s3.alloc_slot(l) {
                                    Ok((s4, tmp)) => match s4.emit_some(
                                        copy_from_ptr_spec(tmp, p, size, off),
                                    ) {
                                        Ok(s5) => match s5.emit(
                                            ctor.make_spec(tmp, tmp, r),
                                        ).emit_some(copy_to_ptr_spec(p, tmp, size, off)) {
                                            Ok(s6) => Ok((s6, or_dummy(dst))),
                                            Err(e) => Err(e),
                                        },
                                        Err(e) => Err(e),
                                    },
                                    Err(e) => Err(e),
                                },
                                Err(e) => Err(e),
                            }
                        },
                        (Err(e), _) => Err(e),
                        (_, Err(e)) => Err(e),
                    },
                    Err(e) => Err(e),
                },
                Err(e) => Err(e),
            }
        }
    }

    /// Evaluating the arguments of a call from index `i` on, each into a
    /// slot of its own; the first may be given.
    pub open spec fn lower_args(
        self,
        env: Env,
        id: ExprId,
        args: Seq<ExprId>,
        first: Option<Slot>,
        i: int,
        acc: Seq<Slot>,
        depth: nat,
    ) -> R<Seq<Slot>>
        decreases depth, 0int, id.0, 2int, args.len() - i,
    {
        if i < 0 || i >= args.len() {
            Ok((self, acc))
        } else if i == 0 && first is Some {
            self.lower_args(env, id, args, first, i + 1, acc.push(first->Some_0), depth)
        } else if args[i].0 >= id.0 {
            Err(CompileError::BadExpr)
        } else {
            match self.lower_expr(env, args[i], None, depth) {
                Ok((s, slot)) => s.lower_args(env, id, args, first, i + 1, acc.push(slot), depth),
                Err(e) => Err(e),
            }
        }
    }

    /// Allocating the argument slots of a call frame from index `i` on, and
    /// copying each argument to its slot.
    pub open spec fn place_args(
        self,
        env: Env,
        args: Seq<ExprId>,
        first: Option<Slot>,
        src: Seq<Slot>,
        i: int,
    ) -> Result<St, CompileError>
        decreases args.len() - i,
    {
        if i < 0 || i >= args.len() || i >= src.len() {
            Ok(self)
        } else {
            match (if i == 0 && first is Some {
                Ok((self, word_layout()))
            } else {
                match self.expr_layout(env, args[i]) {
                    Ok((s, (_, l))) => Ok((s, l)),
                    Err(e) => Err(e),
                }
            }) {
                Ok((s, l)) => match s.alloc_slot(l) {
                    Ok((s2, slot)) => s2.emit_opt(copy_spec(slot, src[i], l.size)).place_args(
                        env,
                        args,
                        first,
                        src,
                        i + 1,
                    ),
                    Err(e) => Err(e),
                },
                Err(e) => Err(e),
            }
        }
    }

    /// Building a call frame: the arguments are evaluated, then the return
    /// slot is allocated at a 16-byte boundary, the argument slots after it
    /// in declaration order, and the arguments copied there. Yields the
    /// frame's base.
    pub open spec fn build_call(
        self,
        env: Env,
        id: ExprId,
        res: Layout,
        args: Seq<ExprId>,
        first: Option<Slot>,
        depth: nat,
    ) -> R<Slot>
        decreases depth, 0int, id.0, 3int, 0int,
    {
        match self.lower_args(env, id, args, first, 0, Seq::empty(), depth) {
            Ok((s, src)) => match s.c.stack.align_for_call() {
                Ok((stack, base)) => match s.with_stack(stack).alloc_slot(res) {
                    Ok((s2, ret)) => if ret != base {
                        Err(CompileError::BadCall)
                    } else {
                        match s2.place_args(env, args, first, src, 0) {
                            Ok(s3) => Ok((s3, ret)),
                            Err(e) => Err(e),
                        }
                    },
                    Err(e) => Err(e),
                },
                Err(e) => Err(e),
            },
            Err(e) => Err(e),
        }
    }

    /// A call. A function item is called directly, through its
    /// monomorphic handle; a member of a trait declaration with a dynamic
    /// receiver through the vtable of the receiver; a function pointer
    /// through the pointer.
    pub open spec fn lower_call(
        self,
        env: Env,
        id: ExprId,
        func: ExprId,
        args: Seq<ExprId>,
        dst: Option<Slot>,
        depth: nat,
    ) -> R<Slot>
        decreases depth, 0int, id.0, 3int, 2int,
    {
        if func.0 >= id.0 {
            Err(CompileError::BadExpr)
        } else {
            match self.expr_layout(env, id) {
                Ok((s0, (_, l))) => match (s0.expr_kind(env, func), l.size_spec()) {
                    (Ok((s, (TypeKind::FunctionDef(item, sl), _))), Ok(size)) => {
                        if !s.vm.types.has_list(sl) || !env.prog.has_item(item) {
                            Err(CompileError::BadCall)
                        } else if env.prog.item_at(item).kind matches ItemKind::Function {
                            extern_name: Some(_),
                            ..
                        } {
                            Err(CompileError::Intrinsic)
                        } else {
                            let subs = s.vm.types.list(sl);
                            match s.vm.types.function_dyn(env.prog, item, subs) {
                                Some(index) => match s.lower_virtual(
                                    env,
                                    id,
                                    l,
                                    args,
                                    index,
                                    depth,
                                ) {
                                    Ok((s2, ret)) => Ok(s2.deliver(dst, ret, size)),
                                    Err(e) => Err(e),
                                },
                                None => match s.build_call(env, id, l, args, None, depth) {
                                    Ok((s2, ret)) => match s2.vm.func_mono(env.prog, item, subs) {
                                        (vm, Ok(f)) => Ok(
                                            St { vm, ..s2 }.emit(Instr::Call(ret, f)).deliver(
                                                dst,
                                                ret,
                                                size,
                                            ),
                                        ),
                                        (_, Err(e)) => Err(e),
                                    },
                                    Err(e) => Err(e),
                                },
                            }
                        }
                    },
                    (Ok((s, (TypeKind::FunctionPointer(_, _), _))), Ok(size)) => match s.build_call(
                        env,
                        id,
                        l,
                        args,
                        None,
                        depth,
                    ) {
                        Ok((s2, ret)) => match s2.lower_expr(env, func, None, depth) {
                            Ok((s3, f)) => Ok(
                                s3.emit(Instr::CallPtr { frame: ret, func_ptr: f }).deliver(
                                    dst,
                                    ret,
                                    size,
                                ),
                            ),
                            Err(e) => Err(e),
                        },
                        Err(e) => Err(e),
                    },
                    (Ok(_), Ok(_)) => Err(CompileError::BadCall),
                    (Err(e), _) => Err(e),
                    (_, Err(e)) => Err(e),
                },
                Err(e) => Err(e),
            }
        }
    }

    /// A call through a vtable: the function's address is fetched from the
    /// vtable of the fat receiver, and the thin receiver is passed on.
    pub open spec fn lower_virtual(
        self,
        env: Env,
        id: ExprId,
        res: Layout,
        args: Seq<ExprId>,
        index: u32,
        depth: nat,
    ) -> R<Slot>
        decreases depth, 0int, id.0, 3int, 1int,
    {
        if args.len() == 0 || args[0].0 >= id.0 {
            Err(CompileError::BadCall)
        } else {
            match self.expr_layout(env, args[0]) {
                Ok((s, (_, al))) => if al.size_spec() != Ok::<u32, CompileError>(
                    (2 * POINTER_SIZE) as u32,
                ) {
                    Err(CompileError::BadCall)
                } else {
                    match s.lower_expr(env, args[0], None, depth) {
                        Ok((s1, receiver)) => match (
                            shift(receiver, POINTER_SIZE as int),
                            s1.alloc_slot(word_layout()),
                        ) {
                            (Ok(vt), Ok((s2, fp))) => match s2.emit(
                                Instr::VTableFunc(fp, vt, index),
                            ).build_call(env, id, res, args, Some(receiver), depth) {
                                Ok((s3, ret)) => Ok(
                                    (s3.emit(Instr::CallPtr { frame: ret, func_ptr: fp }), ret),
                                ),
                                Err(e) => Err(e),
                            },
                            (Err(e), _) => Err(e),
                            (_, Err(e)) => Err(e),
                        },
                        Err(e) => Err(e),
                    }
                },
                Err(e) => Err(e),
            }
        }
    }

    /// A conditional: the condition, a jump over `then` if it is false,
    /// `then`, and with an `else` a jump over it and the `else`, both
    /// branches writing to the same destination.
    pub open spec fn lower_if(
        self,
        env: Env,
        id: ExprId,
        cond: ExprId,
        then: ExprId,
        else_opt: Option<ExprId>,
        dst: Option<Slot>,
        depth: nat,
    ) -> R<Slot>
        decreases depth, 0int, id.0, 3int, 0int,
    {
        if cond.0 >= id.0 || then.0 >= id.0 {
            Err(CompileError::BadExpr)
        } else {
            match self.lower_expr(env, cond, None, depth) {
                Ok((s, c)) => match s.skip() {
                    Ok((s1, j1)) => match else_opt {
                        Some(els) => if els.0 >= id.0 {
                            Err(CompileError::BadExpr)
                        } else {
                            match s1.dest(env, id, dst) {
                                Ok((s2, (d, _, _))) => match s2.lower_expr(
                                    env,
                                    then,
                                    Some(d),
                                    depth,
                                ) {
                                    Ok((s3, _)) => match s3.skip() {
                                        Ok((s4, j2)) => match s4.patch(j1, Patch::JumpF(c)) {
                                            Ok(s5) => match s5.lower_expr(
                                                env,
                                                els,
                                                Some(d),
                                                depth,
                                            ) {
                                                Ok((s6, _)) => match s6.patch(j2, Patch::Jump) {
                                                    Ok(s7) => Ok((s7, d)),
                                                    Err(e) => Err(e),
                                                },
                                                Err(e) => Err(e),
                                            },
                                            Err(e) => Err(e),
                                        },
                                        Err(e) => Err(e),
                                    },
                                    Err(e) => Err(e),
                                },
                                Err(e) => Err(e),
                            }
                        },
                        None => match s1.lower_expr(env, then, dst, depth) {
                            Ok((s2, res)) => match s2.patch(j1, Patch::JumpF(c)) {
                                Ok(s3) => Ok((s3, res)),
                                Err(e) => Err(e),
                            },
                            Err(e) => Err(e),
                        },
                    },
                    Err(e) => Err(e),
                },
                Err(e) => Err(e),
            }
        }
    }

    /// A short-circuit operator: the left operand goes to the destination;
    /// the right one is skipped where the left decides.
    pub open spec fn lower_logic(
        self,
        env: Env,
        id: ExprId,
        op: LogicOp,
        lhs: ExprId,
        rhs: ExprId,
        dst: Option<Slot>,
        depth: nat,
    ) -> R<Slot>
        decreases depth, 0int, id.0, 3int, 0int,
    {
        if lhs.0 >= id.0 || rhs.0 >= id.0 {
            Err(CompileError::BadExpr)
        } else {
            match self.dest(env, id, dst) {
                Ok((s, (d, _, _))) => match s.lower_expr(env, lhs, Some(d), depth) {
                    Ok((s1, _)) => match s1.skip() {
                        Ok((s2, j)) => match s2.lower_expr(env, rhs, Some(d), depth) {
                            Ok((s3, _)) => match s3.patch(
                                j,
                                match op {
                                    LogicOp::And => Patch::JumpF(d),
                                    LogicOp::Or => Patch::JumpT(d),
                                },
                            ) {
                                Ok(s4) => Ok((s4, d)),
                                Err(e) => Err(e),
                            },
                            Err(e) => Err(e),
                        },
                        Err(e) => Err(e),
                    },
                    Err(e) => Err(e),
                },
                Err(e) => Err(e),
            }
        }
    }

    /// A loop: the body, a jump back to its start, and the jumps of the
    /// loop's breaks, which lead behind the loop.
    pub open spec fn lower_loop(
        self,
        env: Env,
        id: ExprId,
        body: Block,
        loop_id: LoopId,
        dst: Option<Slot>,
        depth: nat,
    ) -> R<Slot>
        decreases depth, 0int, id.0, 3int, 0int,
    {
        match self.dest(env, id, dst) {
            Ok((s, (d, _, _))) => if s.c.out.len() > u32::MAX {
                Err(CompileError::TooLarge)
            } else {
                let start = s.c.out.len() as u32;
                let s1 = St {
                    c: CompilerView {
                        loops: s.c.loops.push(
                            LoopInfo { loop_id, result_slot: d, start_index: start },
                        ),
                        ..s.c
                    },
                    ..s
                };
                match s1.lower_block(env, id, body, Some(Slot(0)), depth) {
                    Ok((s2, _)) => if s2.c.loops.len() != s1.c.loops.len() {
                        Err(CompileError::NoLoop)
                    } else {
                        match (St {
                            c: CompilerView { loops: s2.c.loops.drop_last(), ..s2.c },
                            ..s2
                        }).jump_back(start) {
                            Ok(s3) => {
                                let (mine, rest) = split_breaks(
                                    s3.c.breaks,
                                    loop_id,
                                    0,
                                    Seq::empty(),
                                    Seq::empty(),
                                );
                                match (St {
                                    c: CompilerView { breaks: rest, ..s3.c },
                                    ..s3
                                }).patch_all(mine, Patch::Jump, 0) {
                                    Ok(s4) => Ok((s4, d)),
                                    Err(e) => Err(e),
                                }
                            },
                            Err(e) => Err(e),
                        }
                    },
                    Err(e) => Err(e),
                }
            },
            Err(e) => Err(e),
        }
    }

    /// A break: the value goes to the loop's result slot; the jump is
    /// patched in when the loop is complete.
    pub open spec fn lower_break(
        self,
        env: Env,
        id: ExprId,
        loop_id: LoopId,
        value: Option<ExprId>,
        dst: Option<Slot>,
        depth: nat,
    ) -> R<Slot>
        decreases depth, 0int, id.0, 3int, 0int,
    {
        match (match value {
            Some(v) => if v.0 >= id.0 {
                Err(CompileError::BadExpr)
            } else {
                match find_loop(self.c.loops, loop_id, 0) {
                    Some(info) => match self.lower_expr(env, v, Some(info.result_slot), depth) {
                        Ok((s, _)) => Ok(s),
                        Err(e) => Err(e),
                    },
                    None => Err(CompileError::NoLoop),
                }
            },
            None => Ok(self),
        }) {
            Ok(s) => match s.skip() {
                Ok((s1, j)) => Ok(
                    (
                        St {
                            c: CompilerView {
                                breaks: s1.c.breaks.push(BreakInfo { loop_id, break_index: j }),
                                ..s1.c
                            },
                            ..s1
                        },
                        or_dummy(dst),
                    ),
                ),
                Err(e) => Err(e),
            },
            Err(e) => Err(e),
        }
    }

    /// A return: the value goes to slot 0.
    pub open spec fn lower_return(
        self,
        env: Env,
        id: ExprId,
        value: Option<ExprId>,
        dst: Option<Slot>,
        depth: nat,
    ) -> R<Slot>
        decreases depth, 0int, id.0, 3int, 0int,
    {
        match value {
            Some(v) => if v.0 >= id.0 {
                Err(CompileError::BadExpr)
            } else {
                match self.lower_expr(env, v, Some(Slot(0)), depth) {
                    Ok((s, _)) => Ok((s.emit(Instr::Return), or_dummy(dst))),
                    Err(e) => Err(e),
                }
            },
            None => Ok((self.emit(Instr::Return), or_dummy(dst))),
        }
    }

    /// A reference. A promotable operand is evaluated ahead of time and the
    /// address of the constant written; else the address of the operand's
    /// place is taken: of a slot, or of a pointer moved by the offset. A
    /// mutable reference into a constant allocation refers to a copy.
    pub open spec fn lower_ref(
        self,
        env: Env,
        id: ExprId,
        arg: ExprId,
        m: Mutability,
        dst: Option<Slot>,
        depth: nat,
    ) -> R<Slot>
        decreases depth, 0int, id.0, 3int, 0int,
    {
        if arg.0 >= id.0 || !env.has_expr(arg) {
            Err(CompileError::BadExpr)
        } else if m == Mutability::Const && env.expr(arg).const_status == ConstStatus::CanPromote {
            if depth == 0 {
                Err(CompileError::DepthExceeded)
            } else {
                match self.const_promote(env, arg, (depth - 1) as nat) {
                    Ok((s, (ptr, meta))) => match s.dest(env, id, dst) {
                        Ok((s1, (d, _, _))) => match meta {
                            Some(mv) => match shift(d, POINTER_SIZE as int) {
                                Ok(d2) => Ok(
                                    (s1.emit_word(ptr as i128, d).emit_word(mv as i128, d2), d),
                                ),
                                Err(e) => Err(e),
                            },
                            None => Ok((s1.emit_word(ptr as i128, d), d)),
                        },
                        Err(e) => Err(e),
                    },
                    Err(e) => Err(e),
                }
            }
        } else {
            match self.expr_to_place(env, arg, depth) {
                Ok((s, Place::Local(src))) => match s.dest(env, id, dst) {
                    Ok((s1, (d, _, _))) => Ok((s1.emit(Instr::SlotAddr(d, src)), d)),
                    Err(e) => Err(e),
                },
                Ok((s, Place::Ptr(src, off, kind))) => s.ref_behind(
                    env,
                    id,
                    arg,
                    m == Mutability::Mut && env.expr(arg).const_alloc,
                    src,
                    off,
                    kind,
                    dst,
                ),
                Err(e) => Err(e),
            }
        }
    }

    /// A reference to a place behind a pointer: the pointer moved by the
    /// offset, with the metadata of a fat pointer copied along; of a
    /// constant allocation that is to be written, a copy.
    pub open spec fn ref_behind(
        self,
        env: Env,
        id: ExprId,
        arg: ExprId,
        copy_alloc: bool,
        src: Slot,
        off: i32,
        kind: PointerKind,
        dst: Option<Slot>,
    ) -> R<Slot> {
        match self.expr_layout(env, id) {
            Ok((s1, (_, l))) => match (l.size_spec(), s1.expr_layout(env, arg)) {
                (Ok(size), Ok((s2, (_, al)))) => {
                    let fat = size == 2 * POINTER_SIZE;
                    if copy_alloc {
                        if fat {
                            Err(CompileError::Unsupported)
                        } else {
                            match (al.size_spec(), s2.alloc_slot(al)) {
                                (Ok(asize), Ok((s3, copy))) => match s3.emit_opt(
                                    copy_from_ptr_spec(copy, src, asize, off),
                                ).dst_or_alloc(dst, l) {
                                    Ok((s4, d)) => Ok((s4.emit(Instr::SlotAddr(d, copy)), d)),
                                    Err(e) => Err(e),
                                },
                                (Err(e), _) => Err(e),
                                (_, Err(e)) => Err(e),
                            }
                        }
                    } else if fat && kind != PointerKind::Fat {
                        Err(CompileError::Unsupported)
                    } else if off != 0 {
                        match s2.dst_or_alloc(dst, l) {
                            Ok((s3, d)) => {
                                let s4 = s3.emit(Instr::PointerOffset2(d, src, off));
                                if fat {
                                    match (
                                        shift(d, POINTER_SIZE as int),
                                        shift(src, POINTER_SIZE as int),
                                    ) {
                                        (Ok(d2), Ok(src2)) => Ok(
                                            (s4.emit(Instr::MovSS(POINTER_SIZE, d2, src2)), d),
                                        ),
                                        _ => Err(CompileError::TooLarge),
                                    }
                                } else {
                                    Ok((s4, d))
                                }
                            },
                            Err(e) => Err(e),
                        }
                    } else {
                        match dst {
                            Some(d) => match s2.emit_some(copy_spec(d, src, size)) {
                                Ok(s3) => Ok((s3, d)),
                                Err(e) => Err(e),
                            },
                            None => Ok((s2, src)),
                        }
                    }
                },
                (Err(e), _) => Err(e),
                (_, Err(e)) => Err(e),
            },
            Err(e) => Err(e),
        }
    }

    /// The metadata word of an unsizing cast: the length for an array
    /// that becomes a slice, the address of the vtable for a type that
    /// becomes a trait object. `None` where a trait object stays one.
    pub open spec fn unsize_meta(self, env: Env, src: Type, dst: Type, depth: nat) -> R<
        Option<i128>,
    > {
        match (self.kind(src), self.kind(dst)) {
            (Ok(TypeKind::Array(_, ArrayLen::Known(n))), Ok(TypeKind::Slice(_))) => Ok(
                (self, Some(n as i128)),
            ),
            (Ok(ks), Ok(TypeKind::Dynamic { primary_trait, is_dyn_star })) => match primary_trait {
                Some(t) => if is_dyn_star {
                    Err(CompileError::Unsupported)
                } else {
                    match ks {
                        TypeKind::Dynamic { primary_trait: p2, is_dyn_star: d2 } => if d2
                            == is_dyn_star && p2 == primary_trait {
                            Ok((self, None))
                        } else {
                            Err(CompileError::Unsupported)
                        },
                        _ => if depth == 0 {
                            Err(CompileError::DepthExceeded)
                        } else {
                            match self.vtable(env, t, src, (depth - 1) as nat) {
                                Ok((s, addr)) => Ok((s, Some(addr as i128))),
                                Err(e) => Err(e),
                            }
                        },
                    }
                },
                None => Err(CompileError::Unsupported),
            },
            (Ok(_), Ok(_)) => Err(CompileError::Unsupported),
            _ => Err(CompileError::BadType),
        }
    }

    /// The types that an unsizing cast turns into each other: the targets
    /// of the two pointers, or, where those are the same struct with
    /// substitutions that differ in one place, the types in that place.
    pub open spec fn unsize_pair(self, src: Type, dst: Type) -> Result<(Type, Type), CompileError> {
        match (self.kind(src), self.kind(dst)) {
            (Ok(TypeKind::Adt(a, la)), Ok(TypeKind::Adt(b, lb))) => if a != b
                || !self.vm.types.has_list(la) || !self.vm.types.has_list(lb) {
                Err(CompileError::Unsupported)
            } else {
                match changed_index(self.vm.types.list(la), self.vm.types.list(lb), 0, None) {
                    Ok(k) => match (self.vm.types.list(la)[k], self.vm.types.list(lb)[k]) {
                        (Sub::Type(x), Sub::Type(y)) => Ok((x, y)),
                        _ => Err(CompileError::Unsupported),
                    },
                    Err(e) => Err(e),
                }
            },
            (Ok(_), Ok(_)) => Ok((src, dst)),
            _ => Err(CompileError::BadType),
        }
    }

    pub open spec fn lower_pointer_cast(
        self,
        env: Env,
        id: ExprId,
        src: ExprId,
        cast: PointerCast,
        dst: Option<Slot>,
        depth: nat,
    ) -> R<Slot>
        decreases depth, 0int, id.0, 3int, 0int,
    {
        if src.0 >= id.0 {
            Err(CompileError::BadExpr)
        } else {
            match cast {
                PointerCast::UnSize => self.lower_unsize(env, id, src, dst, depth),
                PointerCast::MutToConstPointer => match self.dest(env, id, dst) {
                    Ok((s, (d, _, l))) => match s.lower_expr(env, src, None, depth) {
                        Ok((s1, a)) => match s1.emit_some(copy_spec(d, a, l.size)) {
                            Ok(s2) => Ok((s2, d)),
                            Err(e) => Err(e),
                        },
                        Err(e) => Err(e),
                    },
                    Err(e) => Err(e),
                },
                PointerCast::ReifyFnPointer => self.lower_reify(env, id, src, dst),
                PointerCast::ClosureFnPointer => self.lower_closure_ptr(env, id, src, dst),
                _ => Err(CompileError::Unsupported),
            }
        }
    }

    /// The address of a function item's monomorphic function as a value.
    pub open spec fn lower_reify(self, env: Env, id: ExprId, src: ExprId, dst: Option<Slot>) -> R<
        Slot,
    > {
        match self.expr_kind(env, src) {
            Ok((s, (TypeKind::FunctionDef(item, sl), _))) => if !s.vm.types.has_list(sl) {
                Err(CompileError::BadType)
            } else {
                match s.dest(env, id, dst) {
                    Ok((s1, (d, _, _))) => match s1.vm.func_mono(
                        env.prog,
                        item,
                        s.vm.types.list(sl),
                    ) {
                        (vm, Ok(f)) => Ok(
                            (St { vm, ..s1 }.emit_word((FUNC_BASE + f.0) as i128, d), d),
                        ),
                        (_, Err(e)) => Err(e),
                    },
                    Err(e) => Err(e),
                }
            },
            Ok(_) => Err(CompileError::BadOperand),
            Err(e) => Err(e),
        }
    }

    /// The address of a closure's monomorphic function as a value.
    pub open spec fn lower_closure_ptr(self, env: Env, id: ExprId, src: ExprId, dst: Option<Slot>) -> R<
        Slot,
    > {
        match self.expr_kind(env, src) {
            Ok((s, (TypeKind::Closure(c, _, sl), _))) => if !s.vm.types.has_list(sl) {
                Err(CompileError::BadType)
            } else {
                match s.dest(env, id, dst) {
                    Ok((s1, (d, _, _))) => match s1.vm.closure_mono(
                        env.prog,
                        c,
                        s.vm.types.list(sl),
                    ) {
                        (vm, Ok(f)) => Ok(
                            (St { vm, ..s1 }.emit_word((FUNC_BASE + f.0) as i128, d), d),
                        ),
                        (_, Err(e)) => Err(e),
                    },
                    Err(e) => Err(e),
                }
            },
            Ok(_) => Err(CompileError::BadOperand),
            Err(e) => Err(e),
        }
    }

    /// An unsizing cast: the thin pointer is copied and the metadata word
    /// written behind it.
    pub open spec fn lower_unsize(
        self,
        env: Env,
        id: ExprId,
        src: ExprId,
        dst: Option<Slot>,
        depth: nat,
    ) -> R<Slot>
        decreases depth, 0int, id.0, 2int, 0int,
    {
        if src.0 >= id.0 {
            Err(CompileError::BadExpr)
        } else {
            match self.expr_kind(env, id) {
                Ok((s, (kd, l))) => if l.size_spec() != Ok::<u32, CompileError>(
                    (2 * POINTER_SIZE) as u32,
                ) {
                    Err(CompileError::BadOperand)
                } else {
                    match s.expr_kind(env, src) {
                        Ok((s1, (ks, _))) => match (ref_target(ks), ref_target(kd)) {
                            (Ok(st), Ok(dt)) => match s1.unsize_pair(st, dt) {
                                Ok((a, b)) => match s1.unsize_meta(env, a, b, depth) {
                                    Ok((s2, meta)) => match s2.dst_or_alloc(dst, l) {
                                        Ok((s3, d)) => match s3.lower_expr(
                                            env,
                                            src,
                                            None,
                                            depth,
                                        ) {
                                            Ok((s4, a_slot)) => match meta {
                                                None => Ok(
                                                    (
                                                        s4.emit(
                                                            Instr::MovSS(
                                                                (2 * POINTER_SIZE) as u32,
                                                                d,
                                                                a_slot,
                                                            ),
                                                        ),
                                                        d,
                                                    ),
                                                ),
                                                Some(mv) => match shift(d, POINTER_SIZE as int) {
                                                    Ok(d2) => Ok(
                                                        (
                                                            s4.emit(
                                                                Instr::MovSS(
                                                                    POINTER_SIZE,
                                                                    d,
                                                                    a_slot,
                                                                ),
                                                            ).emit_word(mv, d2),
                                                            d,
                                                        ),
                                                    ),
                                                    Err(e) => Err(e),
                                                },
                                            },
                                            Err(e) => Err(e),
                                        },
                                        Err(e) => Err(e),
                                    },
                                    Err(e) => Err(e),
                                },
                                Err(e) => Err(e),
                            },
                            (Err(e), _) => Err(e),
                            (_, Err(e)) => Err(e),
                        },
                        Err(e) => Err(e),
                    }
                },
                Err(e) => Err(e),
            }
        }
    }

    /// Lowering the fields of a tuple from index `i` on, each to its offset.
    pub open spec fn lower_fields(
        self,
        env: Env,
        id: ExprId,
        fields: Seq<ExprId>,
        l: Layout,
        d: Slot,
        i: int,
        depth: nat,
    ) -> R<()>
        decreases depth, 0int, id.0, 2int, fields.len() - i,
    {
        if i < 0 || i >= fields.len() {
            Ok((self, ()))
        } else if fields[i].0 >= id.0 || i > u32::MAX {
            Err(CompileError::BadExpr)
        } else {
            match self.vm.types.field_offset(l, 0, i as u32) {
                Ok(off) => match shift(d, off as int) {
                    Ok(slot) => match self.lower_expr(env, fields[i], Some(slot), depth) {
                        Ok((s, _)) => s.lower_fields(env, id, fields, l, d, i + 1, depth),
                        Err(e) => Err(e),
                    },
                    Err(e) => Err(e),
                },
                Err(e) => Err(e),
            }
        }
    }

    /// Lowering the elements of an array from index `i` on, each to its place.
    pub open spec fn lower_elems(
        self,
        env: Env,
        id: ExprId,
        fields: Seq<ExprId>,
        size: u32,
        d: Slot,
        i: int,
        depth: nat,
    ) -> R<()>
        decreases depth, 0int, id.0, 2int, fields.len() - i,
    {
        if i < 0 || i >= fields.len() {
            Ok((self, ()))
        } else if fields[i].0 >= id.0 {
            Err(CompileError::BadExpr)
        } else {
            match shift(d, i * size) {
                Ok(slot) => match self.lower_expr(env, fields[i], Some(slot), depth) {
                    Ok((s, _)) => s.lower_elems(env, id, fields, size, d, i + 1, depth),
                    Err(e) => Err(e),
                },
                Err(e) => Err(e),
            }
        }
    }

    pub open spec fn lower_array(
        self,
        env: Env,
        id: ExprId,
        fields: Seq<ExprId>,
        dst: Option<Slot>,
        depth: nat,
    ) -> R<Slot>
        decreases depth, 0int, id.0, 3int, 0int,
    {
        match self.expr_kind(env, id) {
            Ok((s, (TypeKind::Array(elem, _), l))) => match s.layout_of(env, elem) {
                Ok((s1, el)) => match (el.size_spec(), s1.dst_or_alloc(dst, l)) {
                    (Ok(size), Ok((s2, d))) => match s2.lower_elems(
                        env,
                        id,
                        fields,
                        size,
                        d,
                        0,
                        depth,
                    ) {
                        Ok((s3, _)) => Ok((s3, d)),
                        Err(e) => Err(e),
                    },
                    (Err(e), _) => Err(e),
                    (_, Err(e)) => Err(e),
                },
                Err(e) => Err(e),
            },
            Ok(_) => Err(CompileError::BadExpr),
            Err(e) => Err(e),
        }
    }

    pub open spec fn lower_array_repeat(
        self,
        env: Env,
        id: ExprId,
        arg: ExprId,
        len: ArrayLen,
        dst: Option<Slot>,
        depth: nat,
    ) -> R<Slot>
        decreases depth, 0int, id.0, 3int, 0int,
    {
        if arg.0 >= id.0 {
            Err(CompileError::BadExpr)
        } else {
            match crate::types::TypesView::sub_len(len, env.subs) {
                Ok(ArrayLen::Known(count)) => match self.expr_layout(env, arg) {
                    Ok((s, (_, al))) => match (al.size_spec(), s.dest(env, id, dst)) {
                        (Ok(size), Ok((s1, (d, _, _)))) => match s1.lower_expr(
                            env,
                            arg,
                            Some(d),
                            depth,
                        ) {
                            Ok((s2, _)) => Ok(
                                (s2.emit(Instr::ArrayRepeat { base: d, size, count }), d),
                            ),
                            Err(e) => Err(e),
                        },
                        (Err(e), _) => Err(e),
                        (_, Err(e)) => Err(e),
                    },
                    Err(e) => Err(e),
                },
                Ok(_) => Err(CompileError::NotConcrete),
                Err(e) => Err(e),
            }
        }
    }

    /// Lowering the fields given for a struct or variant, from index `i` on.
    pub open spec fn lower_adt_fields(
        self,
        env: Env,
        id: ExprId,
        variant: u32,
        fields: Seq<(u32, ExprId)>,
        l: Layout,
        d: Slot,
        i: int,
        depth: nat,
    ) -> R<()>
        decreases depth, 0int, id.0, 2int, fields.len() - i,
    {
        if i < 0 || i >= fields.len() {
            Ok((self, ()))
        } else if fields[i].1.0 >= id.0 {
            Err(CompileError::BadExpr)
        } else {
            match self.vm.types.field_offset(l, variant, fields[i].0) {
                Ok(off) => match shift(d, off as int) {
                    Ok(slot) => match self.lower_expr(env, fields[i].1, Some(slot), depth) {
                        Ok((s, _)) => s.lower_adt_fields(
                            env,
                            id,
                            variant,
                            fields,
                            l,
                            d,
                            i + 1,
                            depth,
                        ),
                        Err(e) => Err(e),
                    },
                    Err(e) => Err(e),
                },
                Err(e) => Err(e),
            }
        }
    }

    /// Copying the fields that were not given from the rest value, field by
    /// field from index `n` on, each with the size of its type.
    pub open spec fn copy_rest(
        self,
        env: Env,
        variant: u32,
        given: Seq<(u32, ExprId)>,
        field_tys: Seq<Type>,
        adt_subs: Seq<Sub>,
        l: Layout,
        d: Slot,
        rest: Slot,
        n: int,
    ) -> Result<St, CompileError>
        decreases field_tys.len() - n,
    {
        if n < 0 || n >= field_tys.len() {
            Ok(self)
        } else if n > u32::MAX {
            Err(CompileError::TooLarge)
        } else if field_given(given, n as u32, 0) {
            self.copy_rest(env, variant, given, field_tys, adt_subs, l, d, rest, n + 1)
        } else {
            match self.vm.types.sub(field_tys[n], adt_subs) {
                (tv, Ok(ft)) => match self.with_types(tv).layout_of(env, ft) {
                    Ok((s, fl)) => match (
                        fl.size_spec(),
                        s.vm.types.field_offset(l, variant, n as u32),
                    ) {
                        (Ok(size), Ok(off)) => match (shift(d, off as int), shift(rest, off as int)) {
                            (Ok(to), Ok(from)) => s.emit_opt(copy_spec(to, from, size)).copy_rest(
                                env,
                                variant,
                                given,
                                field_tys,
                                adt_subs,
                                l,
                                d,
                                rest,
                                n + 1,
                            ),
                            _ => Err(CompileError::TooLarge),
                        },
                        (Err(e), _) => Err(e),
                        (_, Err(e)) => Err(e),
                    },
                    Err(e) => Err(e),
                },
                (_, Err(e)) => Err(e),
            }
        }
    }

    /// A struct or enum value: for an enum the discriminant is written
    /// first, then each field given at its offset; the fields not given are
    /// copied from the rest value.
    pub open spec fn lower_adt(
        self,
        env: Env,
        id: ExprId,
        variant: u32,
        fields: Seq<(u32, ExprId)>,
        rest: Option<ExprId>,
        dst: Option<Slot>,
        depth: nat,
    ) -> R<Slot>
        decreases depth, 0int, id.0, 3int, 0int,
    {
        match self.dest(env, id, dst) {
            Ok((s, (d, ty, l))) => {
                let s1 = match (l.discriminant_width(), l.discriminant_spec(variant)) {
                    (Some(w), Some(v)) => s.emit(Instr::Const(w, d, v)),
                    _ => s,
                };
                match s1.lower_adt_fields(env, id, variant, fields, l, d, 0, depth) {
                    Ok((s2, _)) => match rest {
                        None => Ok((s2, d)),
                        Some(r) => if r.0 >= id.0 {
                            Err(CompileError::BadExpr)
                        } else {
                            match s2.expr_layout(env, r) {
                                Ok((s3, (rt, _))) => if rt != ty {
                                    Err(CompileError::BadExpr)
                                } else {
                                    match s3.lower_expr(env, r, None, depth) {
                                        Ok((s4, rs)) => match s4.kind(ty) {
                                            Ok(TypeKind::Adt(item, sl)) => match (
                                                env.prog.adt_of(item),
                                                s4.vm.types.has_list(sl),
                                            ) {
                                                (Ok(info), true) => if variant
                                                    >= info.variant_fields@.len() {
                                                    Err(CompileError::BadExpr)
                                                } else {
                                                    match s4.copy_rest(
                                                        env,
                                                        variant,
                                                        fields,
                                                        info.variant_fields@[variant as int]@,
                                                        s4.vm.types.list(sl),
                                                        l,
                                                        d,
                                                        rs,
                                                        0,
                                                    ) {
                                                        Ok(s5) => Ok((s5, d)),
                                                        Err(e) => Err(e),
                                                    }
                                                },
                                                (Err(e), _) => Err(e),
                                                _ => Err(CompileError::BadType),
                                            },
                                            Ok(_) => Err(CompileError::BadExpr),
                                            Err(e) => Err(e),
                                        },
                                        Err(e) => Err(e),
                                    }
                                },
                                Err(e) => Err(e),
                            }
                        },
                    },
                    Err(e) => Err(e),
                }
            },
            Err(e) => Err(e),
        }
    }

    /// The arms of a match from index `i` on: for each the pattern test, a
    /// jump to the next arm if it fails, the guard with the same, and the
    /// body followed by a gap for the jump past the remaining arms.
    pub open spec fn lower_arms(
        self,
        env: Env,
        id: ExprId,
        arms: Seq<MatchArm>,
        source: Place,
        result: Slot,
        d: Slot,
        i: int,
        gaps: Seq<u32>,
        depth: nat,
    ) -> R<Seq<u32>>
        decreases depth, 0int, id.0, 2int, arms.len() - i,
    {
        if i < 0 || i >= arms.len() {
            Ok((self, gaps))
        } else if arms[i].body.0 >= id.0 {
            Err(CompileError::BadExpr)
        } else {
            match self.match_pattern_place(env, arms[i].pattern, source, Some(result), id, depth) {
                Ok((s, _)) => match s.skip() {
                    Ok((s1, check)) => match (match arms[i].guard {
                        MatchGuard::Unguarded => Ok((s1, None)),
                        MatchGuard::If(g) => if g.0 >= id.0 {
                            Err(CompileError::BadExpr)
                        } else {
                            match s1.lower_expr(env, g, Some(result), depth) {
                                Ok((s2, _)) => match s2.skip() {
                                    Ok((s3, j)) => Ok((s3, Some(j))),
                                    Err(e) => Err(e),
                                },
                                Err(e) => Err(e),
                            }
                        },
                        MatchGuard::IfLet => Err(CompileError::Unsupported),
                    }) {
                        Ok((s4, guard)) => match s4.lower_expr(
                            env,
                            arms[i].body,
                            Some(d),
                            depth,
                        ) {
                            Ok((s5, _)) => match s5.skip() {
                                Ok((s6, gap)) => match s6.patch(check, Patch::JumpF(result)) {
                                    Ok(s7) => match (match guard {
                                        Some(j) => s7.patch(j, Patch::JumpF(result)),
                                        None => Ok(s7),
                                    }) {
                                        Ok(s8) => s8.lower_arms(
                                            env,
                                            id,
                                            arms,
                                            source,
                                            result,
                                            d,
                                            i + 1,
                                            gaps.push(gap),
                                            depth,
                                        ),
                                        Err(e) => Err(e),
                                    },
                                    Err(e) => Err(e),
                                },
                                Err(e) => Err(e),
                            },
                            Err(e) => Err(e),
                        },
                        Err(e) => Err(e),
                    },
                    Err(e) => Err(e),
                },
                Err(e) => Err(e),
            }
        }
    }

    /// A match: a truth value slot for the pattern tests, the arms, and the
    /// jumps from the end of each body past the remaining arms.
    pub open spec fn lower_match(
        self,
        env: Env,
        id: ExprId,
        arg: ExprId,
        arms: Seq<MatchArm>,
        dst: Option<Slot>,
        depth: nat,
    ) -> R<Slot>
        decreases depth, 0int, id.0, 3int, 0int,
    {
        if arg.0 >= id.0 {
            Err(CompileError::BadExpr)
        } else {
            match self.dest(env, id, dst) {
                Ok((s, (d, _, _))) => match s.alloc_slot(bool_layout()) {
                    Ok((s1, result)) => match s1.expr_to_place(env, arg, depth) {
                        Ok((s2, source)) => match s2.lower_arms(
                            env,
                            id,
                            arms,
                            source,
                            result,
                            d,
                            0,
                            Seq::empty(),
                            depth,
                        ) {
                            Ok((s3, gaps)) => match s3.patch_all(gaps, Patch::Jump, 0) {
                                Ok(s4) => Ok((s4, d)),
                                Err(e) => Err(e),
                            },
                            Err(e) => Err(e),
                        },
                        Err(e) => Err(e),
                    },
                    Err(e) => Err(e),
                },
                Err(e) => Err(e),
            }
        }
    }

    /// The statements of a block from index `i` on.
    pub open spec fn lower_stmts(self, env: Env, id: ExprId, stmts: Seq<Stmt>, i: int, depth: nat) -> R<
        (),
    >
        decreases depth, 0int, id.0, 2int, stmts.len() - i,
    {
        if i < 0 || i >= stmts.len() {
            Ok((self, ()))
        } else {
            match stmts[i] {
                Stmt::Let { pattern, init, else_block } => if else_block is Some {
                    Err(CompileError::Unsupported)
                } else {
                    match self.match_pattern_expr(env, pattern, init, None, id, depth) {
                        Ok((s, _)) => s.lower_stmts(env, id, stmts, i + 1, depth),
                        Err(e) => Err(e),
                    }
                },
                Stmt::Expr(e) => if e.0 >= id.0 {
                    Err(CompileError::BadExpr)
                } else {
                    match self.push_scope() {
                        Ok((s, scope)) => match s.lower_expr(env, e, None, depth) {
                            Ok((s1, _)) => match s1.pop_scope(scope) {
                                Ok(s2) => s2.lower_stmts(env, id, stmts, i + 1, depth),
                                Err(e) => Err(e),
                            },
                            Err(e) => Err(e),
                        },
                        Err(e) => Err(e),
                    }
                },
            }
        }
    }

    /// A block: the result's slot is allocated before the block's scope is
    /// entered, so that it outlives what the statements allocate.
    pub open spec fn lower_block(
        self,
        env: Env,
        id: ExprId,
        block: Block,
        dst: Option<Slot>,
        depth: nat,
    ) -> R<Slot>
        decreases depth, 0int, id.0, 2int, block.stmts@.len() + 1,
    {
        match (match (dst, block.result) {
            (Some(d), _) => Ok((self, d)),
            (None, Some(r)) => match self.expr_layout(env, r) {
                Ok((s, (_, l))) => s.alloc_slot(l),
                Err(e) => Err(e),
            },
            (None, None) => Ok((self, Slot(0))),
        }) {
            Ok((s, d)) => match s.push_scope() {
                Ok((s1, scope)) => match s1.lower_stmts(env, id, block.stmts@, 0, depth) {
                    Ok((s2, _)) => match (match block.result {
                        Some(r) => if r.0 >= id.0 {
                            Err(CompileError::BadExpr)
                        } else {
                            match s2.lower_expr(env, r, Some(d), depth) {
                                Ok((s3, _)) => Ok(s3),
                                Err(e) => Err(e),
                            }
                        },
                        None => Ok(s2),
                    }) {
                        Ok(s4) => match s4.pop_scope(scope) {
                            Ok(s5) => Ok((s5, d)),
                            Err(e) => Err(e),
                        },
                        Err(e) => Err(e),
                    },
                    Err(e) => Err(e),
                },
                Err(e) => Err(e),
            },
            Err(e) => Err(e),
        }
    }

    /// The place of a place expression.
    pub open spec fn place_of(self, env: Env, id: ExprId, depth: nat) -> R<Place>
        decreases depth, 0int, id.0, 4int, 0int,
    {
        if !env.has_expr(id) {
            Err(CompileError::BadExpr)
        } else {
            match env.expr(id).kind {
                ExprKind::Dummy(v) => if v.0 < id.0 {
                    self.expr_to_place(env, v, depth)
                } else {
                    Err(CompileError::BadExpr)
                },
                ExprKind::DeRef(arg) => if arg.0 >= id.0 {
                    Err(CompileError::BadExpr)
                } else {
                    match self.expr_layout(env, id) {
                        Ok((s, (ty, _))) => match s.lower_expr(env, arg, None, depth) {
                            Ok((s1, addr)) => Ok(
                                (
                                    s1,
                                    Place::Ptr(
                                        addr,
                                        0,
                                        if s.vm.types.sized(
                                            env.prog,
                                            ty,
                                            crate::layout::SIZED_DEPTH as nat,
                                        ) {
                                            PointerKind::Thin
                                        } else {
                                            PointerKind::Fat
                                        },
                                    ),
                                ),
                            ),
                            Err(e) => Err(e),
                        },
                        Err(e) => Err(e),
                    }
                },
                ExprKind::VarRef(local) => match self.find_local(local) {
                    Ok(slot) => Ok((self, Place::Local(slot))),
                    Err(e) => Err(e),
                },
                ExprKind::UpVar(upvar) => self.upvar_place(env, upvar),
                ExprKind::Field { lhs, variant, field } => if lhs.0 >= id.0 {
                    Err(CompileError::BadExpr)
                } else if variant != 0 {
                    Err(CompileError::Unsupported)
                } else {
                    match self.expr_layout(env, lhs) {
                        Ok((s, (_, l))) => match s.vm.types.field_offset(l, variant, field) {
                            Ok(off) => match s.expr_to_place(env, lhs, depth) {
                                Ok((s1, p)) => match shift_place(p, off as int) {
                                    Ok(q) => Ok((s1, q)),
                                    Err(e) => Err(e),
                                },
                                Err(e) => Err(e),
                            },
                            Err(e) => Err(e),
                        },
                        Err(e) => Err(e),
                    }
                },
                ExprKind::Index { lhs, index } => self.index_place(env, id, lhs, index, depth),
                ExprKind::ConstBlock(ir) => if depth == 0 {
                    Err(CompileError::DepthExceeded)
                } else {
                    match self.const_block(env, *ir, (depth - 1) as nat) {
                        Ok((s, addr)) => s.const_place(addr),
                        Err(e) => Err(e),
                    }
                },
                ExprKind::NamedConst(item, sl) => if depth == 0 {
                    Err(CompileError::DepthExceeded)
                } else {
                    match self.named_const(env, item, sl, (depth - 1) as nat) {
                        Ok((s, addr)) => s.const_place(addr),
                        Err(e) => Err(e),
                    }
                },
                ExprKind::Static(item) => if depth == 0 {
                    Err(CompileError::DepthExceeded)
                } else {
                    match self.static_value(env, item, (depth - 1) as nat) {
                        Ok((s, addr)) => s.const_place(addr),
                        Err(e) => Err(e),
                    }
                },
                _ => Err(CompileError::BadExpr),
            }
        }
    }

    /// The place of a constant at an address: a new slot gets the address.
    pub open spec fn const_place(self, addr: u64) -> R<Place> {
        match self.alloc_slot(word_layout()) {
            Ok((s, slot)) => Ok(
                (s.emit_word(addr as i128, slot), Place::Ptr(slot, 0, PointerKind::Thin)),
            ),
            Err(e) => Err(e),
        }
    }

    /// The place of a captured variable. `Fn` and `FnMut` reach the
    /// environment through the reference in the self slot; `FnOnce` has it
    /// in the self slot. A variable captured by reference is behind the
    /// pointer in its field.
    pub open spec fn upvar_place(self, env: Env, upvar: UpVar) -> R<Place> {
        match self.c.closure {
            None => Err(CompileError::Unsupported),
            Some(c) => match self.layout_of(env, c.self_ty) {
                Ok((s, l)) => match s.vm.types.field_offset(l, 0, upvar.index) {
                    Ok(off) => if off > i32::MAX {
                        Err(CompileError::TooLarge)
                    } else {
                        match c.kind {
                            FnTrait::FnOnce => match shift(c.self_slot, off as int) {
                                Ok(slot) => Ok(
                                    (
                                        s,
                                        if upvar.is_ref {
                                            Place::Ptr(slot, 0, PointerKind::Thin)
                                        } else {
                                            Place::Local(slot)
                                        },
                                    ),
                                ),
                                Err(e) => Err(e),
                            },
                            _ => if upvar.is_ref {
                                match s.alloc_slot(word_layout()) {
                                    Ok((s1, r)) => Ok(
                                        (
                                            s1.emit(
                                                Instr::MovPS(
                                                    POINTER_SIZE,
                                                    r,
                                                    c.self_slot,
                                                    off as i32,
                                                ),
                                            ),
                                            Place::Ptr(r, 0, PointerKind::Thin),
                                        ),
                                    ),
                                    Err(e) => Err(e),
                                }
                            } else {
                                Ok((s, Place::Ptr(c.self_slot, off as i32, PointerKind::Thin)))
                            },
                        }
                    },
                    Err(e) => Err(e),
                },
                Err(e) => Err(e),
            },
        }
    }

    /// The place of an indexed element: the index is turned into a byte
    /// offset and added to the address of the array, or of the slice's data.
    pub open spec fn index_place(self, env: Env, id: ExprId, lhs: ExprId, index: ExprId, depth: nat) -> R<
        Place,
    >
        decreases depth, 0int, id.0, 3int, 0int,
    {
        if lhs.0 >= id.0 || index.0 >= id.0 {
            Err(CompileError::BadExpr)
        } else {
            match self.expr_layout(env, index) {
                Ok((s, (_, il))) => if il.size_spec() != Ok::<u32, CompileError>(POINTER_SIZE) {
                    Err(CompileError::BadOperand)
                } else {
                    match s.alloc_slot(il) {
                        Ok((s1, slot)) => match s1.lower_expr(env, index, Some(slot), depth) {
                            Ok((s2, _)) => match s2.expr_kind(env, lhs) {
                                Ok((s3, (TypeKind::Array(elem, ArrayLen::Known(n)), _))) => match s3.layout_of(
                                    env,
                                    elem,
                                ) {
                                    Ok((s4, el)) => match el.size_spec() {
                                        Ok(size) => match s4.emit(
                                            Instr::IndexCalc {
                                                arg_out: slot,
                                                elem_size: size,
                                                elem_count: n,
                                            },
                                        ).expr_to_place(env, lhs, depth) {
                                            Ok((s5, Place::Local(b))) => Ok(
                                                (
                                                    s5.emit(
                                                        Instr::SlotAddrOffset {
                                                            out: slot,
                                                            arg: b,
                                                            offset: slot,
                                                        },
                                                    ),
                                                    Place::Ptr(slot, 0, PointerKind::Thin),
                                                ),
                                            ),
                                            Ok((s5, Place::Ptr(p, off, _))) => Ok(
                                                (
                                                    s5.emit(Instr::PointerOffset3(slot, p, off)),
                                                    Place::Ptr(slot, 0, PointerKind::Thin),
                                                ),
                                            ),
                                            Err(e) => Err(e),
                                        },
                                        Err(e) => Err(e),
                                    },
                                    Err(e) => Err(e),
                                },
                                Ok((s3, (TypeKind::Slice(elem), _))) => match s3.layout_of(
                                    env,
                                    elem,
                                ) {
                                    Ok((s4, el)) => match el.size_spec() {
                                        Ok(size) => match s4.expr_to_place(env, lhs, depth) {
                                            Ok((s5, Place::Ptr(p, off, kind))) => if off != 0
                                                || kind != PointerKind::Fat {
                                                Err(CompileError::BadOperand)
                                            } else {
                                                match shift(p, POINTER_SIZE as int) {
                                                    Ok(count) => Ok(
                                                        (
                                                            s5.emit(
                                                                Instr::IndexCalcDyn {
                                                                    arg_out: slot,
                                                                    elem_size: size,
                                                                    elem_count: count,
                                                                },
                                                            ).emit(
                                                                Instr::PointerOffset3(slot, p, 0),
                                                            ),
                                                            Place::Ptr(slot, 0, PointerKind::Thin),
                                                        ),
                                                    ),
                                                    Err(e) => Err(e),
                                                }
                                            },
                                            Ok(_) => Err(CompileError::BadOperand),
                                            Err(e) => Err(e),
                                        },
                                        Err(e) => Err(e),
                                    },
                                    Err(e) => Err(e),
                                },
                                Ok(_) => Err(CompileError::BadOperand),
                                Err(e) => Err(e),
                            },
                            Err(e) => Err(e),
                        },
                        Err(e) => Err(e),
                    }
                },
                Err(e) => Err(e),
            }
        }
    }
}

} // verus!
