//! The machine's memory: byte runs on a thread's stack and in the constant
//! arena, and the values that they hold.

use vstd::prelude::*;
use crate::vm::{CONST_BASE, STACK_BASE};

verus! {

/// The value of the first `i` bytes, little-endian, on top of `acc`.
pub open spec fn value_acc(bytes: Seq<u8>, i: int, acc: u128) -> u128
    decreases i,
{
    if i <= 0 || i > bytes.len() {
        acc
    } else {
        value_acc(bytes, i - 1, (acc << 8u32) | (bytes[i - 1] as u128))
    }
}

/// The unsigned value that a run of bytes holds, little-endian.
pub open spec fn value_of(bytes: Seq<u8>) -> u128 {
    value_acc(bytes, bytes.len() as int, 0)
}

/// Byte `k` of a value; zero beyond the sixteenth.
pub open spec fn byte_of(v: u128, k: u32) -> u8 {
    if k < 16 {
        ((v >> ((8 * k) as u32)) & 0xffu128) as u8
    } else {
        0
    }
}

/// The first `n` bytes of a value, little-endian.
pub open spec fn bytes_of(v: u128, n: u32) -> Seq<u8> {
    Seq::new(n as nat, |k: int| byte_of(v, k as u32))
}

/// The `n` bytes from index `idx` on, where they all exist.
pub open spec fn read_at(mem: Seq<u8>, idx: int, n: int) -> Option<Seq<u8>> {
    if 0 <= idx && 0 <= n && idx + n <= mem.len() {
        Some(mem.subrange(idx, idx + n))
    } else {
        None
    }
}

/// The memory with `bytes` written from index `idx` on, where they all fit.
pub open spec fn write_at(mem: Seq<u8>, idx: int, bytes: Seq<u8>) -> Option<Seq<u8>> {
    if 0 <= idx && idx + bytes.len() <= mem.len() {
        Some(
            Seq::new(
                mem.len(),
                |i: int|
                    if idx <= i < idx + bytes.len() {
                        bytes[i - idx]
                    } else {
                        mem[i]
                    },
            ),
        )
    } else {
        None
    }
}

pub open spec fn read_val(mem: Seq<u8>, idx: int, n: int) -> Option<u128> {
    match read_at(mem, idx, n) {
        Some(b) => Some(value_of(b)),
        None => None,
    }
}

pub open spec fn write_val(mem: Seq<u8>, idx: int, n: u32, v: u128) -> Option<Seq<u8>> {
    write_at(mem, idx, bytes_of(v, n))
}

/// The `n` bytes at an address: on the stack or in the constant arena.
pub open spec fn read_mem(consts: Seq<u8>, stack: Seq<u8>, addr: u64, n: int) -> Option<Seq<u8>> {
    if addr >= CONST_BASE {
        read_at(consts, addr - CONST_BASE, n)
    } else if addr >= STACK_BASE {
        read_at(stack, addr - STACK_BASE, n)
    } else {
        None
    }
}

/// The stack with `bytes` written at an address. Only the stack can be written.
pub open spec fn write_mem(stack: Seq<u8>, addr: u64, bytes: Seq<u8>) -> Option<Seq<u8>> {
    if addr >= STACK_BASE && addr < CONST_BASE {
        write_at(stack, addr - STACK_BASE, bytes)
    } else {
        None
    }
}

pub open spec fn bytes_view(r: Option<Vec<u8>>) -> Option<Seq<u8>> {
    match r {
        Some(v) => Some(v@),
        None => None,
    }
}

pub fn load(mem: &Vec<u8>, idx: u64, n: u64) -> (r: Option<Vec<u8>>)
    ensures
        bytes_view(r) == read_at(mem@, idx as int, n as int),
{
    if idx > mem.len() as u64 || n > mem.len() as u64 - idx {
        return None;
    }
    let start: usize = idx as usize;
    let count: usize = n as usize;
    let mut out: Vec<u8> = Vec::new();
    let mut k: usize = 0;
    while k < count
        invariant
            k <= count,
            start + count <= mem.len(),
            out@ == mem@.subrange(start as int, start + k),
        decreases count - k,
    {
        out.push(mem[start + k]);
        proof {
            assert(out@ =~= mem@.subrange(start as int, start + k + 1));
        }
        k += 1;
    }
    Some(out)
}

pub fn store(mem: &mut Vec<u8>, idx: u64, bytes: &Vec<u8>) -> (ok: bool)
    ensures
        ok ==> write_at(old(mem)@, idx as int, bytes@) == Some(final(mem)@),
        !ok ==> write_at(old(mem)@, idx as int, bytes@) is None && final(mem)@ == old(mem)@,
{
    if idx > mem.len() as u64 || bytes.len() as u64 > mem.len() as u64 - idx {
        return false;
    }
    let start: usize = idx as usize;
    let mut k: usize = 0;
    while k < bytes.len()
        invariant
            k <= bytes.len(),
            start + bytes.len() <= mem.len(),
            mem.len() == old(mem).len(),
            mem@ == Seq::new(
                old(mem)@.len(),
                |i: int|
                    if start <= i < start + k {
                        bytes@[i - start]
                    } else {
                        old(mem)@[i]
                    },
            ),
        decreases bytes.len() - k,
    {
        mem.set(start + k, bytes[k]);
        proof {
            assert(mem@ =~= Seq::new(
                old(mem)@.len(),
                |i: int|
                    if start <= i < start + k + 1 {
                        bytes@[i - start]
                    } else {
                        old(mem)@[i]
                    },
            ));
        }
        k += 1;
    }
    true
}

pub fn value(bytes: &Vec<u8>) -> (r: u128)
    ensures
        r == value_of(bytes@),
{
    let mut acc: u128 = 0;
    let mut i: usize = bytes.len();
    while i > 0
        invariant
            i <= bytes.len(),
            value_acc(bytes@, i as int, acc) == value_of(bytes@),
        decreases i,
    {
        acc = (acc << 8u32) | (bytes[i - 1] as u128);
        i -= 1;
    }
    acc
}

fn byte(v: u128, k: u32) -> (r: u8)
    ensures
        r == byte_of(v, k),
{
    if k < 16 {
        ((v >> (8 * k)) & 0xffu128) as u8
    } else {
        0
    }
}

pub fn bytes(v: u128, n: u32) -> (r: Vec<u8>)
    ensures
        r@ == bytes_of(v, n),
{
    let mut out: Vec<u8> = Vec::new();
    let mut k: u32 = 0;
    while k < n
        invariant
            k <= n,
            out@ == bytes_of(v, k),
        decreases n - k,
    {
        out.push(byte(v, k));
        proof {
            assert(out@ =~= bytes_of(v, (k + 1) as u32));
        }
        k += 1;
    }
    out
}

pub fn load_val(mem: &Vec<u8>, idx: u64, n: u64) -> (r: Option<u128>)
    ensures
        r == read_val(mem@, idx as int, n as int),
{
    match load(mem, idx, n) {
        Some(b) => Some(value(&b)),
        None => None,
    }
}

pub fn store_val(mem: &mut Vec<u8>, idx: u64, n: u32, v: u128) -> (ok: bool)
    ensures
        ok ==> write_val(old(mem)@, idx as int, n, v) == Some(final(mem)@),
        !ok ==> write_val(old(mem)@, idx as int, n, v) is None && final(mem)@ == old(mem)@,
{
    let b = bytes(v, n);
    store(mem, idx, &b)
}

pub fn load_mem(consts: &Vec<u8>, stack: &Vec<u8>, addr: u64, n: u64) -> (r: Option<Vec<u8>>)
    ensures
        bytes_view(r) == read_mem(consts@, stack@, addr, n as int),
{
    if addr >= CONST_BASE {
        load(consts, addr - CONST_BASE, n)
    } else if addr >= STACK_BASE {
        load(stack, addr - STACK_BASE, n)
    } else {
        None
    }
}

pub fn store_mem(stack: &mut Vec<u8>, addr: u64, bytes: &Vec<u8>) -> (ok: bool)
    ensures
        ok ==> write_mem(old(stack)@, addr, bytes@) == Some(final(stack)@),
        !ok ==> write_mem(old(stack)@, addr, bytes@) is None && final(stack)@ == old(stack)@,
{
    if addr >= STACK_BASE && addr < CONST_BASE {
        store(stack, addr - STACK_BASE, bytes)
    } else {
        false
    }
}

pub fn same_bytes(a: &Vec<u8>, b: &Vec<u8>) -> (r: bool)
    ensures
        r == (a@ == b@),
{
    if a.len() != b.len() {
        return false;
    }
    let mut i: usize = 0;
    while i < a.len()
        invariant
            i <= a.len(),
            a.len() == b.len(),
            forall|k: int| 0 <= k < i ==> a@[k] == b@[k],
        decreases a.len() - i,
    {
        if a[i] != b[i] {
            return false;
        }
        i += 1;
    }
    assert(a@ =~= b@);
    true
}

} // verus!
