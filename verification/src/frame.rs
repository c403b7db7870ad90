//! Dispatch plumbing shared by every pallet: who is calling (the origin),
//! how a call fails, and the saturating arithmetic the pallets rely on.

use vstd::prelude::*;
use vstd::string::StringSliceAdditionalSpecFns;

verus! {

/// The origin of a dispatchable call.
#[derive(Clone, Copy, Debug, PartialEq, Eq)]
pub enum Origin {
    /// The privileged root origin.
    Root,
    /// A call signed by the given account.
    Signed(u64),
    /// An unsigned call.
    Unsigned,
}

/// Why a dispatchable call failed: either the origin was not the one the call
/// requires, or the pallet refused the call with one of its own errors.
#[derive(Clone, Copy, Debug, PartialEq, Eq)]
pub enum DispatchError<E> {
    BadOrigin,
    Module(E),
}

/// Outcome of a dispatchable call.
pub type DispatchResult<E> = Result<(), DispatchError<E>>;

/// The account that signed the call, or `BadOrigin` for any other origin.
pub fn ensure_signed<E>(origin: Origin) -> (r: Result<u64, DispatchError<E>>)
    ensures
        match origin {
            Origin::Signed(who) => r == Ok::<u64, DispatchError<E>>(who),
            _ => r == Err::<u64, DispatchError<E>>(DispatchError::BadOrigin),
        },
{
    match origin {
        Origin::Signed(who) => Ok(who),
        _ => Err(DispatchError::BadOrigin),
    }
}

/// Succeeds exactly for the root origin.
pub fn ensure_root<E>(origin: Origin) -> (r: Result<(), DispatchError<E>>)
    ensures
        origin == Origin::Root ==> r == Ok::<(), DispatchError<E>>(()),
        origin != Origin::Root ==> r == Err::<(), DispatchError<E>>(DispatchError::BadOrigin),
{
    match origin {
        Origin::Root => Ok(()),
        _ => Err(DispatchError::BadOrigin),
    }
}

/// `x * y`, or `u128::MAX` where the product does not fit.
pub open spec fn sat_mul_u128(x: u128, y: u128) -> u128 {
    if x * y > u128::MAX { u128::MAX } else { (x * y) as u128 }
}

/// Multiplication that saturates at `u128::MAX`.
pub fn saturating_mul_u128(x: u128, y: u128) -> (r: u128)
    ensures
        r == sat_mul_u128(x, y),
{
    match x.checked_mul(y) {
        Some(v) => v,
        None => u128::MAX,
    }
}

/// `x * y`, or `u32::MAX` where the product does not fit.
pub open spec fn sat_mul_u32(x: u32, y: u32) -> u32 {
    if x * y > u32::MAX { u32::MAX } else { (x * y) as u32 }
}

/// Multiplication that saturates at `u32::MAX`.
pub fn saturating_mul_u32(x: u32, y: u32) -> (r: u32)
    ensures
        r == sat_mul_u32(x, y),
{
    match x.checked_mul(y) {
        Some(v) => v,
        None => u32::MAX,
    }
}

/// `x * y` clamped to the range of `i32`.
pub open spec fn sat_mul_i32(x: i32, y: i32) -> i32 {
    if x * y > i32::MAX {
        i32::MAX
    } else if x * y < i32::MIN {
        i32::MIN
    } else {
        (x * y) as i32
    }
}

/// Multiplication that saturates at the bounds of `i32`.
pub fn saturating_mul_i32(x: i32, y: i32) -> (r: i32)
    ensures
        r == sat_mul_i32(x, y),
{
    match x.checked_mul(y) {
        Some(v) => v,
        None => {
            if (x < 0) == (y < 0) {
                assert(x * y > i32::MAX) by (nonlinear_arith)
                    requires
                        (x < 0) == (y < 0),
                        x * y > i32::MAX || x * y < i32::MIN,
                ;
                i32::MAX
            } else {
                assert(x * y < i32::MIN) by (nonlinear_arith)
                    requires
                        (x < 0) != (y < 0),
                        x * y > i32::MAX || x * y < i32::MIN,
                ;
                i32::MIN
            }
        },
    }
}

/// One step of an exponential moving average: the measure itself where
/// there is no average yet (`current == 0`), else
/// `(measured + (smoothing - 1) * current) / smoothing`, in exact arithmetic.
pub open spec fn ema_u32(measured: u32, current: u32, smoothing: u32) -> int {
    if current == 0 {
        measured as int
    } else {
        (measured + (smoothing - 1) * current) / (smoothing as int)
    }
}

/// The moving average lies between the old average and the new measure, so
/// it is always a `u32`.
pub proof fn lemma_ema_u32_between(measured: u32, current: u32, smoothing: u32)
    requires
        smoothing > 0,
    ensures
        current != 0 && measured <= current ==> measured <= ema_u32(measured, current, smoothing) <= current,
        current != 0 && current <= measured ==> current <= ema_u32(measured, current, smoothing) <= measured,
        0 <= ema_u32(measured, current, smoothing) <= u32::MAX,
{
    if current != 0 {
        let m = measured as int;
        let c = current as int;
        let s = smoothing as int;
        let q = (m + (s - 1) * c) / s;
        assert(m <= c ==> m <= q <= c) by (nonlinear_arith)
            requires
                s > 0,
                m >= 0,
                c >= 0,
                q == (m + (s - 1) * c) / s,
        ;
        assert(c <= m ==> c <= q <= m) by (nonlinear_arith)
            requires
                s > 0,
                m >= 0,
                c >= 0,
                q == (m + (s - 1) * c) / s,
        ;
    }
}

/// Computes one moving-average step for any inputs, without overflow.
pub fn ema_step_u32(measured: u32, current: u32, smoothing: u32) -> (r: u32)
    requires
        smoothing > 0,
    ensures
        r == ema_u32(measured, current, smoothing),
{
    proof { lemma_ema_u32_between(measured, current, smoothing); }
    if current == 0 {
        measured
    } else {
        let s1: u128 = smoothing as u128 - 1;
        let c: u128 = current as u128;
        assert(s1 * c <= 0xffff_ffff * 0xffff_ffffu128) by (nonlinear_arith)
            requires
                s1 <= 0xffff_ffff,
                c <= 0xffff_ffff,
        ;
        let num: u128 = measured as u128 + s1 * c;
        let q: u128 = num / (smoothing as u128);
        q as u32
    }
}

/// The last `max_entries` items of `s`, or all of `s` where it is no longer.
pub open spec fn keep_last<T>(s: Seq<T>, max_entries: nat) -> Seq<T> {
    if s.len() > max_entries {
        s.subrange(s.len() - max_entries, s.len() as int)
    } else {
        s
    }
}

/// Drops the oldest entries of a history so that at most `max_entries` remain.
pub fn prune_to_last<T>(history: &mut Vec<T>, max_entries: usize)
    ensures
        final(history)@ == keep_last(old(history)@, max_entries as nat),
{
    if history.len() > max_entries {
        let at = history.len() - max_entries;
        let tail = history.split_off(at);
        *history = tail;
    }
}

/// Whether two byte strings are equal.
pub fn bytes_eq(a: &Vec<u8>, b: &Vec<u8>) -> (r: bool)
    ensures
        r == (a@ == b@),
{
    if a.len() != b.len() {
        return false;
    }
    let mut i: usize = 0;
    while i < a.len()
        invariant
            a.len() == b.len(),
            i <= a.len(),
            forall|j: int| 0 <= j < i ==> a@[j] == b@[j],
        decreases a.len() - i,
    {
        if a[i] != b[i] {
            return false;
        }
        i = i + 1;
    }
    assert(a@ =~= b@);
    true
}

/// Copies a byte string.
pub fn copy_bytes(a: &Vec<u8>) -> (r: Vec<u8>)
    ensures
        r@ == a@,
{
    let mut r: Vec<u8> = Vec::new();
    let mut i: usize = 0;
    while i < a.len()
        invariant
            i <= a.len(),
            r@ == a@.subrange(0, i as int),
        decreases a.len() - i,
    {
        r.push(a[i]);
        i = i + 1;
        assert(r@ =~= a@.subrange(0, i as int));
    }
    assert(a@.subrange(0, a.len() as int) =~= a@);
    r
}

/// The UTF-8 bytes of `s`.
pub fn str_bytes(s: &str) -> (r: Vec<u8>)
    ensures
        r@ == s.spec_bytes(),
{
    vstd::slice::slice_to_vec(s.as_bytes())
}


/// Pruning a history keeps its newest entries in their order, at most
/// `max_entries` of them, and pruning again with the same bound changes nothing.
pub proof fn law_keep_last<T>(s: Seq<T>, max_entries: nat)
    ensures
        keep_last(s, max_entries).len() == if s.len() > max_entries { max_entries } else { s.len() },
        keep_last(s, max_entries) == s.subrange(s.len() - keep_last(s, max_entries).len(), s.len() as int),
        keep_last(keep_last(s, max_entries), max_entries) == keep_last(s, max_entries),
{
    assert(s.subrange(0, s.len() as int) =~= s);
}

} // verus!
