//! Fresh identifiers for items that carry no identifier of their own.

use vstd::prelude::*;
use crate::text::{decimal, push_decimal};

verus! {

/// The source of fresh identifiers: the number that the next identifier uses.
#[derive(Debug)]
pub struct TempIdCounter {
    pub next: u64,
}

/// The number that follows `n`; the counter wraps around after `u64::MAX`.
pub open spec fn successor(n: u64) -> u64 {
    if n == u64::MAX {
        0
    } else {
        (n + 1) as u64
    }
}

/// The identifier made from `prefix` and the number `n`: `prefix`, an underscore, `n` in decimal.
pub open spec fn temp_id(prefix: Seq<char>, n: u64) -> Seq<char> {
    prefix + "_"@ + decimal(n as nat)
}

impl TempIdCounter {
    /// A counter whose first identifier uses the number 1.
    pub fn new() -> (r: Self)
        ensures
            r.next == 1,
    {
        TempIdCounter { next: 1 }
    }
}

/// Makes a fresh identifier from `prefix` and advances the counter.
pub fn next_temp_id(ids: &mut TempIdCounter, prefix: &str) -> (r: String)
    ensures
        r@ == temp_id(prefix@, old(ids).next),
        final(ids).next == successor(old(ids).next),
{
    let id = ids.next;
    ids.next = id.wrapping_add(1);
    let mut out: String = prefix.to_owned();
    out.append("_");
    push_decimal(&mut out, id);
    out
}

} // verus!
