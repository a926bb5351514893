//! Laws of the single breakpoint slot.
//!
//! The slot's behaviour under one recording request is
//! [`crate::dbg::spec_record_addr`], which is exactly what
//! [`crate::dbg::ZDbg::set_break_addr`] ensures. Here that behaviour is
//! folded over whole sequences of `break` commands and proved: the first
//! recording wins and every later request fails without effect.

use vstd::prelude::*;
use crate::addr::spec_get_break_addr;
use crate::dbg::spec_record_addr;

verus! {

/// The breakpoint slot after a sequence of recording requests, folded
/// left to right from the slot state `prev`.
pub open spec fn spec_record_all(prev: Option<u64>, cmds: Seq<Seq<Seq<char>>>) -> Option<u64>
    decreases cmds.len(),
{
    if cmds.len() == 0 {
        prev
    } else {
        spec_record_all(spec_record_addr(prev, cmds.first()).1, cmds.drop_first())
    }
}

/// An occupied slot survives any sequence of recording requests
/// untouched.
pub proof fn lemma_record_all_occupied(prev: Option<u64>, cmds: Seq<Seq<Seq<char>>>)
    requires
        prev is Some,
    ensures
        spec_record_all(prev, cmds) == prev,
    decreases cmds.len(),
{
    if cmds.len() > 0 {
        lemma_record_all_occupied(prev, cmds.drop_first());
    }
}

/// For every sequence of `break` commands issued while no address is
/// recorded whose first command carries a valid address: exactly the
/// first request succeeds; after any prefix the slot holds the first
/// command's address; and every later request fails and leaves that
/// address unchanged.
pub proof fn lemma_first_break_wins(cmds: Seq<Seq<Seq<char>>>, k: int)
    requires
        cmds.len() > 0,
        spec_get_break_addr(cmds.first()) is Some,
        1 <= k <= cmds.len(),
    ensures
        spec_record_addr(None, cmds.first()).0,
        spec_record_all(None, cmds.take(k)) == spec_get_break_addr(cmds.first()),
        k < cmds.len() ==> !spec_record_addr(spec_record_all(None, cmds.take(k)), cmds[k]).0,
        k < cmds.len() ==> spec_record_addr(spec_record_all(None, cmds.take(k)), cmds[k]).1
            == spec_get_break_addr(cmds.first()),
{
    let first = spec_record_addr(None, cmds.first()).1;
    assert(cmds.take(k).first() == cmds.first());
    assert(cmds.take(k).drop_first() =~= cmds.subrange(1, k));
    lemma_record_all_occupied(first, cmds.subrange(1, k));
}

} // verus!
