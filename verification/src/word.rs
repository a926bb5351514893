//! Word-level arithmetic of the breakpoint engine.
//!
//! A software breakpoint is installed by reading the 8-byte word at the
//! breakpoint address, replacing its low byte with the single-byte trap
//! instruction encoding, and writing the word back. Removing it writes the
//! saved original word back. This module defines those transformations and
//! proves their algebra: the trap byte really lands in the low byte, the
//! other seven bytes are untouched, and a restore followed by a fresh
//! install reproduces the patched word bit for bit.

use vstd::prelude::*;

verus! {

/// Encoding of the architecture's single-byte trap instruction
/// (`int 3` on x86-64).
pub const TRAP_BYTE: u64 = 0xcc;

/// The low byte of a word.
pub open spec fn spec_low_byte(w: u64) -> u64 {
    w & 0xff
}

/// The word `w` with its low byte replaced by the trap encoding.
pub open spec fn spec_patched(w: u64) -> u64 {
    (w & 0xffff_ffff_ffff_ff00) | TRAP_BYTE
}

/// Replace the low byte of a word by the trap encoding.
pub fn patch_word(w: u64) -> (r: u64)
    ensures
        r == spec_patched(w),
{
    (w & 0xffff_ffff_ffff_ff00) | TRAP_BYTE
}

/// The low byte of a word, as executable code.
pub fn low_byte(w: u64) -> (r: u64)
    ensures
        r == spec_low_byte(w),
{
    w & 0xff
}

/// Patching plants the trap: the low byte of a patched word is the trap
/// encoding, and the upper seven bytes are exactly those of the original.
pub proof fn lemma_patch_effect(w: u64)
    ensures
        spec_low_byte(spec_patched(w)) == TRAP_BYTE,
        spec_patched(w) & 0xffff_ffff_ffff_ff00 == w & 0xffff_ffff_ffff_ff00,
{
    assert(((w & 0xffff_ffff_ffff_ff00) | 0xcc) & 0xff == 0xcc) by (bit_vector);
    assert(((w & 0xffff_ffff_ffff_ff00) | 0xcc) & 0xffff_ffff_ffff_ff00 == w
        & 0xffff_ffff_ffff_ff00) by (bit_vector);
}

/// Patching is idempotent: installing the trap over a word that already
/// carries it changes nothing.
pub proof fn lemma_patch_idempotent(w: u64)
    ensures
        spec_patched(spec_patched(w)) == spec_patched(w),
{
    assert((((w & 0xffff_ffff_ffff_ff00) | 0xcc) & 0xffff_ffff_ffff_ff00) | 0xcc == (w
        & 0xffff_ffff_ffff_ff00) | 0xcc) by (bit_vector);
}

/// One full breakpoint cycle returns the memory to its post-install state:
/// starting from an original word `w`, install writes `spec_patched(w)` and
/// saves `w`; stepping over the breakpoint first writes the saved `w` back,
/// steps, and then reinstalls by patching the word now in memory, which is
/// `w` again. The reinstalled word is bit-identical to the first install.
pub proof fn lemma_reinstall_round_trip(w: u64)
    ensures
        spec_patched(w) == spec_patched(spec_patched(w) & 0xffff_ffff_ffff_ff00 | spec_low_byte(w)),
        spec_patched(w) & 0xffff_ffff_ffff_ff00 | spec_low_byte(w) == w,
{
    assert((((w & 0xffff_ffff_ffff_ff00) | 0xcc) & 0xffff_ffff_ffff_ff00) | (w & 0xff)
        == w) by (bit_vector);
}

} // verus!
