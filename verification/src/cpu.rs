//! Architecture-level startup: core selection, stack setup, zeroing of the
//! uninitialized static-storage region, and handoff to the next stage.
//!
//! Only the designated boot core may initialize the single stack and zero
//! the bss region; every other core parks immediately, before touching any
//! shared state. Static storage is modeled as a byte array, the stack
//! pointer as the register cell the startup code assigns.

use vstd::prelude::*;

verus! {

/// Identifier of the single core that performs one-time startup; all
/// other cores park.
pub const BOOT_CORE_ID: u64 = 0;

/// The build/link-supplied inputs Boot Entry consumes: which core is
/// running, the top-of-stack address, and the bounds of the
/// uninitialized-data region. Supplied by out-of-scope build
/// configuration, consumed once, never stored.
pub struct BootContext {
    /// Hardware core identifier, read at startup.
    pub core_id: u64,
    /// Top-of-stack address for the boot core. No stack-size validation
    /// happens here; supplying a valid range is build configuration's
    /// responsibility.
    pub stack_top: u64,
    /// First byte of the bss region.
    pub bss_start: usize,
    /// One past the last byte of the bss region.
    pub bss_end: usize,
}

/// Terminal state of Boot Entry.
#[derive(Debug, PartialEq, Eq, Structural)]
pub enum BootOutcome {
    /// A core other than the boot core: parked forever, with no shared
    /// state touched.
    ParkedForever,
    /// The boot core finished stack setup and bss zeroing and transfers
    /// control to the next-stage initializer.
    HandedOff,
}

/// Writes zero to every byte of `[start, end)` and touches nothing else.
/// Correct for any non-negative length, including the empty region, where
/// it performs no writes.
pub fn zero_region(mem: &mut Vec<u8>, start: usize, end: usize)
    requires
        start <= end,
        end <= old(mem)@.len(),
    ensures
        final(mem)@.len() == old(mem)@.len(),
        forall|i: int| start <= i < end ==> final(mem)@[i] == 0,
        forall|i: int|
            0 <= i < old(mem)@.len() && !(start <= i < end) ==> final(mem)@[i] == old(mem)@[i],
{
    let mut j: usize = start;
    while j < end
        invariant
            start <= j <= end,
            end <= mem@.len(),
            mem@.len() == old(mem)@.len(),
            forall|i: int| start <= i < j ==> mem@[i] == 0,
            forall|i: int| 0 <= i < mem@.len() && !(start <= i < j) ==> mem@[i] == old(mem)@[i],
        decreases end - j,
    {
        mem.set(j, 0);
        j = j + 1;
    }
}

/// Architecture entry point, as run on every core.
///
/// Reads the core identifier from `ctx`; a non-boot core parks immediately
/// without executing stack initialization or bss zeroing. The boot core
/// sets its stack pointer from the build-supplied top-of-stack address,
/// zeroes `[ctx.bss_start, ctx.bss_end)`, and hands control to the
/// next-stage initializer, never to return.
pub fn boot_entry(ctx: &BootContext, sp: &mut u64, mem: &mut Vec<u8>) -> (r: BootOutcome)
    requires
        ctx.bss_start <= ctx.bss_end,
        ctx.bss_end <= old(mem)@.len(),
    ensures
        ctx.core_id != BOOT_CORE_ID ==> r == BootOutcome::ParkedForever && *final(sp) == *old(sp)
            && final(mem)@ == old(mem)@,
        ctx.core_id == BOOT_CORE_ID ==> r == BootOutcome::HandedOff && *final(sp) == ctx.stack_top
            && final(mem)@.len() == old(mem)@.len(),
        ctx.core_id == BOOT_CORE_ID ==> forall|i: int|
            ctx.bss_start <= i < ctx.bss_end ==> final(mem)@[i] == 0,
        ctx.core_id == BOOT_CORE_ID ==> forall|i: int|
            0 <= i < old(mem)@.len() && !(ctx.bss_start <= i < ctx.bss_end) ==> final(mem)@[i]
                == old(mem)@[i],
{
    if ctx.core_id != BOOT_CORE_ID {
        return BootOutcome::ParkedForever;
    }
    *sp = ctx.stack_top;
    zero_region(mem, ctx.bss_start, ctx.bss_end);
    BootOutcome::HandedOff
}

} // verus!
