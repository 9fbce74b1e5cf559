//! The saved register record of the x86-64 context switch and the stack
//! arithmetic around it, as plain values.
//!
//! The switch itself is a few instructions of assembly. What it stores, where
//! it stores it and where the stack pointer ends up is stated here.
use vstd::prelude::*;

verus! {

/// Size in bytes of a saved register record; it is 16-byte aligned.
pub const SAVED_CONTEXT_SIZE: u64 = 64;

/// Bytes that `resume` reserves below the stack pointer: the record less the
/// return address that the caller's `CALL` already pushed.
pub const RESUME_RESERVATION: u64 = 56;

/// Offset of the resume instruction pointer: the record's last field, which
/// is the caller's return address slot.
pub const RESUME_INSTRUCTION_POINTER_OFFSET: u64 = 56;

/// Size in bytes of a return address.
pub const RETURN_ADDRESS_SIZE: u64 = 8;

/// MXCSR value at reset.
pub const DEFAULT_SSE_CONTROL_AND_STATUS_WORD: u32 = 0x1F80;

/// x87 control word after initialisation.
pub const DEFAULT_X87_CONTROL_WORD: u16 = 0x037F;

/// The state kept for a side that is not running, in memory order.
#[derive(Debug, Clone, Copy, PartialEq, Eq, Structural)]
pub struct SavedContext {
    pub sse_control_and_status_word: u32,
    pub x87_control_word: u16,
    /// On first entry: the entry function. Otherwise: RBX.
    pub register_rbx_value: u64,
    /// On first entry: the address of `terminate_abnormally`. Otherwise: RBP.
    pub register_rbp_value: u64,
    pub register_r12_value: u64,
    pub register_r13_value: u64,
    pub register_r14_value: u64,
    pub register_r15_value: u64,
    /// On first entry: the address of `trampoline`. Otherwise: where to resume.
    pub resume_instruction_pointer: u64,
}

/// Where `resume` writes the record of the side that leaves, given the stack
/// pointer on entry to `resume` (pointing at the return address).
pub open spec fn snapshot_location(stack_pointer_at_entry: int) -> int {
    stack_pointer_at_entry - 56
}

/// The stack pointer of a side that `resume` enters from its record.
pub open spec fn resumed_stack_pointer(snapshot: int) -> int {
    snapshot + 64
}

impl SavedContext {
    /// Prepares a stack whose highest address is `pointer_to_bottom_of_stack`
    /// for a first entry into `context_entry_function_pointer`: returns the
    /// address of the record (64 bytes below the bottom) and the record.
    pub fn initialize(
        pointer_to_bottom_of_stack: u64,
        context_entry_function_pointer: u64,
        terminate_abnormally: u64,
        trampoline: u64,
    ) -> (r: (u64, SavedContext))
        requires
            pointer_to_bottom_of_stack >= 64,
            pointer_to_bottom_of_stack % 16 == 0,
        ensures
            r.0 == pointer_to_bottom_of_stack - 64,
            r.0 % 16 == 0,
            r.1.sse_control_and_status_word == 0x1F80,
            r.1.x87_control_word == 0x037F,
            r.1.register_rbx_value == context_entry_function_pointer,
            r.1.register_rbp_value == terminate_abnormally,
            r.1.resume_instruction_pointer == trampoline,
            resumed_stack_pointer(r.0 as int) == pointer_to_bottom_of_stack,
    {
        let saved = SavedContext {
            sse_control_and_status_word: DEFAULT_SSE_CONTROL_AND_STATUS_WORD,
            x87_control_word: DEFAULT_X87_CONTROL_WORD,
            register_rbx_value: context_entry_function_pointer,
            register_rbp_value: terminate_abnormally,
            register_r12_value: 0,
            register_r13_value: 0,
            register_r14_value: 0,
            register_r15_value: 0,
            resume_instruction_pointer: trampoline,
        };
        (pointer_to_bottom_of_stack - SAVED_CONTEXT_SIZE, saved)
    }

    /// The stack arithmetic of `resume`: where the leaving side's record is
    /// written, given the stack pointer on entry, and the stack pointer of the
    /// side entered from the record at `peer`.
    pub fn resume_stack_pointers(stack_pointer_at_entry: u64, peer: u64) -> (r: (u64, u64))
        requires
            stack_pointer_at_entry >= 56,
            peer + 64 <= u64::MAX,
        ensures
            r.0 == snapshot_location(stack_pointer_at_entry as int),
            r.1 == resumed_stack_pointer(peer as int),
    {
        (stack_pointer_at_entry - RESUME_RESERVATION, peer + SAVED_CONTEXT_SIZE)
    }

    /// The stack pointer of the entry function on first entry: the
    /// trampoline pushes the `terminate_abnormally` address as if a `CALL`
    /// had pushed a return address.
    pub fn first_entry_stack_pointer(pointer_to_bottom_of_stack: u64) -> (r: u64)
        requires
            pointer_to_bottom_of_stack >= 8,
        ensures
            r == pointer_to_bottom_of_stack - 8,
    {
        pointer_to_bottom_of_stack - RETURN_ADDRESS_SIZE
    }
}

/// A side that calls `resume` with stack pointer `s` gets control back with
/// stack pointer `s` again: the `CALL` pushes the return address at `s - 8`,
/// `resume` writes the record 56 bytes lower, so the return address is the
/// record's resume instruction pointer, and re-entry sets the stack pointer
/// 64 bytes above the record. The record lies wholly below `s`, so the
/// caller's frames at and above `s` are untouched.
pub proof fn lemma_resume_restores_stack_pointer(s: int)
    requires
        64 <= s <= u64::MAX,
    ensures
        s - 8 >= 56,
        snapshot_location(s - 8) >= 0,
        snapshot_location(s - 8) + 64 <= u64::MAX,
        snapshot_location(s - 8) + 56 == s - 8,
        snapshot_location(s - 8) + 64 == s,
        resumed_stack_pointer(snapshot_location(s - 8)) == s,
        s % 16 == 0 ==> snapshot_location(s - 8) % 16 == 0,
{
}

} // verus!
