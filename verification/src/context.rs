use vstd::prelude::*;

use crate::error::Error;
use crate::types::ThreadState;

verus! {

/// Size of one memory page. The lowest page of every execution stack is the
/// guard page: the embedding program marks it inaccessible, so that a stack
/// overflow faults the process instead of corrupting neighbouring memory.
pub const PAGE_SIZE: usize = 4 * 1024;

/// Fixed floor on the stack size of a green thread: the guard page plus a
/// minimum of usable space. Requests below it are rejected before any
/// resource is committed.
pub const MIN_STACK_SIZE: usize = 64 * 1024;

/// Callee-saved register record of a continuation, in the x86-64 layout:
/// enough machine state to resume execution exactly at the capture point.
/// `rsp` is the saved stack pointer; for a context that has never run, `rdx`
/// holds the address the first resumption lands on (the entry trampoline).
///
/// The transfer routines that fill and consume this record are
/// architecture-specific machine code linked by the embedding program; the
/// library only lays the record out and tracks who owns it.
#[derive(Clone, Copy, PartialEq, Eq, Structural, Debug)]
pub struct Registers {
    pub rbx: u64,
    pub rbp: u64,
    pub r12: u64,
    pub r13: u64,
    pub r14: u64,
    pub r15: u64,
    pub rsp: u64,
    pub rdx: u64,
}

impl Registers {
    /// The continuation of a context that has never run: zeroed callee-saved
    /// registers, the given initial stack pointer, and the given resume
    /// address (the trampoline) in `rdx`.
    pub fn new(rsp: u64, resume_addr: u64) -> (r: Registers)
        ensures
            r == (Registers {
                rbx: 0,
                rbp: 0,
                r12: 0,
                r13: 0,
                r14: 0,
                r15: 0,
                rsp: rsp,
                rdx: resume_addr,
            }),
    {
        Registers { rbx: 0, rbp: 0, r12: 0, r13: 0, r14: 0, r15: 0, rsp, rdx: resume_addr }
    }

    /// An all-zero record, used as the not-yet-filled slot for the main
    /// continuation before the first capture writes into it.
    pub fn zeroed() -> (r: Registers)
        ensures
            r == (Registers { rbx: 0, rbp: 0, r12: 0, r13: 0, r14: 0, r15: 0, rsp: 0, rdx: 0 }),
    {
        Registers { rbx: 0, rbp: 0, r12: 0, r13: 0, r14: 0, r15: 0, rsp: 0, rdx: 0 }
    }
}

/// One green-thread context: its continuation, the bounds of its execution
/// stack, its unique id, and its lifecycle state. The stack memory itself is
/// allocated and guarded by the embedding program; the context records its
/// base address and size as plain numbers.
#[derive(Clone, Copy, PartialEq, Eq, Structural, Debug)]
pub struct Context {
    pub regs: Registers,
    pub stack_base: usize,
    pub stack_size: usize,
    pub id: u64,
    pub state: ThreadState,
}

impl Context {
    /// Well-formedness of a context's stack geometry: the size is at or above
    /// the floor and the region's end fits in the address space.
    pub open spec fn wf(self) -> bool {
        &&& self.stack_size >= MIN_STACK_SIZE
        &&& self.stack_base + self.stack_size <= u64::MAX
    }

    /// Start of the guard page: the lowest address of the stack region.
    pub open spec fn guard_lo(self) -> int {
        self.stack_base as int
    }

    /// End (exclusive) of the guard page.
    pub open spec fn guard_hi(self) -> int {
        self.stack_base + PAGE_SIZE
    }

    /// Start of the usable stack region, just above the guard page.
    pub open spec fn usable_lo(self) -> int {
        self.stack_base + PAGE_SIZE
    }

    /// End (exclusive) of the usable stack region; also the initial stack
    /// pointer of a context that has never run.
    pub open spec fn usable_hi(self) -> int {
        self.stack_base + self.stack_size
    }

    /// The context that `new` builds on success: zeroed callee-saved
    /// registers, the stack pointer at the top of the stack region, the
    /// trampoline as resume address, and state `Ready`.
    pub open spec fn spec_new(stack_base: usize, stack_size: usize, id: u64, trampoline: u64) -> Context {
        Context {
            regs: Registers {
                rbx: 0,
                rbp: 0,
                r12: 0,
                r13: 0,
                r14: 0,
                r15: 0,
                rsp: (stack_base + stack_size) as u64,
                rdx: trampoline,
            },
            stack_base: stack_base,
            stack_size: stack_size,
            id: id,
            state: ThreadState::Ready,
        }
    }

    /// A context that has never run, in state `Ready`: its stack pointer at
    /// the top of the stack region and its resume address at the trampoline.
    /// Fails with a stack-size error, before any resource is committed, if
    /// and only if the requested size is below the floor.
    pub fn new(stack_base: usize, stack_size: usize, id: u64, trampoline: u64) -> (r: Result<
        Context,
        Error,
    >)
        requires
            stack_base + stack_size <= u64::MAX,
        ensures
            r is Ok <==> stack_size >= MIN_STACK_SIZE,
            r matches Err(e) ==> e == (Error::InvalidStackSize {
                size: stack_size,
                min: MIN_STACK_SIZE,
            }),
            r matches Ok(c) ==> c == Context::spec_new(stack_base, stack_size, id, trampoline),
            r matches Ok(c) ==> c.wf(),
    {
        if stack_size < MIN_STACK_SIZE {
            return Err(Error::InvalidStackSize { size: stack_size, min: MIN_STACK_SIZE });
        }
        let top: u64 = (stack_base as u64) + (stack_size as u64);
        Ok(
            Context {
                regs: Registers::new(top, trampoline),
                stack_base,
                stack_size,
                id,
                state: ThreadState::Ready,
            },
        )
    }

    /// The saved continuation of this context.
    pub fn get_regs(&self) -> (r: &Registers)
        ensures
            *r == self.regs,
    {
        &self.regs
    }

    /// The saved continuation of this context, writable: the capture routine
    /// of the embedding program fills it in place.
    pub fn get_regs_mut(&mut self) -> (r: &mut Registers)
        ensures
            *r == old(self).regs,
            *final(self) == (Context { regs: *final(r), ..*old(self) }),
    {
        &mut self.regs
    }
}

/// The guard page and the usable region of a well-formed stack are disjoint:
/// an address inside the guard page is never a usable stack address, so a
/// fault taken on the guard page is never a write to usable stack space, and
/// the usable region (where the initial stack pointer sits, at its top) is
/// non-empty and strictly above the guard page.
pub proof fn lemma_guard_page_disjoint(c: Context, addr: int)
    requires
        c.wf(),
        c.guard_lo() <= addr < c.guard_hi(),
    ensures
        !(c.usable_lo() <= addr < c.usable_hi()),
        c.guard_hi() < c.usable_hi(),
{
}

} // verus!
