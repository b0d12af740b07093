//! The register and stack discipline of the trap entry trampolines, on a
//! simulated processor: what the processor pushes when it delivers a trap,
//! what a trampoline saves and restores around the handler body, and what
//! the interrupt return pops.

use vstd::prelude::*;
use crate::idt::Handler;

verus! {

/// The caller-visible general-purpose registers that a trampoline saves.
#[derive(Clone, Copy, Debug, PartialEq, Eq, Structural)]
pub struct ScratchRegisters {
    pub rax: u64,
    pub rcx: u64,
    pub rdx: u64,
    pub rdi: u64,
    pub rsi: u64,
    pub r8: u64,
    pub r9: u64,
    pub r10: u64,
    pub r11: u64,
}

impl ScratchRegisters {
    /// The registers as a trampoline pushes them, first pushed first.
    pub open spec fn saved(&self) -> Seq<u64> {
        seq![
            self.rax,
            self.rcx,
            self.rdx,
            self.rdi,
            self.rsi,
            self.r8,
            self.r9,
            self.r10,
            self.r11,
        ]
    }
}

/// The return state that the processor pushes when it delivers a trap and
/// that the interrupt return consumes.
#[derive(Clone, Copy, Debug, PartialEq, Eq, Structural)]
pub struct InterruptFrame {
    pub rip: u64,
    pub cs: u64,
    pub rflags: u64,
    pub rsp: u64,
    pub ss: u64,
}

impl InterruptFrame {
    /// The frame as the processor pushes it, first pushed first.
    pub open spec fn pushed(&self) -> Seq<u64> {
        seq![self.ss, self.rsp, self.rflags, self.cs, self.rip]
    }
}

/// Number of words a trampoline saves.
pub const SCRATCH_WORDS: usize = 9;

/// Number of words of an interrupt frame.
pub const FRAME_WORDS: usize = 5;

/// What the processor pushes on delivery: the frame, then the error code
/// where the exception has one.
pub open spec fn delivered_words(frame: InterruptFrame, error_code: Option<u64>) -> Seq<u64> {
    match error_code {
        Some(code) => frame.pushed().push(code),
        None => frame.pushed(),
    }
}

/// Whether the processor pushes an error code before it enters `handler`.
pub open spec fn pushes_error_code(handler: Handler) -> bool {
    handler is ProtectionFault || handler is PageFault
}

/// Whether the processor pushes an error code before it enters `handler`.
pub fn has_error_code(handler: Handler) -> (pushed: bool)
    ensures
        pushed == pushes_error_code(handler),
{
    match handler {
        Handler::ProtectionFault => true,
        Handler::PageFault => true,
        _ => false,
    }
}

/// The scratch registers that the interrupted code finds after a trap to
/// `handler`, where they held `before` at delivery and the handler body
/// left `clobbered`: the system-call gate hands the result back in `rax`,
/// every other entry restores all of them.
pub open spec fn resumed_registers(
    handler: Handler,
    before: ScratchRegisters,
    clobbered: ScratchRegisters,
) -> ScratchRegisters {
    if handler is Syscall {
        ScratchRegisters { rax: clobbered.rax, ..before }
    } else {
        before
    }
}

/// A simulated processor: its scratch registers and its stack, the most
/// recently pushed word last.
#[derive(Debug)]
pub struct Cpu {
    pub registers: ScratchRegisters,
    pub stack: Vec<u64>,
}

impl Cpu {
    /// A processor with the given registers and an empty stack.
    pub fn new(registers: ScratchRegisters) -> (cpu: Cpu)
        ensures
            cpu.registers == registers,
            cpu.stack@ == Seq::<u64>::empty(),
    {
        Cpu { registers, stack: Vec::new() }
    }

    /// The stack depth in words.
    pub fn depth(&self) -> (depth: usize)
        ensures
            depth == self.stack@.len(),
    {
        self.stack.len()
    }

    fn pop_word(&mut self) -> (word: u64)
        requires
            old(self).stack@.len() > 0,
        ensures
            word == old(self).stack@.last(),
            final(self).stack@ == old(self).stack@.drop_last(),
            final(self).registers == old(self).registers,
    {
        self.stack.pop().unwrap()
    }

    /// The processor delivers a trap: it pushes the frame and, where the
    /// exception has one, the error code.
    pub fn deliver(&mut self, frame: InterruptFrame, error_code: Option<u64>)
        ensures
            final(self).stack@ == old(self).stack@ + delivered_words(frame, error_code),
            final(self).registers == old(self).registers,
    {
        self.stack.push(frame.ss);
        self.stack.push(frame.rsp);
        self.stack.push(frame.rflags);
        self.stack.push(frame.cs);
        self.stack.push(frame.rip);
        if let Some(code) = error_code {
            self.stack.push(code);
        }
        assert(self.stack@ =~= old(self).stack@ + delivered_words(frame, error_code));
    }

    /// A trampoline's entry: the scratch registers go onto the stack.
    pub fn push_scratch(&mut self)
        ensures
            final(self).stack@ == old(self).stack@ + old(self).registers.saved(),
            final(self).registers == old(self).registers,
    {
        self.stack.push(self.registers.rax);
        self.stack.push(self.registers.rcx);
        self.stack.push(self.registers.rdx);
        self.stack.push(self.registers.rdi);
        self.stack.push(self.registers.rsi);
        self.stack.push(self.registers.r8);
        self.stack.push(self.registers.r9);
        self.stack.push(self.registers.r10);
        self.stack.push(self.registers.r11);
        assert(self.stack@ =~= old(self).stack@ + old(self).registers.saved());
    }

    /// A trampoline's exit: the scratch registers come back from the stack,
    /// last pushed first.
    pub fn pop_scratch(&mut self)
        requires
            old(self).stack@.len() >= SCRATCH_WORDS,
        ensures
            old(self).stack@ == final(self).stack@ + final(self).registers.saved(),
    {
        let r11: u64 = self.pop_word();
        let r10: u64 = self.pop_word();
        let r9: u64 = self.pop_word();
        let r8: u64 = self.pop_word();
        let rsi: u64 = self.pop_word();
        let rdi: u64 = self.pop_word();
        let rdx: u64 = self.pop_word();
        let rcx: u64 = self.pop_word();
        let rax: u64 = self.pop_word();
        self.registers = ScratchRegisters { rax, rcx, rdx, rdi, rsi, r8, r9, r10, r11 };
        assert(old(self).stack@ =~= self.stack@ + self.registers.saved());
    }

    /// Discards the error code on top of the stack and hands it out.
    pub fn pop_error_code(&mut self) -> (code: u64)
        requires
            old(self).stack@.len() > 0,
        ensures
            old(self).stack@ == final(self).stack@.push(code),
            final(self).registers == old(self).registers,
    {
        let code: u64 = self.pop_word();
        assert(old(self).stack@ =~= self.stack@.push(code));
        code
    }

    /// The interrupt return: pops the frame that the processor pushed.
    pub fn iretq(&mut self) -> (frame: InterruptFrame)
        requires
            old(self).stack@.len() >= FRAME_WORDS,
        ensures
            old(self).stack@ == final(self).stack@ + frame.pushed(),
            final(self).registers == old(self).registers,
    {
        let rip: u64 = self.pop_word();
        let cs: u64 = self.pop_word();
        let rflags: u64 = self.pop_word();
        let rsp: u64 = self.pop_word();
        let ss: u64 = self.pop_word();
        let frame = InterruptFrame { rip, cs, rflags, rsp, ss };
        assert(old(self).stack@ =~= self.stack@ + frame.pushed());
        frame
    }

    /// A handler body between a trampoline's entry and exit: the scratch
    /// registers are saved, the body leaves `clobbered` in them, and they are
    /// restored.
    fn guarded_body(&mut self, clobbered: ScratchRegisters)
        ensures
            final(self).stack@ == old(self).stack@,
            final(self).registers == old(self).registers,
    {
        self.push_scratch();
        self.registers = clobbered;
        self.pop_scratch();
        proof {
            lemma_same_suffix(
                old(self).stack@,
                old(self).registers.saved(),
                self.stack@,
                self.registers.saved(),
            );
            lemma_saved_injective(old(self).registers, self.registers);
        }
    }

    /// The trampoline of a trap without error code, run on a stack whose top
    /// is an interrupt frame. The handler body leaves `clobbered` in the
    /// scratch registers; the trampoline restores them and returns through
    /// the frame.
    pub fn interrupt(&mut self, clobbered: ScratchRegisters) -> (frame: InterruptFrame)
        requires
            old(self).stack@.len() >= FRAME_WORDS,
        ensures
            old(self).stack@ == final(self).stack@ + frame.pushed(),
            final(self).registers == old(self).registers,
    {
        self.guarded_body(clobbered);
        self.iretq()
    }

    /// The trampoline of a trap with error code, run on a stack whose top is
    /// an interrupt frame and above it the error code. As `interrupt`, but
    /// the error code leaves the stack before the interrupt return.
    pub fn interrupt_error(&mut self, clobbered: ScratchRegisters) -> (returned: (
        u64,
        InterruptFrame,
    ))
        requires
            old(self).stack@.len() >= FRAME_WORDS + 1,
        ensures
            old(self).stack@ == (final(self).stack@ + returned.1.pushed()).push(returned.0),
            final(self).registers == old(self).registers,
    {
        self.guarded_body(clobbered);
        let code: u64 = self.pop_error_code();
        let frame = self.iretq();
        (code, frame)
    }

    /// The entry of the system-call gate, run on a stack whose top is an
    /// interrupt frame. It saves no scratch registers: the dispatcher's
    /// result, which the handler body leaves in `rax` of `clobbered`, goes
    /// into the return register, the other registers are as at entry, and
    /// the entry returns through the frame.
    pub fn syscall_gate(&mut self, clobbered: ScratchRegisters) -> (frame: InterruptFrame)
        requires
            old(self).stack@.len() >= FRAME_WORDS,
        ensures
            old(self).stack@ == final(self).stack@ + frame.pushed(),
            final(self).registers == resumed_registers(
                Handler::Syscall,
                old(self).registers,
                clobbered,
            ),
    {
        self.registers.rax = clobbered.rax;
        self.iretq()
    }

    /// One whole trap to `handler`: delivery by the processor, the entry
    /// that belongs to the handler around a body that leaves `clobbered` in
    /// the scratch registers, and the interrupt return. The interrupted code
    /// finds its stack as it was and resumes at `frame`. Its registers are
    /// as they were, but after a system call, where the return register
    /// holds the result. Returned are the error code that the handler body
    /// was given, where the processor pushed one, and the frame returned
    /// through.
    pub fn trap(
        &mut self,
        handler: Handler,
        frame: InterruptFrame,
        error_code: u64,
        clobbered: ScratchRegisters,
    ) -> (outcome: (Option<u64>, InterruptFrame))
        ensures
            final(self).stack@ == old(self).stack@,
            final(self).registers == resumed_registers(handler, old(self).registers, clobbered),
            outcome.0 == (if pushes_error_code(handler) {
                Some(error_code)
            } else {
                None
            }),
            outcome.1 == frame,
    {
        if has_error_code(handler) {
            self.deliver(frame, Some(error_code));
            let ghost after_delivery = self.stack@;
            let (code, resumed) = self.interrupt_error(clobbered);
            proof {
                let before = old(self).stack@ + frame.pushed();
                let after = self.stack@ + resumed.pushed();
                assert(after_delivery =~= before.push(error_code));
                assert(before =~= before.push(error_code).drop_last());
                assert(after =~= after.push(code).drop_last());
                assert(before.push(error_code).last() == after.push(code).last());
                lemma_same_suffix(old(self).stack@, frame.pushed(), self.stack@, resumed.pushed());
                lemma_pushed_injective(frame, resumed);
            }
            (Some(code), resumed)
        } else {
            self.deliver(frame, None);
            let resumed = match handler {
                Handler::Syscall => self.syscall_gate(clobbered),
                _ => self.interrupt(clobbered),
            };
            proof {
                lemma_same_suffix(old(self).stack@, frame.pushed(), self.stack@, resumed.pushed());
                lemma_pushed_injective(frame, resumed);
            }
            (None, resumed)
        }
    }
}

/// Two stacks that end in blocks of one length and are equal as a whole
/// are equal below the blocks, and the blocks are equal.
proof fn lemma_same_suffix(a: Seq<u64>, x: Seq<u64>, b: Seq<u64>, y: Seq<u64>)
    requires
        a + x == b + y,
        x.len() == y.len(),
    ensures
        a == b,
        x == y,
{
    assert((a + x).len() == (b + y).len());
    assert(a =~= (a + x).subrange(0, a.len() as int));
    assert(b =~= (b + y).subrange(0, b.len() as int));
    assert(x =~= (a + x).subrange(a.len() as int, (a + x).len() as int));
    assert(y =~= (b + y).subrange(b.len() as int, (b + y).len() as int));
}

/// Registers that are saved as the same words are the same registers.
proof fn lemma_saved_injective(a: ScratchRegisters, b: ScratchRegisters)
    requires
        a.saved() == b.saved(),
    ensures
        a == b,
{
    assert(a.saved()[0] == b.saved()[0]);
    assert(a.saved()[1] == b.saved()[1]);
    assert(a.saved()[2] == b.saved()[2]);
    assert(a.saved()[3] == b.saved()[3]);
    assert(a.saved()[4] == b.saved()[4]);
    assert(a.saved()[5] == b.saved()[5]);
    assert(a.saved()[6] == b.saved()[6]);
    assert(a.saved()[7] == b.saved()[7]);
    assert(a.saved()[8] == b.saved()[8]);
}

/// Frames that are pushed as the same words are the same frame.
proof fn lemma_pushed_injective(a: InterruptFrame, b: InterruptFrame)
    requires
        a.pushed() == b.pushed(),
    ensures
        a == b,
{
    assert(a.pushed()[0] == b.pushed()[0]);
    assert(a.pushed()[1] == b.pushed()[1]);
    assert(a.pushed()[2] == b.pushed()[2]);
    assert(a.pushed()[3] == b.pushed()[3]);
    assert(a.pushed()[4] == b.pushed()[4]);
}

} // verus!
