//! The trap, interrupt and system-call boundary of a small x86_64 kernel:
//! its interrupt descriptor table, the register discipline of its entry
//! trampolines, the system-call register convention and the process
//! system calls.

pub mod idt;
pub mod trap;
pub mod syscall;
