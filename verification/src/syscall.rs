//! The system-call gate and the process system calls behind it.

use vstd::prelude::*;

verus! {

/// Why a system call failed.
#[derive(Clone, Copy, Debug, PartialEq, Eq, Structural)]
pub enum Error {
    /// An address range handed in by the caller is not the caller's to use.
    Fault,
    /// No context is scheduled on this processor.
    NoProcess,
}

/// The six registers that carry a system call's arguments, in the order of
/// the argument slots. The first of them, `rax`, carries the result back.
#[derive(Clone, Copy, Debug, PartialEq, Eq, Structural)]
pub struct SyscallRegisters {
    pub rax: usize,
    pub rbx: usize,
    pub rcx: usize,
    pub rdx: usize,
    pub rsi: usize,
    pub rdi: usize,
}

impl SyscallRegisters {
    /// The arguments in slot order: `rax`, `rbx`, `rcx`, `rdx`, `rsi`, `rdi`.
    pub open spec fn slots(&self) -> (usize, usize, usize, usize, usize, usize) {
        (self.rax, self.rbx, self.rcx, self.rdx, self.rsi, self.rdi)
    }

    /// The registers after the result went into the return register: `rax`
    /// holds `result`, the other five are as before.
    pub open spec fn returning(&self, result: usize) -> SyscallRegisters {
        SyscallRegisters { rax: result, ..*self }
    }

    /// The arguments in slot order.
    pub fn arguments(&self) -> (arguments: [usize; 6])
        ensures
            arguments@ == seq![self.rax, self.rbx, self.rcx, self.rdx, self.rsi, self.rdi],
    {
        [self.rax, self.rbx, self.rcx, self.rdx, self.rsi, self.rdi]
    }

    /// Writes `result` into the return register and leaves the others.
    pub fn set_return(&mut self, result: usize)
        ensures
            *final(self) == old(self).returning(result),
    {
        self.rax = result;
    }
}

/// The system-call gate. The six argument registers are handed to
/// `dispatch` in slot order, and what it returns goes into the return
/// register; no other register changes.
pub fn syscall<F>(registers: &mut SyscallRegisters, dispatch: F)
    where F: FnOnce(usize, usize, usize, usize, usize, usize) -> usize,
    requires
        dispatch.requires(old(registers).slots()),
    ensures
        dispatch.ensures(old(registers).slots(), final(registers).rax),
        *final(registers) == old(registers).returning(final(registers).rax),
{
    let result: usize = dispatch(
        registers.rax,
        registers.rbx,
        registers.rcx,
        registers.rdx,
        registers.rsi,
        registers.rdi,
    );
    registers.set_return(result);
}

/// What the scheduler records of a context, as far as the system calls read
/// it.
#[derive(Clone, Copy, Debug, PartialEq, Eq, Structural)]
pub struct Context {
    pub id: usize,
}

/// The identity of the context scheduled on this processor, `current`; the
/// error `NoProcess` where there is none.
pub fn getpid(current: Option<&Context>) -> (result: Result<usize, Error>)
    ensures
        result == (match current {
            Some(context) => Ok::<usize, Error>(context.id),
            None => Err(Error::NoProcess),
        }),
{
    match current {
        Some(context) => Ok(context.id),
        None => Err(Error::NoProcess),
    }
}

/// The validator `convert_slice` may accept the address range `argument`,
/// an address and a length.
pub open spec fn accepts<T, F: Fn(usize, usize) -> Result<T, Error>>(
    convert_slice: F,
    argument: [usize; 2],
) -> bool {
    exists|view: T| convert_slice.ensures((argument@[0], argument@[1]), Ok(view))
}

/// The validator `convert_slice` may refuse the address range `argument`
/// with `error`.
pub open spec fn refuses<T, F: Fn(usize, usize) -> Result<T, Error>>(
    convert_slice: F,
    argument: [usize; 2],
    error: Error,
) -> bool {
    convert_slice.ensures((argument@[0], argument@[1]), Err(error))
}

/// Checks the arguments of an `exec` call. Each argument is an address and
/// a length; `convert_slice` turns such a pair into a view of the caller's
/// memory or refuses it. The arguments are checked in order, and the first
/// refusal is the result; with every argument accepted the result is the
/// placeholder 0. No byte of `path` or of any argument is read here.
pub fn exec<T, F>(path: &[u8], args: &[[usize; 2]], convert_slice: F) -> (result: Result<
    usize,
    Error,
>)
    where F: Fn(usize, usize) -> Result<T, Error>,
    requires
        forall|i: int|
            0 <= i < args@.len() ==> convert_slice.requires(
                (#[trigger] args@[i]@[0], args@[i]@[1]),
            ),
    ensures
        match result {
            Ok(value) => value == 0 && forall|i: int|
                0 <= i < args@.len() ==> accepts(convert_slice, #[trigger] args@[i]),
            Err(error) => exists|i: int|
                0 <= i < args@.len() && refuses(convert_slice, #[trigger] args@[i], error)
                    && forall|j: int| 0 <= j < i ==> accepts(convert_slice, #[trigger] args@[j]),
        },
        (exists|i: int| 0 <= i < args@.len() && !accepts(convert_slice, #[trigger] args@[i]))
            ==> result is Err,
{
    let mut index: usize = 0;
    while index < args.len()
        invariant
            index <= args@.len(),
            forall|i: int|
                0 <= i < args@.len() ==> convert_slice.requires(
                    (#[trigger] args@[i]@[0], args@[i]@[1]),
                ),
            forall|j: int| 0 <= j < index ==> accepts(convert_slice, #[trigger] args@[j]),
        decreases args@.len() - index,
    {
        let arg: &[usize; 2] = &args[index];
        match convert_slice(arg[0], arg[1]) {
            Ok(_view) => {},
            Err(error) => {
                assert(refuses(convert_slice, args@[index as int], error));
                return Err(error);
            },
        }
        index += 1;
    }
    Ok(0)
}

} // verus!
