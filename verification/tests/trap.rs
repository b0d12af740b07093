use trap_gate::idt::Handler;
use trap_gate::trap::{has_error_code, Cpu, InterruptFrame, ScratchRegisters};

fn registers(seed: u64) -> ScratchRegisters {
    ScratchRegisters {
        rax: seed + 1,
        rcx: seed + 2,
        rdx: seed + 3,
        rdi: seed + 4,
        rsi: seed + 5,
        r8: seed + 6,
        r9: seed + 7,
        r10: seed + 8,
        r11: seed + 9,
    }
}

fn frame() -> InterruptFrame {
    InterruptFrame { rip: 0x40_1000, cs: 0x23, rflags: 0x202, rsp: 0x7fff_f000, ss: 0x1b }
}

fn busy_cpu() -> Cpu {
    let mut cpu = Cpu::new(registers(100));
    cpu.stack.push(0xaaaa);
    cpu.stack.push(0xbbbb);
    cpu.stack.push(0xcccc);
    cpu
}

#[test]
fn only_the_two_faults_carry_an_error_code() {
    assert!(has_error_code(Handler::ProtectionFault));
    assert!(has_error_code(Handler::PageFault));
    assert!(!has_error_code(Handler::Exception));
    assert!(!has_error_code(Handler::Blank));
    assert!(!has_error_code(Handler::Syscall));
}

#[test]
fn delivery_pushes_the_frame() {
    let mut cpu = busy_cpu();
    cpu.deliver(frame(), None);
    assert_eq!(cpu.depth(), 8);
    assert_eq!(cpu.stack, vec![0xaaaa, 0xbbbb, 0xcccc, 0x1b, 0x7fff_f000, 0x202, 0x23, 0x40_1000]);
    assert_eq!(cpu.registers, registers(100));
}

#[test]
fn delivery_pushes_the_error_code_last() {
    let mut cpu = busy_cpu();
    cpu.deliver(frame(), Some(0x10));
    assert_eq!(cpu.depth(), 9);
    assert_eq!(
        cpu.stack,
        vec![0xaaaa, 0xbbbb, 0xcccc, 0x1b, 0x7fff_f000, 0x202, 0x23, 0x40_1000, 0x10]
    );
}

#[test]
fn scratch_registers_are_saved_in_order() {
    let mut cpu = Cpu::new(registers(0));
    cpu.push_scratch();
    assert_eq!(cpu.stack, vec![1, 2, 3, 4, 5, 6, 7, 8, 9]);
    cpu.registers = registers(50);
    cpu.pop_scratch();
    assert_eq!(cpu.registers, registers(0));
    assert_eq!(cpu.depth(), 0);
}

#[test]
fn interrupt_return_pops_the_frame() {
    let mut cpu = busy_cpu();
    cpu.deliver(frame(), None);
    assert_eq!(cpu.iretq(), frame());
    assert_eq!(cpu.stack, vec![0xaaaa, 0xbbbb, 0xcccc]);
}

#[test]
fn error_code_is_popped_on_its_own() {
    let mut cpu = busy_cpu();
    cpu.deliver(frame(), Some(0xe77));
    assert_eq!(cpu.pop_error_code(), 0xe77);
    assert_eq!(cpu.depth(), 8);
    assert_eq!(cpu.iretq(), frame());
}

#[test]
fn plain_trampoline_restores_registers_and_stack() {
    let mut cpu = busy_cpu();
    cpu.deliver(frame(), None);
    let resumed = cpu.interrupt(registers(9000));
    assert_eq!(resumed, frame());
    assert_eq!(cpu.registers, registers(100));
    assert_eq!(cpu.stack, vec![0xaaaa, 0xbbbb, 0xcccc]);
}

#[test]
fn error_trampoline_restores_registers_and_stack() {
    let mut cpu = busy_cpu();
    cpu.deliver(frame(), Some(0x18));
    let (code, resumed) = cpu.interrupt_error(registers(9000));
    assert_eq!(code, 0x18);
    assert_eq!(resumed, frame());
    assert_eq!(cpu.registers, registers(100));
    assert_eq!(cpu.stack, vec![0xaaaa, 0xbbbb, 0xcccc]);
}

#[test]
fn protection_fault_leaves_the_stack_at_its_depth() {
    let mut cpu = busy_cpu();
    let before = cpu.depth();
    let (code, resumed) = cpu.trap(Handler::ProtectionFault, frame(), 0x2b, registers(7));
    assert_eq!(cpu.depth(), before);
    assert_eq!(cpu.stack, vec![0xaaaa, 0xbbbb, 0xcccc]);
    assert_eq!(cpu.registers, registers(100));
    assert_eq!(code, Some(0x2b));
    assert_eq!(resumed, frame());
}

#[test]
fn page_fault_leaves_the_stack_at_its_depth() {
    let mut cpu = Cpu::new(registers(1));
    let (code, resumed) = cpu.trap(Handler::PageFault, frame(), 0x6, registers(7));
    assert_eq!(cpu.depth(), 0);
    assert_eq!(cpu.registers, registers(1));
    assert_eq!(code, Some(0x6));
    assert_eq!(resumed, frame());
}

#[test]
fn traps_without_error_code_leave_the_stack_at_its_depth() {
    for handler in [Handler::Exception, Handler::Blank] {
        let mut cpu = busy_cpu();
        let (code, resumed) = cpu.trap(handler, frame(), 0xffff, registers(7));
        assert_eq!(cpu.depth(), 3);
        assert_eq!(cpu.registers, registers(100));
        assert_eq!(code, None);
        assert_eq!(resumed, frame());
    }
}

#[test]
fn nested_traps_unwind_in_turn() {
    let mut cpu = busy_cpu();
    cpu.deliver(frame(), None);
    cpu.push_scratch();
    let inner = InterruptFrame { rip: 1, cs: 8, rflags: 2, rsp: 3, ss: 0x10 };
    let (code, resumed) = cpu.trap(Handler::PageFault, inner, 4, registers(1));
    assert_eq!((code, resumed), (Some(4), inner));
    cpu.pop_scratch();
    assert_eq!(cpu.iretq(), frame());
    assert_eq!(cpu.depth(), 3);
    assert_eq!(cpu.registers, registers(100));
}

#[test]
fn system_call_returns_its_result_in_rax() {
    let mut cpu = busy_cpu();
    let mut before = registers(100);
    before.rax = 20;
    cpu.registers = before;
    let mut left = registers(7);
    left.rax = 77;
    let (code, resumed) = cpu.trap(Handler::Syscall, frame(), 0xffff, left);
    assert_eq!(cpu.registers.rax, 77);
    assert_eq!(cpu.registers, ScratchRegisters { rax: 77, ..registers(100) });
    assert_eq!(cpu.stack, vec![0xaaaa, 0xbbbb, 0xcccc]);
    assert_eq!(code, None);
    assert_eq!(resumed, frame());
}

#[test]
fn system_call_entry_saves_nothing() {
    let mut cpu = busy_cpu();
    cpu.deliver(frame(), None);
    let mut left = registers(7);
    left.rax = 0;
    let resumed = cpu.syscall_gate(left);
    assert_eq!(resumed, frame());
    assert_eq!(cpu.registers, ScratchRegisters { rax: 0, ..registers(100) });
    assert_eq!(cpu.depth(), 3);
}
