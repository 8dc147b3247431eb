use lachesis::Context;
use lachesis::Error;
use lachesis::Registers;
use lachesis::ThreadState;

#[test]
fn registers_for_a_fresh_context() {
    let regs = Registers::new(0x7fff_0000, 0x0040_1000);
    assert_eq!(regs.rsp, 0x7fff_0000);
    assert_eq!(regs.rdx, 0x0040_1000);
    assert_eq!(regs.rbx, 0);
    assert_eq!(regs.rbp, 0);
    assert_eq!(regs.r12, 0);
    assert_eq!(regs.r13, 0);
    assert_eq!(regs.r14, 0);
    assert_eq!(regs.r15, 0);
}

#[test]
fn zeroed_registers() {
    let regs = Registers::zeroed();
    assert_eq!(regs, Registers::new(0, 0));
}

#[test]
fn context_new_sets_stack_top_and_state() {
    let base: usize = 0x2000_0000;
    let size: usize = 2 * 1024 * 1024;
    let ctx = Context::new(base, size, 42, 0xabc).unwrap();
    assert_eq!(ctx.id, 42);
    assert_eq!(ctx.state, ThreadState::Ready);
    assert_eq!(ctx.stack_base, base);
    assert_eq!(ctx.stack_size, size);
    assert_eq!(ctx.regs.rsp, (base + size) as u64);
    assert_eq!(ctx.regs.rdx, 0xabc);
}

#[test]
fn context_new_rejects_stack_below_floor() {
    let err = Context::new(0x2000_0000, 64 * 1024 - 1, 1, 0).unwrap_err();
    match err {
        Error::InvalidStackSize { size, min } => {
            assert_eq!(size, 64 * 1024 - 1);
            assert_eq!(min, 64 * 1024);
        }
        other => panic!("unexpected error: {:?}", other),
    }
    // the floor itself is accepted
    assert!(Context::new(0x2000_0000, 64 * 1024, 1, 0).is_ok());
}

#[test]
fn get_regs_reads_and_writes_the_continuation() {
    let mut ctx = Context::new(0x2000_0000, 64 * 1024, 9, 0x77).unwrap();
    assert_eq!(ctx.get_regs().rdx, 0x77);
    let slot = ctx.get_regs_mut();
    slot.rsp = 0x1234;
    assert_eq!(ctx.regs.rsp, 0x1234);
}
