use cpu6502::{Cpu, CpuError, Regs};

#[test]
fn it_works() {
    assert_eq!(2 + 2, 4);
}

fn cpu_at(pc: u16) -> Cpu {
    // Step over `pc` one-byte NOPs.
    let mem = vec![0xEAu8; pc as usize];
    let mut cpu = Cpu::new();
    while cpu.regs().pc < pc {
        cpu.execute(&mem).unwrap();
    }
    cpu
}

#[test]
fn new_cpu_is_zeroed() {
    let cpu = Cpu::new();
    assert_eq!(cpu.arch(), "NES-6502");
    assert_eq!(
        cpu.regs(),
        Regs { a: 0, x: 0, y: 0, pc: 0, s: 0, p: 0 }
    );
    assert_eq!(Regs::default(), cpu.regs());
}

#[test]
fn step_over_each_operand_size() {
    // NOP; LDA #$01; JMP $1234; LDA #$02
    let mem = [0xEAu8, 0xA9, 0x01, 0x4C, 0x34, 0x12, 0xA9, 0x02];
    let mut cpu = Cpu::new();
    assert_eq!(cpu.execute(&mem), Ok(()));
    assert_eq!(cpu.regs().pc, 1);
    assert_eq!(cpu.execute(&mem), Ok(()));
    assert_eq!(cpu.regs().pc, 3);
    assert_eq!(cpu.execute(&mem), Ok(()));
    assert_eq!(cpu.regs().pc, 6);
    assert_eq!(cpu.execute(&mem), Ok(()));
    assert_eq!(cpu.regs().pc, 8);
    let regs = cpu.regs();
    assert_eq!((regs.a, regs.x, regs.y, regs.s, regs.p), (0, 0, 0, 0, 0));
}

#[test]
fn indirect_jump_steps_three_bytes() {
    let mem = [0x6Cu8, 0x00, 0x02];
    let mut cpu = Cpu::new();
    assert_eq!(cpu.execute(&mem), Ok(()));
    assert_eq!(cpu.regs().pc, 3);
}

#[test]
fn step_past_end_of_memory_fails() {
    let mut cpu = Cpu::new();
    assert_eq!(cpu.execute(&[]), Err(CpuError::OutOfBounds));
    assert_eq!(cpu.regs().pc, 0);
}

#[test]
fn step_with_truncated_operand_fails_and_changes_nothing() {
    // JMP with only one of its two operand bytes present.
    let mem = [0xEAu8, 0x4C, 0x34];
    let mut cpu = Cpu::new();
    assert_eq!(cpu.execute(&mem), Ok(()));
    let before = cpu.regs();
    assert_eq!(cpu.execute(&mem), Err(CpuError::OutOfBounds));
    assert_eq!(cpu.regs(), before);
    assert_eq!(cpu.regs().pc, 1);
}

#[test]
fn step_with_exactly_enough_bytes_succeeds() {
    let mem = [0xEAu8, 0xEA, 0xA9, 0x05];
    let mut cpu = cpu_at(2);
    assert_eq!(cpu.regs().pc, 2);
    assert_eq!(cpu.execute(&mem), Ok(()));
    assert_eq!(cpu.regs().pc, 4);
    assert_eq!(cpu.execute(&mem), Err(CpuError::OutOfBounds));
    assert_eq!(cpu.regs().pc, 4);
}

#[test]
fn program_counter_wraps_at_the_top_of_memory() {
    let mut mem = vec![0xEAu8; 0x10000];
    mem[0] = 0x4C;
    let mut cpu = cpu_at(0xFFFF);
    assert_eq!(cpu.regs().pc, 0xFFFF);
    assert_eq!(cpu.execute(&mem), Ok(()));
    assert_eq!(cpu.regs().pc, 0);
    assert_eq!(cpu.execute(&mem), Ok(()));
    assert_eq!(cpu.regs().pc, 3);
}

#[test]
fn run_is_not_implemented() {
    let mut cpu = Cpu::new();
    let mut mem = [0xEAu8; 4];
    assert_eq!(cpu.run(&mut mem), Err(CpuError::NotImplemented));
    assert_eq!(cpu.regs().pc, 0);
    assert_eq!(mem, [0xEAu8; 4]);
}
