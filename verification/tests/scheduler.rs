use rustchip::cpu::{Cpu, CycleReport, Instruction};
use rustchip::display::Display;
use rustchip::keypad::Keypad;
use rustchip::machine::Fault;
use rustchip::scheduler::{
    instruction_step, timer_step, Cadence, Due, Scheduler, Step, CPU_PERIOD_NANOS,
    TIMER_PERIOD_NANOS,
};

fn program(instructions: &[Instruction]) -> Vec<u8> {
    let mut bytes = Vec::new();
    for instruction in instructions {
        let opcode = instruction.opcode();
        bytes.push((opcode >> 8) as u8);
        bytes.push((opcode & 0xFF) as u8);
    }
    bytes
}

fn registers(cpu: &Cpu) -> [u8; 16] {
    let mut v = [0u8; 16];
    for (index, slot) in v.iter_mut().enumerate() {
        *slot = cpu.get_register(index);
    }
    v
}

fn memory(cpu: &Cpu) -> Vec<u8> {
    (0..4096).map(|addr| cpu.read_byte_from_mem(addr)).collect()
}

#[test]
fn four_cycles_add_and_store_bcd() {
    let mut cpu = Cpu::new();
    let mut keypad = Keypad::new();
    let mut display = Display::new();
    let rom = program(&[
        Instruction::SetVxToByte(0, 0x0A),
        Instruction::AddByteToVx(0, 0x0B),
        Instruction::SetIToAddress(0x300),
        Instruction::StoreBcdOfVxAtI(0),
    ]);
    assert_eq!(rom, vec![0x60, 0x0A, 0x70, 0x0B, 0xA3, 0x00, 0xF0, 0x33]);
    cpu.load_rom(&rom, 0x200);
    for _ in 0..4 {
        assert_eq!(cpu.check_cycle(&keypad), None);
        cpu.cycle(&mut keypad, &mut display);
    }
    assert_eq!(cpu.get_register(0), 0x15);
    assert_eq!(cpu.get_i(), 0x300);
    assert_eq!(cpu.get_pc(), 0x208);
    assert_eq!(cpu.read_byte_from_mem(0x300), 0);
    assert_eq!(cpu.read_byte_from_mem(0x301), 2);
    assert_eq!(cpu.read_byte_from_mem(0x302), 1);
    assert_eq!(cpu.read_byte_from_mem(0x303), 0);
}

#[test]
fn cycle_reports_the_instruction_and_the_tone() {
    let mut cpu = Cpu::new();
    let mut keypad = Keypad::new();
    let mut display = Display::new();
    let rom = program(&[
        Instruction::SetVxToByte(1, 0x02),
        Instruction::SetSoundTimerToVx(1),
        Instruction::Invalid(0x0123),
    ]);
    cpu.load_rom(&rom, 0x200);
    let report = cpu.cycle(&mut keypad, &mut display);
    assert_eq!(report, CycleReport { executed: Instruction::SetVxToByte(1, 0x02), tone: false });
    let report = cpu.cycle(&mut keypad, &mut display);
    assert_eq!(report, CycleReport { executed: Instruction::SetSoundTimerToVx(1), tone: true });
    let report = cpu.cycle(&mut keypad, &mut display);
    assert_eq!(report, CycleReport { executed: Instruction::Invalid(0x0123), tone: true });
    assert_eq!(cpu.get_pc(), 0x206);
    timer_step(&mut cpu, &display);
    timer_step(&mut cpu, &display);
    let report = cpu.cycle(&mut keypad, &mut display);
    assert_eq!(report, CycleReport { executed: Instruction::Invalid(0x0000), tone: false });
}

#[test]
fn a_cycle_past_the_end_of_memory_is_a_fault() {
    let mut cpu = Cpu::new();
    let mut keypad = Keypad::new();
    let mut display = Display::new();
    cpu.set_pc(4095);
    assert_eq!(cpu.check_cycle(&keypad), Some(Fault::MemoryOutOfRange));
    assert_eq!(cpu.try_cycle(&mut keypad, &mut display), Err(Fault::MemoryOutOfRange));
    assert_eq!(cpu.get_pc(), 4095);
    cpu.set_pc(0xFFFF);
    assert_eq!(cpu.try_cycle(&mut keypad, &mut display), Err(Fault::MemoryOutOfRange));
    cpu.set_pc(4094);
    assert_eq!(
        cpu.try_cycle(&mut keypad, &mut display),
        Ok(CycleReport { executed: Instruction::Invalid(0x0000), tone: false })
    );
    assert_eq!(cpu.get_pc(), 4096);
    assert_eq!(cpu.try_cycle(&mut keypad, &mut display), Err(Fault::MemoryOutOfRange));
}

#[test]
fn a_cycle_finds_the_fault_of_its_instruction() {
    let mut cpu = Cpu::new();
    let mut keypad = Keypad::new();
    let mut display = Display::new();
    cpu.load_rom(&program(&[Instruction::ReturnFromSubroutine]), 0x200);
    assert_eq!(cpu.try_cycle(&mut keypad, &mut display), Err(Fault::StackUnderflow));
    assert_eq!(cpu.get_pc(), 0x200);
    assert_eq!(instruction_step(&mut cpu, &mut keypad, &mut display), Err(Fault::StackUnderflow));
    assert_eq!(cpu.get_pc(), 0x200);
}

#[test]
fn a_program_that_calls_itself_overflows_on_the_seventeenth_call() {
    let mut cpu = Cpu::new();
    let mut keypad = Keypad::new();
    let mut display = Display::new();
    cpu.load_rom(&program(&[Instruction::CallSubroutine(0x200)]), 0x200);
    for depth in 0..16 {
        assert_eq!(cpu.stack_depth(), depth);
        assert_eq!(
            instruction_step(&mut cpu, &mut keypad, &mut display),
            Ok(Step::Executed(CycleReport {
                executed: Instruction::CallSubroutine(0x200),
                tone: false
            }))
        );
    }
    assert_eq!(cpu.stack_depth(), 16);
    assert_eq!(instruction_step(&mut cpu, &mut keypad, &mut display), Err(Fault::StackOverflow));
    assert_eq!(cpu.stack_depth(), 16);
}

#[test]
fn five_ticks_empty_a_timer_of_five() {
    let mut cpu = Cpu::new();
    let mut keypad = Keypad::new();
    let mut display = Display::new();
    cpu.set_register(1, 5);
    cpu.execute_instruction(Instruction::SetDelayTimerToVx(1), &mut keypad, &mut display);
    assert_eq!(cpu.get_delay_timer(), 5);
    for left in [4u8, 3, 2, 1, 0] {
        timer_step(&mut cpu, &display);
        assert_eq!(cpu.get_delay_timer(), left);
    }
    timer_step(&mut cpu, &display);
    assert_eq!(cpu.get_delay_timer(), 0);
    assert_eq!(cpu.get_sound_timer(), 0);
}

#[test]
fn the_timers_count_down_independently() {
    let mut cpu = Cpu::new();
    let mut keypad = Keypad::new();
    let mut display = Display::new();
    cpu.set_register(1, 2);
    cpu.set_register(2, 4);
    cpu.execute_instruction(Instruction::SetDelayTimerToVx(1), &mut keypad, &mut display);
    cpu.execute_instruction(Instruction::SetSoundTimerToVx(2), &mut keypad, &mut display);
    let before = registers(&cpu);
    let pc = cpu.get_pc();
    timer_step(&mut cpu, &display);
    assert_eq!((cpu.get_delay_timer(), cpu.get_sound_timer()), (1, 3));
    timer_step(&mut cpu, &display);
    assert_eq!((cpu.get_delay_timer(), cpu.get_sound_timer()), (0, 2));
    timer_step(&mut cpu, &display);
    assert_eq!((cpu.get_delay_timer(), cpu.get_sound_timer()), (0, 1));
    timer_step(&mut cpu, &display);
    assert_eq!((cpu.get_delay_timer(), cpu.get_sound_timer()), (0, 0));
    timer_step(&mut cpu, &display);
    assert_eq!((cpu.get_delay_timer(), cpu.get_sound_timer()), (0, 0));
    assert_eq!(registers(&cpu), before);
    assert_eq!(cpu.get_pc(), pc);
}

#[test]
fn decrement_stops_at_zero() {
    let mut cpu = Cpu::new();
    cpu.decrement_delay_timer();
    cpu.decrement_sound_timer();
    assert_eq!(cpu.get_delay_timer(), 0);
    assert_eq!(cpu.get_sound_timer(), 0);
    let mut keypad = Keypad::new();
    let mut display = Display::new();
    cpu.set_register(0, 255);
    cpu.execute_instruction(Instruction::SetDelayTimerToVx(0), &mut keypad, &mut display);
    cpu.decrement_delay_timer();
    assert_eq!(cpu.get_delay_timer(), 254);
    assert_eq!(cpu.get_sound_timer(), 0);
}

#[test]
fn timer_step_asks_for_a_redraw_while_the_display_is_dirty() {
    let mut cpu = Cpu::new();
    let mut display = Display::new();
    assert!(!timer_step(&mut cpu, &display));
    display.set_pixel(1, 1, true);
    assert!(timer_step(&mut cpu, &display));
    assert!(timer_step(&mut cpu, &display));
    assert!(display.needs_update());
    display.set_needs_update(false);
    assert!(!timer_step(&mut cpu, &display));
}

#[test]
fn waiting_for_a_key_changes_nothing_until_a_key_is_down() {
    let mut cpu = Cpu::new();
    let mut keypad = Keypad::new();
    let mut display = Display::new();
    cpu.load_rom(
        &program(&[Instruction::WaitForKeyPressAndStoreInVx(3), Instruction::SetVxToByte(4, 9)]),
        0x200,
    );
    assert_eq!(
        instruction_step(&mut cpu, &mut keypad, &mut display),
        Ok(Step::Executed(CycleReport {
            executed: Instruction::WaitForKeyPressAndStoreInVx(3),
            tone: false
        }))
    );
    assert!(cpu.is_halted());
    assert_eq!(cpu.get_wait_register(), Some(3));
    let registers_before = registers(&cpu);
    let memory_before = memory(&cpu);
    let pc_before = cpu.get_pc();
    for _ in 0..50 {
        assert_eq!(instruction_step(&mut cpu, &mut keypad, &mut display), Ok(Step::Waiting));
        assert!(cpu.is_halted());
        assert_eq!(cpu.get_wait_register(), Some(3));
        assert_eq!(registers(&cpu), registers_before);
        assert_eq!(memory(&cpu), memory_before);
        assert_eq!(cpu.get_pc(), pc_before);
        assert_eq!(cpu.get_i(), 0);
        assert_eq!(cpu.stack_depth(), 0);
        assert!(!display.needs_update());
    }
    keypad.press(7);
    assert_eq!(instruction_step(&mut cpu, &mut keypad, &mut display), Ok(Step::Resumed(7)));
    assert_eq!(cpu.get_register(3), 7);
    assert!(!cpu.is_halted());
    assert_eq!(cpu.get_wait_register(), None);
    assert_eq!(cpu.get_pc(), 0x202);
    assert_eq!(memory(&cpu), memory_before);
    assert!(keypad.is_pressed(7));
    assert_eq!(
        instruction_step(&mut cpu, &mut keypad, &mut display),
        Ok(Step::Executed(CycleReport { executed: Instruction::SetVxToByte(4, 9), tone: false }))
    );
    assert_eq!(cpu.get_register(4), 9);
    assert_eq!(cpu.get_pc(), 0x204);
}

#[test]
fn the_lowest_key_down_ends_the_wait() {
    let mut cpu = Cpu::new();
    let mut keypad = Keypad::new();
    let mut display = Display::new();
    cpu.execute_instruction(
        Instruction::WaitForKeyPressAndStoreInVx(0xF),
        &mut keypad,
        &mut display,
    );
    keypad.press(0xC);
    keypad.press(0x2);
    assert_eq!(instruction_step(&mut cpu, &mut keypad, &mut display), Ok(Step::Resumed(2)));
    assert_eq!(cpu.get_register(0xF), 2);
}

#[test]
fn the_timers_run_while_the_machine_waits() {
    let mut cpu = Cpu::new();
    let mut keypad = Keypad::new();
    let mut display = Display::new();
    cpu.set_register(1, 3);
    cpu.execute_instruction(Instruction::SetDelayTimerToVx(1), &mut keypad, &mut display);
    cpu.execute_instruction(
        Instruction::WaitForKeyPressAndStoreInVx(2),
        &mut keypad,
        &mut display,
    );
    assert_eq!(instruction_step(&mut cpu, &mut keypad, &mut display), Ok(Step::Waiting));
    timer_step(&mut cpu, &display);
    assert_eq!(cpu.get_delay_timer(), 2);
    assert_eq!(instruction_step(&mut cpu, &mut keypad, &mut display), Ok(Step::Waiting));
    timer_step(&mut cpu, &display);
    assert_eq!(cpu.get_delay_timer(), 1);
    assert!(cpu.is_halted());
}

#[test]
fn a_halted_machine_without_a_waiting_register_stays_halted() {
    let mut cpu = Cpu::new();
    let mut keypad = Keypad::new();
    let mut display = Display::new();
    cpu.execute_instruction(
        Instruction::WaitForKeyPressAndStoreInVx(2),
        &mut keypad,
        &mut display,
    );
    cpu.set_wait_register(None);
    keypad.press(1);
    assert_eq!(instruction_step(&mut cpu, &mut keypad, &mut display), Ok(Step::Waiting));
    assert!(cpu.is_halted());
    assert_eq!(registers(&cpu), [0u8; 16]);
    cpu.resume();
    assert!(!cpu.is_halted());
}

#[test]
fn ending_a_wait_at_the_top_of_the_address_range_is_a_fault() {
    let mut cpu = Cpu::new();
    let mut keypad = Keypad::new();
    let mut display = Display::new();
    cpu.set_pc(0xFFFE);
    cpu.execute_instruction(
        Instruction::WaitForKeyPressAndStoreInVx(2),
        &mut keypad,
        &mut display,
    );
    assert_eq!(instruction_step(&mut cpu, &mut keypad, &mut display), Ok(Step::Waiting));
    keypad.press(1);
    assert_eq!(instruction_step(&mut cpu, &mut keypad, &mut display), Err(Fault::AddressOverflow));
    assert!(cpu.is_halted());
    assert_eq!(cpu.get_register(2), 0);
}

#[test]
fn periods_are_500_hz_and_60_hz() {
    assert_eq!(CPU_PERIOD_NANOS, 2_000_000);
    assert_eq!(500 * CPU_PERIOD_NANOS, 1_000_000_000);
    assert_eq!(TIMER_PERIOD_NANOS, 16_666_667);
    assert!(60 * (TIMER_PERIOD_NANOS - 1) < 1_000_000_000);
    assert!(60 * TIMER_PERIOD_NANOS >= 1_000_000_000);
    let scheduler = Scheduler::new(1234);
    assert_eq!(scheduler.instruction, Cadence { period: 2_000_000, last_tick: 1234 });
    assert_eq!(scheduler.timer, Cadence { period: 16_666_667, last_tick: 1234 });
}

#[test]
fn a_cadence_ticks_once_a_period() {
    let mut cadence = Cadence::new(100, 1000);
    assert!(!cadence.poll(1000));
    assert!(!cadence.poll(1099));
    assert_eq!(cadence, Cadence { period: 100, last_tick: 1000 });
    assert!(cadence.poll(1100));
    assert_eq!(cadence, Cadence { period: 100, last_tick: 1100 });
    assert!(!cadence.poll(1100));
    assert!(!cadence.poll(1199));
    assert!(cadence.poll(1200));
    assert_eq!(cadence.last_tick, 1200);
}

#[test]
fn a_late_cadence_catches_up_one_tick_a_call_without_drift() {
    let mut cadence = Cadence::new(100, 0);
    assert!(cadence.poll(350));
    assert_eq!(cadence.last_tick, 100);
    assert!(cadence.poll(351));
    assert_eq!(cadence.last_tick, 200);
    assert!(cadence.poll(352));
    assert_eq!(cadence.last_tick, 300);
    assert!(!cadence.poll(353));
    assert_eq!(cadence.last_tick, 300);
    assert!(cadence.poll(400));
    assert_eq!(cadence.last_tick, 400);
}

#[test]
fn a_cadence_asked_before_its_start_does_not_tick() {
    let mut cadence = Cadence::new(100, 1000);
    assert!(!cadence.poll(0));
    assert!(!cadence.poll(999));
    assert_eq!(cadence, Cadence { period: 100, last_tick: 1000 });
    let mut still = Cadence::new(0, 1000);
    assert!(!still.poll(999));
    assert!(still.poll(1000));
    assert_eq!(still.last_tick, 1000);
}

#[test]
fn a_cadence_near_the_end_of_time_does_not_overflow() {
    let mut cadence = Cadence::new(10, u64::MAX - 15);
    assert!(cadence.poll(u64::MAX));
    assert_eq!(cadence.last_tick, u64::MAX - 5);
    assert!(!cadence.poll(u64::MAX));
    assert_eq!(cadence.last_tick, u64::MAX - 5);
}

#[test]
fn the_scheduler_runs_about_eight_instruction_steps_per_timer_step() {
    let mut scheduler = Scheduler::new(0);
    let mut instruction_steps = 0u32;
    let mut timer_steps = 0u32;
    let mut now = 0u64;
    while now <= 1_000_000_000 {
        let due = scheduler.poll(now);
        if due.instruction {
            instruction_steps += 1;
        }
        if due.timer {
            timer_steps += 1;
        }
        now += 1_000_000;
    }
    assert_eq!(instruction_steps, 500);
    assert_eq!(timer_steps, 59);
    assert_eq!(scheduler.instruction.last_tick, 1_000_000_000);
    assert_eq!(scheduler.timer.last_tick, 59 * 16_666_667);
}

#[test]
fn the_scheduler_polls_both_cadences() {
    let mut scheduler = Scheduler::new(0);
    assert_eq!(scheduler.poll(1_999_999), Due { instruction: false, timer: false });
    assert_eq!(scheduler.poll(2_000_000), Due { instruction: true, timer: false });
    assert_eq!(scheduler.poll(16_666_667), Due { instruction: true, timer: true });
    assert_eq!(scheduler.instruction.last_tick, 4_000_000);
    assert_eq!(scheduler.timer.last_tick, 16_666_667);
}
