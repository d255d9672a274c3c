use wms_sound::{
    append_samples, Action, CaptureConfig, Command, Driver, DriverError, Event, Phase, Registers,
    StepOutcome, Trace, WmsBoard, WmsState,
};

fn step(pc: u16, cycles: usize, dac: u8) -> Event {
    Event::Stepped { outcome: StepOutcome::Step { pc, cycles }, dac }
}

fn ready_to_capture(sample_count: usize) -> Driver {
    let mut d = Driver::new(CaptureConfig { warmup_steps: 0, sound_code: 0x19, sample_count });
    assert_eq!(d.action(), Action::Reset);
    d.advance(Event::ResetDone);
    assert_eq!(d.action(), Action::RequestSound(!0x19));
    d.advance(Event::SoundRequested);
    d
}

#[test]
fn fan_out_four_cycles() {
    let mut d = ready_to_capture(64);
    d.advance(step(0xf800, 2, 0x01));
    d.advance(step(0xf802, 4, 0xab));
    assert_eq!(d.samples(), &vec![0x01, 0x01, 0xab, 0xab, 0xab, 0xab]);
    assert_eq!(d.phase(), Phase::Capturing);
}

#[test]
fn append_samples_caps_at_limit() {
    let mut buf = vec![1u8];
    append_samples(&mut buf, 0xab, 4, 10);
    assert_eq!(buf, vec![1, 0xab, 0xab, 0xab, 0xab]);
    append_samples(&mut buf, 0xcd, 9, 7);
    assert_eq!(buf, vec![1, 0xab, 0xab, 0xab, 0xab, 0xcd, 0xcd]);
    append_samples(&mut buf, 0xef, 0, 7);
    assert_eq!(buf.len(), 7);
}

#[test]
fn capture_length_is_exact() {
    let mut d = ready_to_capture(64);
    let mut steps = 0;
    while d.action() == Action::Step {
        d.advance(step(0xf800, 5, steps as u8));
        steps += 1;
    }
    assert_eq!(d.action(), Action::Finish);
    assert_eq!(steps, 13);
    let s = d.into_samples();
    assert_eq!(s.len(), 64);
    assert_eq!(s[63], 12);
    assert_eq!(s[60], 12);
    assert_eq!(s[59], 11);
}

#[test]
fn zero_samples_finish_at_once() {
    let d = ready_to_capture(0);
    assert_eq!(d.phase(), Phase::Done);
    assert_eq!(d.action(), Action::Finish);
    assert!(d.samples().is_empty());
}

#[test]
fn interrupt_acknowledgements_add_no_samples() {
    let mut d = ready_to_capture(8);
    d.advance(Event::Stepped { outcome: StepOutcome::Irq(0xf900), dac: 5 });
    d.advance(Event::Stepped { outcome: StepOutcome::Nmi(0xf900), dac: 5 });
    d.advance(Event::Stepped { outcome: StepOutcome::Reset(0xf900), dac: 5 });
    assert!(d.samples().is_empty());
    d.advance(step(0xf900, 3, 5));
    assert_eq!(d.samples(), &vec![5, 5, 5]);
}

#[test]
fn warm_up_runs_configured_steps() {
    let config = CaptureConfig { warmup_steps: 100, sound_code: 0x19, sample_count: 16 };
    let mut d = Driver::new(config);
    assert_eq!(d.config(), config);
    assert_eq!(d.phase(), Phase::Uninitialized);
    d.advance(Event::ResetDone);
    let mut n = 0;
    while d.action() == Action::Step {
        d.advance(step(0xf800, 4, 0x99));
        n += 1;
    }
    assert_eq!(n, 100);
    assert!(d.samples().is_empty());
    assert_eq!(d.action(), Action::RequestSound(0xe6));
    assert_eq!(d.phase(), Phase::AwaitingInterrupt);
}

#[test]
fn out_of_turn_events_are_ignored() {
    let mut d = Driver::new(CaptureConfig { warmup_steps: 2, sound_code: 1, sample_count: 4 });
    d.advance(step(0xf800, 4, 1));
    d.advance(Event::SoundRequested);
    assert_eq!(d.phase(), Phase::Uninitialized);
    d.advance(Event::ResetDone);
    assert_eq!(d.phase(), Phase::WarmingUp(0));
    d.advance(Event::ResetDone);
    d.advance(Event::SoundRequested);
    assert_eq!(d.phase(), Phase::WarmingUp(0));
    d.advance(step(0xf800, 4, 1));
    assert_eq!(d.phase(), Phase::WarmingUp(1));
}

#[test]
fn undecodable_instruction_aborts() {
    let mut d = ready_to_capture(32);
    d.advance(step(0xf800, 2, 7));
    d.advance(Event::Undecodable(0xf802));
    let err = DriverError::UnrecognizedInstruction(0xf802);
    assert_eq!(d.phase(), Phase::Failed(err));
    assert_eq!(d.action(), Action::Abort(err));
    d.advance(step(0xf800, 2, 7));
    assert_eq!(d.action(), Action::Abort(err));
    assert_eq!(d.samples().len(), 2);
}

#[test]
fn engine_failure_aborts() {
    let mut d = Driver::new(CaptureConfig { warmup_steps: 3, sound_code: 1, sample_count: 4 });
    d.advance(Event::EngineFailed);
    assert_eq!(d.action(), Action::Abort(DriverError::EngineStepFailure));
}

#[test]
fn done_run_stays_done() {
    let mut d = ready_to_capture(2);
    d.advance(step(0xf800, 2, 9));
    assert_eq!(d.action(), Action::Finish);
    d.advance(Event::EngineFailed);
    d.advance(step(0xf800, 2, 1));
    assert_eq!(d.action(), Action::Finish);
    assert_eq!(d.samples(), &vec![9, 9]);
}

/// Plays the host's part with a scripted firmware: once the sound request is
/// seen, the interrupt handler latches `b` into the DAC and then spins.
#[test]
fn scripted_firmware_fills_buffer_with_dac_byte() {
    let b: u8 = 0x80;
    let mut board = WmsBoard::new();
    let mut rom = vec![0u8; 0x800];
    rom[0x7fe] = 0xf8;
    rom[0x7ff] = 0x00;
    board.upload_rom(&rom).unwrap();
    assert_eq!(board.inspect_word(0xfffe), Ok(0xf800));
    let mut d = Driver::new(CaptureConfig { warmup_steps: 100, sound_code: 0x19, sample_count: 1024 });
    let mut irq = false;
    let mut serviced = false;
    loop {
        match d.action() {
            Action::Reset => d.advance(Event::ResetDone),
            Action::RequestSound(code) => {
                board.set_sfx(code);
                irq = true;
                d.advance(Event::SoundRequested);
            }
            Action::Step => {
                let outcome = if irq && !serviced {
                    serviced = true;
                    assert_eq!(board.inspect_u8(0x402), Ok(!0x19));
                    board.write_u8(0x400, b).unwrap();
                    StepOutcome::Step { pc: 0xf800, cycles: 6 }
                } else {
                    StepOutcome::Step { pc: 0xf810, cycles: 3 }
                };
                let dac = board.get_dac();
                d.advance(Event::Stepped { outcome, dac });
            }
            Action::Finish => break,
            Action::Abort(e) => panic!("{:?}", e),
        }
    }
    let s = d.into_samples();
    assert_eq!(s.len(), 1024);
    assert!(s.iter().all(|x| *x == b));
}

#[test]
fn trace_keeps_snapshots_in_order() {
    let mut t = Trace::new();
    assert_eq!(t.len(), 0);
    let regs = Registers { a: 1, b: 2, x: 0x1234, sp: 0x7f, pc: 0xf800, flags: 0xd0 };
    t.add(WmsState::new(10, regs, String::from("aa")));
    t.add(WmsState::new(20, Registers::default(), String::from("bb")));
    assert_eq!(t.len(), 2);
    assert_eq!(t.get(0).cycle(), 10);
    assert_eq!(t.get(0).regs(), regs);
    assert_eq!(t.get(1).sha1(), "bb");
    assert_eq!(Command::default(), Command::Idle);
}
