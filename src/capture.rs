use vstd::prelude::*;

verus! {

/// Settings of one capture run.
#[derive(Clone, Copy, Debug, PartialEq, Eq, Structural)]
pub struct CaptureConfig {
    /// Steps run after reset, before the sound is requested, with no capture.
    pub warmup_steps: usize,
    /// Sound effect to request; the selector lines are active low, so the
    /// board is handed its complement.
    pub sound_code: u8,
    /// Number of samples to capture; the buffer ends at exactly this length.
    pub sample_count: usize,
}

/// What the CPU engine reported for one step.
#[derive(Clone, Copy, Debug, PartialEq, Eq, Structural)]
pub enum StepOutcome {
    /// An instruction at `pc` ran and took `cycles` clock cycles.
    Step { pc: u16, cycles: usize },
    /// An interrupt request was taken; the vector led to this address.
    Irq(u16),
    /// A reset was taken; the vector led to this address.
    Reset(u16),
    /// A non-maskable interrupt was taken; the vector led to this address.
    Nmi(u16),
}

/// Why a capture run stopped without its samples.
#[derive(Clone, Copy, Debug, PartialEq, Eq, Structural)]
pub enum DriverError {
    /// The instruction at this address could not be decoded.
    UnrecognizedInstruction(u16),
    /// The CPU engine failed to reset or to step.
    EngineStepFailure,
}

/// Where a capture run stands.
#[derive(Clone, Copy, Debug, PartialEq, Eq, Structural)]
pub enum Phase {
    /// Nothing has happened yet; the machine is to be reset.
    Uninitialized,
    /// The machine was reset and this many warm-up steps have run.
    WarmingUp(usize),
    /// Warm-up is over; the sound request is to be made.
    AwaitingInterrupt,
    /// The sound was requested; every step now adds samples.
    Capturing,
    /// The buffer holds the requested number of samples.
    Done,
    /// The run was stopped by an error.
    Failed(DriverError),
}

/// What the host is to do next with the machine.
#[derive(Clone, Copy, Debug, PartialEq, Eq, Structural)]
pub enum Action {
    /// Reset the CPU and zero its cycle counter.
    Reset,
    /// Run one CPU step, then report it with the DAC byte read afterwards.
    Step,
    /// Present this selector with `set_sfx` and raise the interrupt request.
    RequestSound(u8),
    /// Take the samples: the run is complete.
    Finish,
    /// Give up the run with this error.
    Abort(DriverError),
}

/// What the host reports back after doing an action.
#[derive(Clone, Copy, Debug, PartialEq, Eq, Structural)]
pub enum Event {
    /// The machine was reset.
    ResetDone,
    /// One step ran; `dac` is the board's DAC byte read after it.
    Stepped { outcome: StepOutcome, dac: u8 },
    /// The selector was presented and the interrupt request raised.
    SoundRequested,
    /// The instruction at this address could not be decoded.
    Undecodable(u16),
    /// The CPU engine failed to reset or to step.
    EngineFailed,
}

/// Clock cycles that a step outcome accounts for: interrupt, reset and NMI
/// acknowledgements report none.
pub open spec fn cycles_of(o: StepOutcome) -> nat {
    match o {
        StepOutcome::Step { cycles, .. } => cycles as nat,
        _ => 0,
    }
}

/// `n` copies of the byte `dac`: one sample per clock cycle of a step.
pub open spec fn fan_out(dac: u8, n: nat) -> Seq<u8> {
    Seq::new(n, |i: int| dac)
}

/// `s` cut down to at most `limit` bytes.
pub open spec fn capped(s: Seq<u8>, limit: nat) -> Seq<u8> {
    if s.len() <= limit {
        s
    } else {
        s.take(limit as int)
    }
}

/// Appends `cycles` copies of `dac` to `buf`, stopping once `buf` holds
/// `limit` bytes.
pub fn append_samples(buf: &mut Vec<u8>, dac: u8, cycles: usize, limit: usize)
    requires
        old(buf)@.len() <= limit,
    ensures
        final(buf)@ == capped(old(buf)@ + fan_out(dac, cycles as nat), limit as nat),
{
    let ghost full = old(buf)@ + fan_out(dac, cycles as nat);
    let mut k: usize = 0;
    while k < cycles && buf.len() < limit
        invariant
            full == old(buf)@ + fan_out(dac, cycles as nat),
            k <= cycles,
            buf@.len() <= limit,
            buf@.len() == old(buf)@.len() + k,
            buf@ =~= full.take(buf@.len() as int),
        decreases cycles - k,
    {
        assert(full[buf@.len() as int] == fan_out(dac, cycles as nat)[k as int]);
        buf.push(dac);
        k = k + 1;
    }
    proof {
        if full.len() <= limit {
            assert(buf@ =~= full);
        } else {
            assert(buf@ =~= full.take(limit as int));
        }
    }
}

/// State of a capture run, as plain values.
pub struct DriverView {
    pub config: CaptureConfig,
    pub phase: Phase,
    pub samples: Seq<u8>,
}

impl DriverView {
    /// The run's invariant: warm-up counts stay below the configured count,
    /// nothing is captured before the sound request, the buffer never passes
    /// the requested length, and it has exactly that length once done.
    pub open spec fn wf(self) -> bool {
        &&& self.samples.len() <= self.config.sample_count
        &&& (self.phase is Done ==> self.samples.len() == self.config.sample_count)
        &&& (self.phase is Capturing ==> self.samples.len() < self.config.sample_count)
        &&& (self.phase is Uninitialized || self.phase is WarmingUp || self.phase
            is AwaitingInterrupt ==> self.samples.len() == 0)
        &&& (self.phase matches Phase::WarmingUp(k) ==> k < self.config.warmup_steps)
    }

    /// The action that the run waits on in its current phase.
    pub open spec fn pending(self) -> Action {
        match self.phase {
            Phase::Uninitialized => Action::Reset,
            Phase::WarmingUp(_) => Action::Step,
            Phase::AwaitingInterrupt => Action::RequestSound(!self.config.sound_code),
            Phase::Capturing => Action::Step,
            Phase::Done => Action::Finish,
            Phase::Failed(e) => Action::Abort(e),
        }
    }

    /// The phase that follows once warm-up has run `k` steps.
    pub open spec fn warm_phase(self, k: nat) -> Phase {
        if k >= self.config.warmup_steps {
            Phase::AwaitingInterrupt
        } else {
            Phase::WarmingUp(k as usize)
        }
    }

    /// The run after the host reports `e`. Errors end a run that is still
    /// going; an event that does not answer the pending action is ignored.
    pub open spec fn next(self, e: Event) -> DriverView {
        if self.phase is Done || self.phase is Failed {
            self
        } else {
            match e {
                Event::EngineFailed => DriverView {
                    phase: Phase::Failed(DriverError::EngineStepFailure),
                    ..self
                },
                Event::Undecodable(pc) => DriverView {
                    phase: Phase::Failed(DriverError::UnrecognizedInstruction(pc)),
                    ..self
                },
                Event::ResetDone => if self.phase is Uninitialized {
                    DriverView { phase: self.warm_phase(0), ..self }
                } else {
                    self
                },
                Event::SoundRequested => if self.phase is AwaitingInterrupt {
                    DriverView {
                        phase: if self.config.sample_count == 0 {
                            Phase::Done
                        } else {
                            Phase::Capturing
                        },
                        ..self
                    }
                } else {
                    self
                },
                Event::Stepped { outcome, dac } => match self.phase {
                    Phase::WarmingUp(k) => DriverView { phase: self.warm_phase((k + 1) as nat), ..self },
                    Phase::Capturing => {
                        let s = capped(
                            self.samples + fan_out(dac, cycles_of(outcome)),
                            self.config.sample_count as nat,
                        );
                        DriverView {
                            phase: if s.len() == self.config.sample_count {
                                Phase::Done
                            } else {
                                Phase::Capturing
                            },
                            samples: s,
                            ..self
                        }
                    },
                    _ => self,
                },
            }
        }
    }
}

/// The sample-capture driver: decides, from what the host reports, what the
/// host does next with the machine, and collects the PCM samples.
pub struct Driver {
    config: CaptureConfig,
    phase: Phase,
    samples: Vec<u8>,
}

impl View for Driver {
    type V = DriverView;

    closed spec fn view(&self) -> DriverView {
        DriverView { config: self.config, phase: self.phase, samples: self.samples@ }
    }
}

impl Driver {
    /// A run that has not started.
    pub fn new(config: CaptureConfig) -> (r: Self)
        ensures
            r@ == (DriverView { config, phase: Phase::Uninitialized, samples: Seq::empty() }),
            r@.wf(),
    {
        Driver { config, phase: Phase::Uninitialized, samples: Vec::new() }
    }

    /// The action that the run waits on.
    pub fn action(&self) -> (r: Action)
        ensures
            r == self@.pending(),
    {
        match self.phase {
            Phase::Uninitialized => Action::Reset,
            Phase::WarmingUp(_) => Action::Step,
            Phase::AwaitingInterrupt => Action::RequestSound(!self.config.sound_code),
            Phase::Capturing => Action::Step,
            Phase::Done => Action::Finish,
            Phase::Failed(e) => Action::Abort(e),
        }
    }

    /// Phase after `k` warm-up steps.
    fn warm_phase(&self, k: usize) -> (r: Phase)
        ensures
            r == self@.warm_phase(k as nat),
    {
        if k >= self.config.warmup_steps {
            Phase::AwaitingInterrupt
        } else {
            Phase::WarmingUp(k)
        }
    }

    /// Takes in what the host reports and moves the run on.
    pub fn advance(&mut self, event: Event)
        requires
            old(self)@.wf(),
        ensures
            final(self)@ == old(self)@.next(event),
            final(self)@.wf(),
    {
        match self.phase {
            Phase::Done | Phase::Failed(_) => return,
            _ => {},
        }
        match event {
            Event::EngineFailed => {
                self.phase = Phase::Failed(DriverError::EngineStepFailure);
            },
            Event::Undecodable(pc) => {
                self.phase = Phase::Failed(DriverError::UnrecognizedInstruction(pc));
            },
            Event::ResetDone => {
                if let Phase::Uninitialized = self.phase {
                    self.phase = self.warm_phase(0);
                }
            },
            Event::SoundRequested => {
                if let Phase::AwaitingInterrupt = self.phase {
                    self.phase = if self.config.sample_count == 0 {
                        Phase::Done
                    } else {
                        Phase::Capturing
                    };
                }
            },
            Event::Stepped { outcome, dac } => {
                match self.phase {
                    Phase::WarmingUp(k) => {
                        self.phase = self.warm_phase(k + 1);
                    },
                    Phase::Capturing => {
                        let cycles = match outcome {
                            StepOutcome::Step { cycles, .. } => cycles,
                            _ => 0,
                        };
                        append_samples(&mut self.samples, dac, cycles, self.config.sample_count);
                        if self.samples.len() == self.config.sample_count {
                            self.phase = Phase::Done;
                        }
                    },
                    _ => {},
                }
            },
        }
    }

    /// Where the run stands.
    pub fn phase(&self) -> (r: Phase)
        ensures
            r == self@.phase,
    {
        self.phase
    }

    /// The settings of the run.
    pub fn config(&self) -> (r: CaptureConfig)
        ensures
            r == self@.config,
    {
        self.config
    }

    /// The samples captured so far.
    pub fn samples(&self) -> (r: &Vec<u8>)
        ensures
            r@ == self@.samples,
    {
        &self.samples
    }

    /// Ends the run and hands over its samples.
    pub fn into_samples(self) -> (r: Vec<u8>)
        ensures
            r@ == self@.samples,
    {
        self.samples
    }
}

impl DriverView {
    /// A run with these settings that has not started.
    pub open spec fn fresh(config: CaptureConfig) -> DriverView {
        DriverView { config, phase: Phase::Uninitialized, samples: Seq::empty() }
    }

    /// The run after the host reports each event of `es` in turn.
    pub open spec fn after_events(self, es: Seq<Event>) -> DriverView
        decreases es.len(),
    {
        if es.len() == 0 {
            self
        } else {
            self.next(es[0]).after_events(es.drop_first())
        }
    }
}

/// Every transition keeps the run's invariant.
pub proof fn lemma_next_wf(v: DriverView, e: Event)
    requires
        v.wf(),
    ensures
        v.next(e).wf(),
{
    if let Event::Stepped { outcome, dac } = e {
        if v.phase is Capturing {
            let full = v.samples + fan_out(dac, cycles_of(outcome));
            assert(capped(full, v.config.sample_count as nat).len() <= v.config.sample_count);
        }
    }
}

/// Whatever the host reports, in whatever order, a run that ends done holds
/// exactly the requested number of samples.
pub proof fn lemma_capture_length(config: CaptureConfig, es: Seq<Event>)
    ensures
        DriverView::fresh(config).after_events(es).phase is Done ==> DriverView::fresh(
            config,
        ).after_events(es).samples.len() == config.sample_count,
{
    lemma_after_events_wf(DriverView::fresh(config), es);
    let v = DriverView::fresh(config).after_events(es);
    assert(v.wf());
}

/// Any sequence of events keeps the run's invariant and its settings.
pub proof fn lemma_after_events_wf(v: DriverView, es: Seq<Event>)
    requires
        v.wf(),
    ensures
        v.after_events(es).wf(),
        v.after_events(es).config == v.config,
    decreases es.len(),
{
    if es.len() > 0 {
        lemma_next_wf(v, es[0]);
        lemma_after_events_wf(v.next(es[0]), es.drop_first());
    }
}

/// During capture, a step of `cycles` clock cycles with room left in the
/// buffer appends exactly `cycles` copies of the DAC byte read after it, one
/// after another, and keeps what was captured before.
pub proof fn lemma_cycle_fan_out(v: DriverView, pc: u16, cycles: usize, dac: u8)
    requires
        v.wf(),
        v.phase is Capturing,
        v.samples.len() + cycles <= v.config.sample_count,
    ensures
        v.next(Event::Stepped { outcome: StepOutcome::Step { pc, cycles }, dac }).samples
            == v.samples + fan_out(dac, cycles as nat),
        v.next(Event::Stepped { outcome: StepOutcome::Step { pc, cycles }, dac }).samples.subrange(
            v.samples.len() as int,
            v.samples.len() + cycles,
        ) =~= Seq::new(cycles as nat, |i: int| dac),
{
    let full = v.samples + fan_out(dac, cycles as nat);
    assert(full.subrange(v.samples.len() as int, v.samples.len() + cycles) =~= fan_out(
        dac,
        cycles as nat,
    ));
}

} // verus!
