use vstd::prelude::*;

verus! {

/// A request to the interactive runner.
#[derive(Clone, Copy, Debug, PartialEq, Eq, Structural, Default)]
pub enum Command {
    #[default]
    Idle,
    Reset,
    Run(usize),
    RunTo(u16),
    Poke(usize, u8),
    Irq,
    Trace(bool),
}

} // verus!
