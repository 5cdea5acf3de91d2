//! The engines that a stage of a script can run, besides the command engine
//! and the data path: a switch of the card's power, a read of the response
//! registers and a single register write.

use vstd::prelude::*;
use crate::sdmmc::datapath::{Drain, TransferSetup};
use crate::sdmmc::issue::{Issue, Progress};
use crate::sdmmc::registers::{Effect, Reply};

verus! {

/// The number of core clock cycles to wait after the card's power was
/// switched: two milliseconds.
pub open spec fn settle_cycles_of(clock_hz: u32) -> int {
    2 * (clock_hz / 1000)
}

/// The pause after a power switch at the given core clock frequency.
pub fn settle_cycles(clock_hz: u32) -> (cycles: u32)
    ensures
        cycles == settle_cycles_of(clock_hz),
{
    2 * (clock_hz / 1000)
}

/// What a power switch waits for.
#[derive(Clone, Copy, Debug, PartialEq, Eq, Structural)]
pub enum PowerPhase {
    /// The power register is written.
    Switch,
    /// The supply settles.
    Settle,
}

/// A switch of the card's power, followed by a pause.
#[derive(Clone, Copy, Debug, PartialEq, Eq, Structural)]
pub struct PowerCycle {
    /// Whether the card is powered.
    pub on: bool,
    /// The length of the pause in core clock cycles.
    pub cycles: u32,
    /// What the switch waits for.
    pub phase: PowerPhase,
}

impl PowerCycle {
    /// The switch as it starts at the given core clock frequency.
    pub open spec fn begun(on: bool, clock_hz: u32) -> PowerCycle {
        PowerCycle { on, cycles: settle_cycles_of(clock_hz) as u32, phase: PowerPhase::Switch }
    }

    /// The access that the switch waits for: power control is 3 for on and 0
    /// for off.
    pub open spec fn effect(self) -> Effect {
        match self.phase {
            PowerPhase::Switch => Effect::SetPower {
                pwrctrl: if self.on {
                    0b11
                } else {
                    0b00
                },
            },
            PowerPhase::Settle => Effect::Delay { cycles: self.cycles },
        }
    }

    /// The switch after `reply`. It never fails.
    pub open spec fn next(self, reply: Reply) -> Progress<PowerCycle> {
        match (self.phase, reply) {
            (PowerPhase::Switch, Reply::Done) => Progress::Running(
                PowerCycle { phase: PowerPhase::Settle, ..self },
            ),
            (PowerPhase::Settle, Reply::Done) => Progress::Complete(Ok(())),
            _ => Progress::Running(self),
        }
    }

    /// Starts a power switch.
    pub fn begin(on: bool, clock_hz: u32) -> (cycle: PowerCycle)
        ensures
            cycle == PowerCycle::begun(on, clock_hz),
    {
        PowerCycle { on, cycles: settle_cycles(clock_hz), phase: PowerPhase::Switch }
    }

    /// The access to make next.
    pub fn pending(&self) -> (effect: Effect)
        ensures
            effect == self.effect(),
    {
        match self.phase {
            PowerPhase::Switch => Effect::SetPower {
                pwrctrl: if self.on {
                    0b11
                } else {
                    0b00
                },
            },
            PowerPhase::Settle => Effect::Delay { cycles: self.cycles },
        }
    }

    /// Takes the reply to the pending access.
    pub fn advance(self, reply: Reply) -> (progress: Progress<PowerCycle>)
        ensures
            progress == self.next(reply),
    {
        match (self.phase, reply) {
            (PowerPhase::Switch, Reply::Done) => Progress::Running(
                PowerCycle { phase: PowerPhase::Settle, ..self },
            ),
            (PowerPhase::Settle, Reply::Done) => Progress::Complete(Ok(())),
            _ => Progress::Running(self),
        }
    }
}

/// A read of the first response registers into the first slots of a block.
#[derive(Clone, Copy, Debug, PartialEq, Eq, Structural)]
pub struct ResponseRead {
    /// How many registers are read: 1 for a short response, 4 for a long one.
    pub count: u8,
    /// How many have been read.
    pub got: u8,
}

impl ResponseRead {
    /// A read that is under way has a register left to read, and there are
    /// four registers.
    pub open spec fn wf(self) -> bool {
        self.got < self.count <= 4
    }

    /// The read as it starts.
    pub open spec fn begun(count: u8) -> ResponseRead {
        ResponseRead { count, got: 0 }
    }

    /// The access that the read waits for.
    pub open spec fn effect(self) -> Effect {
        Effect::ReadResponse((self.got + 1) as u8)
    }

    /// The block after `reply`: the word of register `n` goes into slot
    /// `n - 1`.
    pub open spec fn filled(self, reply: Reply, block: [u32; 16]) -> [u32; 16] {
        match reply {
            Reply::Word(word) => vstd::array::spec_array_update(block, self.got as int, word),
            _ => block,
        }
    }

    /// The read after `reply`. It never fails.
    pub open spec fn next(self, reply: Reply) -> Progress<ResponseRead> {
        match reply {
            Reply::Word(_) => if self.got + 1 >= self.count {
                Progress::Complete(Ok(()))
            } else {
                Progress::Running(ResponseRead { got: (self.got + 1) as u8, ..self })
            },
            _ => Progress::Running(self),
        }
    }

    /// Starts a read of `count` response registers.
    pub fn begin(count: u8) -> (read: ResponseRead)
        requires
            1 <= count <= 4,
        ensures
            read == ResponseRead::begun(count),
            read.wf(),
    {
        ResponseRead { count, got: 0 }
    }

    /// The access to make next.
    pub fn pending(&self) -> (effect: Effect)
        requires
            self.wf(),
        ensures
            effect == self.effect(),
    {
        Effect::ReadResponse(self.got + 1)
    }

    /// Takes the reply to the pending access and stores a word in `block`.
    pub fn advance(self, reply: Reply, block: &mut [u32; 16]) -> (progress: Progress<ResponseRead>)
        requires
            self.wf(),
        ensures
            progress == self.next(reply),
            *final(block) == self.filled(reply, *old(block)),
            progress matches Progress::Running(read) ==> read.wf(),
    {
        match reply {
            Reply::Word(word) => {
                block[self.got as usize] = word;
                assert(*block =~= self.filled(reply, *old(block)));
                if self.got + 1 >= self.count {
                    Progress::Complete(Ok(()))
                } else {
                    Progress::Running(ResponseRead { got: self.got + 1, ..self })
                }
            },
            _ => Progress::Running(self),
        }
    }
}

/// The engine that a stage runs.
#[derive(Clone, Copy, Debug, PartialEq, Eq, Structural)]
pub enum Engine {
    /// A command is sent.
    Issue(Issue),
    /// The card's power is switched.
    Power(PowerCycle),
    /// A block transfer is set up.
    Setup(TransferSetup),
    /// The FIFO is drained.
    Drain(Drain),
    /// One register is written.
    Write(Effect),
    /// The response registers are read.
    Read(ResponseRead),
}

impl Engine {
    /// An engine under way is in a state that it can get into.
    pub open spec fn wf(self) -> bool {
        match self {
            Engine::Drain(drain) => drain.wf(),
            Engine::Read(read) => read.wf(),
            _ => true,
        }
    }

    /// The access that the engine waits for.
    pub open spec fn effect(self) -> Effect {
        match self {
            Engine::Issue(issue) => issue.effect(),
            Engine::Power(cycle) => cycle.effect(),
            Engine::Setup(setup) => setup.effect(),
            Engine::Drain(drain) => drain.effect(),
            Engine::Write(effect) => effect,
            Engine::Read(read) => read.effect(),
        }
    }

    /// The block after `reply`.
    pub open spec fn filled(self, reply: Reply, block: [u32; 16]) -> [u32; 16] {
        match self {
            Engine::Drain(drain) => drain.filled(reply, block),
            Engine::Read(read) => read.filled(reply, block),
            _ => block,
        }
    }

    /// The engine after `reply`.
    pub open spec fn next(self, reply: Reply) -> Progress<Engine> {
        match self {
            Engine::Issue(issue) => match issue.next(reply) {
                Progress::Running(issue) => Progress::Running(Engine::Issue(issue)),
                Progress::Complete(result) => Progress::Complete(result),
            },
            Engine::Power(cycle) => match cycle.next(reply) {
                Progress::Running(cycle) => Progress::Running(Engine::Power(cycle)),
                Progress::Complete(result) => Progress::Complete(result),
            },
            Engine::Setup(setup) => match setup.next(reply) {
                Progress::Running(setup) => Progress::Running(Engine::Setup(setup)),
                Progress::Complete(result) => Progress::Complete(result),
            },
            Engine::Drain(drain) => match drain.next(reply) {
                Progress::Running(drain) => Progress::Running(Engine::Drain(drain)),
                Progress::Complete(result) => Progress::Complete(result),
            },
            Engine::Write(_) => match reply {
                Reply::Done => Progress::Complete(Ok(())),
                _ => Progress::Running(self),
            },
            Engine::Read(read) => match read.next(reply) {
                Progress::Running(read) => Progress::Running(Engine::Read(read)),
                Progress::Complete(result) => Progress::Complete(result),
            },
        }
    }

    /// The access to make next.
    pub fn pending(&self) -> (effect: Effect)
        requires
            self.wf(),
        ensures
            effect == self.effect(),
    {
        match self {
            Engine::Issue(issue) => issue.pending(),
            Engine::Power(cycle) => cycle.pending(),
            Engine::Setup(setup) => setup.pending(),
            Engine::Drain(drain) => drain.pending(),
            Engine::Write(effect) => *effect,
            Engine::Read(read) => read.pending(),
        }
    }

    /// Takes the reply to the pending access and stores what it brought in
    /// `block`.
    pub fn advance(self, reply: Reply, block: &mut [u32; 16]) -> (progress: Progress<Engine>)
        requires
            self.wf(),
        ensures
            progress == self.next(reply),
            *final(block) == self.filled(reply, *old(block)),
            progress matches Progress::Running(engine) ==> engine.wf(),
    {
        match self {
            Engine::Issue(issue) => match issue.advance(reply) {
                Progress::Running(issue) => Progress::Running(Engine::Issue(issue)),
                Progress::Complete(result) => Progress::Complete(result),
            },
            Engine::Power(cycle) => match cycle.advance(reply) {
                Progress::Running(cycle) => Progress::Running(Engine::Power(cycle)),
                Progress::Complete(result) => Progress::Complete(result),
            },
            Engine::Setup(setup) => match setup.advance(reply) {
                Progress::Running(setup) => Progress::Running(Engine::Setup(setup)),
                Progress::Complete(result) => Progress::Complete(result),
            },
            Engine::Drain(drain) => match drain.advance(reply, block) {
                Progress::Running(drain) => Progress::Running(Engine::Drain(drain)),
                Progress::Complete(result) => Progress::Complete(result),
            },
            Engine::Write(_) => match reply {
                Reply::Done => Progress::Complete(Ok(())),
                _ => Progress::Running(self),
            },
            Engine::Read(read) => match read.advance(reply, block) {
                Progress::Running(read) => Progress::Running(Engine::Read(read)),
                Progress::Complete(result) => Progress::Complete(result),
            },
        }
    }
}

} // verus!
