//! The state of the driver between two register accesses.

use vstd::prelude::*;
use crate::sdmmc::{BusWidth, ClockFreq, Error, SdCard};
use crate::sdmmc::datapath::{blank_block, clear_block};
use crate::sdmmc::engine::Engine;
use crate::sdmmc::init::Init;
use crate::sdmmc::issue::Progress;
use crate::sdmmc::registers::{Effect, Reply};
use crate::sdmmc::script::{Output, Script, SdStatusStage, Startup, Verdict};

verus! {

/// A script under way: the state of the script, the engine of its stage,
/// and the block of words that engines read into.
#[derive(Clone, Copy, Debug, PartialEq, Eq)]
pub struct Job {
    pub script: Script,
    pub engine: Engine,
    pub block: [u32; 16],
}

/// What the driver is doing.
#[derive(Debug, PartialEq, Eq)]
pub enum Task {
    /// Nothing: the last script has ended with this result.
    Idle(Result<Output, Error>),
    /// A script is under way.
    Busy(Job),
}

impl Clone for Task {
    fn clone(&self) -> (task: Task)
        ensures
            task == *self,
    {
        *self
    }
}

impl Copy for Task {

}

/// What the driver asks of its caller.
#[derive(Debug, PartialEq, Eq)]
pub enum Step {
    /// Make this access and hand its reply to the driver.
    Perform(Effect),
    /// Nothing: the script has ended with this result.
    Finished(Result<Output, Error>),
}

/// The state of the driver between two register accesses.
#[derive(Debug, PartialEq, Eq)]
pub struct HostState {
    /// The core clock frequency in hertz.
    pub clock: u32,
    /// The bus width that the host is wired for.
    pub bus_width: BusWidth,
    /// The card on record, if one has been initialised.
    pub card: Option<SdCard>,
    /// What the driver is doing.
    pub task: Task,
}

impl Clone for HostState {
    fn clone(&self) -> (host: HostState)
        ensures
            host == *self,
    {
        *self
    }
}

impl Copy for HostState {

}

impl HostState {
    /// The engine of a script under way is in a state that it can get into.
    pub open spec fn wf(self) -> bool {
        self.task matches Task::Busy(job) ==> job.engine.wf()
    }

    /// What the driver asks of its caller.
    pub open spec fn step(self) -> Step {
        match self.task {
            Task::Idle(result) => Step::Finished(result),
            Task::Busy(job) => Step::Perform(job.engine.effect()),
        }
    }

    /// The driver in the given state of a script: the engine of the stage is
    /// started, and the block is cleared if the stage drains the FIFO.
    pub open spec fn entered(self, script: Script, block: [u32; 16]) -> HostState {
        HostState {
            task: Task::Busy(
                Job {
                    script,
                    engine: script.engine(self.clock, self.bus_width, self.card),
                    block: if script.drains() {
                        blank_block()
                    } else {
                        block
                    },
                },
            ),
            ..self
        }
    }

    /// The driver as it starts on a script, whatever it was doing.
    pub open spec fn started(self, script: Script) -> HostState {
        self.entered(script, blank_block())
    }

    /// The driver after the engine of its stage has completed with `result`,
    /// `block` holding what the engine read.
    pub open spec fn resumed(
        self,
        script: Script,
        result: Result<(), Error>,
        block: [u32; 16],
    ) -> HostState {
        match script.after(result, block) {
            Verdict::Goto(next) => self.entered(next, block),
            Verdict::Install(card, next) => HostState { card: Some(card), ..self }.entered(
                next,
                block,
            ),
            Verdict::Finish(outcome) => HostState { task: Task::Idle(outcome), ..self },
        }
    }

    /// The driver after `reply`. An idle driver takes no reply. A reply of
    /// another kind than the pending access gives changes nothing.
    pub open spec fn advanced(self, reply: Reply) -> HostState {
        match self.task {
            Task::Idle(_) => self,
            Task::Busy(job) => if !job.engine.effect().answered_by(reply) {
                self
            } else {
                let block = job.engine.filled(reply, job.block);
                match job.engine.next(reply) {
                    Progress::Running(engine) => HostState {
                        task: Task::Busy(Job { script: job.script, engine, block }),
                        ..self
                    },
                    Progress::Complete(result) => self.resumed(job.script, result, block),
                }
            },
        }
    }

    /// A new driver: no card is on record, and the controller is being set
    /// up.
    pub open spec fn created(clock: u32, bus_width: BusWidth) -> HostState {
        HostState { clock, bus_width, card: None, task: Task::Idle(Ok(Output::Nothing)) }.started(
            Script::Startup(Startup::Configure),
        )
    }

    /// The driver as it starts to initialise a card: the card that was on
    /// record is forgotten.
    pub open spec fn init_begun(self, freq: ClockFreq) -> HostState {
        HostState { card: None, ..self }.started(Script::Init(Init::begun(freq)))
    }

    /// The driver as it starts to read the SD status. Without a card on
    /// record it ends at once with `NoCard`.
    pub open spec fn read_sd_status_begun(self) -> HostState {
        if self.card is None {
            HostState { task: Task::Idle(Err(Error::NoCard)), ..self }
        } else {
            self.started(Script::ReadSdStatus(SdStatusStage::BlockLength))
        }
    }

    /// Makes the state of a new driver.
    pub fn create(clock: u32, bus_width: BusWidth) -> (host: HostState)
        ensures
            host == HostState::created(clock, bus_width),
            host.wf(),
    {
        let mut host = HostState {
            clock,
            bus_width,
            card: None,
            task: Task::Idle(Ok(Output::Nothing)),
        };
        host.start(Script::Startup(Startup::Configure));
        host
    }

    /// What the driver asks of its caller.
    pub fn pending(&self) -> (step: Step)
        requires
            self.wf(),
        ensures
            step == self.step(),
    {
        match &self.task {
            Task::Idle(result) => Step::Finished(*result),
            Task::Busy(job) => Step::Perform(job.engine.pending()),
        }
    }

    /// Goes to the given state of a script.
    pub fn enter(&mut self, script: Script, block: [u32; 16])
        ensures
            *final(self) == old(self).entered(script, block),
            final(self).wf(),
    {
        let engine = script.start_engine(self.clock, self.bus_width, &self.card);
        let block = if script.is_drain() {
            clear_block()
        } else {
            block
        };
        self.task = Task::Busy(Job { script, engine, block });
    }

    /// Starts on a script.
    pub fn start(&mut self, script: Script)
        ensures
            *final(self) == old(self).started(script),
            final(self).wf(),
    {
        self.enter(script, clear_block());
    }

    /// Goes on after the engine of the stage has completed.
    pub fn resume(&mut self, script: Script, result: Result<(), Error>, block: [u32; 16])
        ensures
            *final(self) == old(self).resumed(script, result, block),
            final(self).wf(),
    {
        match script.decide(result, &block) {
            Verdict::Goto(next) => self.enter(next, block),
            Verdict::Install(card, next) => {
                self.card = Some(card);
                self.enter(next, block);
            },
            Verdict::Finish(outcome) => {
                self.task = Task::Idle(outcome);
            },
        }
    }

    /// Takes the reply to the pending access.
    pub fn advance(&mut self, reply: Reply)
        requires
            old(self).wf(),
        ensures
            *final(self) == old(self).advanced(reply),
            final(self).wf(),
    {
        let job = match &self.task {
            Task::Idle(_) => {
                return ;
            },
            Task::Busy(job) => *job,
        };
        if !job.engine.pending().accepts(&reply) {
            return ;
        }
        let mut block = job.block;
        match job.engine.advance(reply, &mut block) {
            Progress::Running(engine) => {
                self.task = Task::Busy(Job { script: job.script, engine, block });
            },
            Progress::Complete(result) => self.resume(job.script, result, block),
        }
    }

    /// Starts to initialise a card.
    pub fn begin_init(&mut self, freq: ClockFreq)
        ensures
            *final(self) == old(self).init_begun(freq),
            final(self).wf(),
    {
        self.card = None;
        self.start(Script::Init(Init::start(freq)));
    }

    /// Starts to read the SD status.
    pub fn begin_read_sd_status(&mut self)
        requires
            old(self).wf(),
        ensures
            *final(self) == old(self).read_sd_status_begun(),
            final(self).wf(),
    {
        if self.card.is_none() {
            self.task = Task::Idle(Err(Error::NoCard));
        } else {
            self.start(Script::ReadSdStatus(SdStatusStage::BlockLength));
        }
    }
}

/// A new driver has no card on record.
pub proof fn lemma_new_driver_has_no_card(clock: u32, bus_width: BusWidth)
    ensures
        HostState::created(clock, bus_width).card is None,
{
}

/// Without a card on record, reading the SD status ends at once with
/// `NoCard`: no register access is asked for, and nothing else changes.
pub proof fn lemma_no_card_no_access(host: HostState)
    requires
        host.card is None,
    ensures
        host.read_sd_status_begun().step() == Step::Finished(Err(Error::NoCard)),
        host.read_sd_status_begun() == (HostState { task: Task::Idle(Err(Error::NoCard)), ..host }),
{
}

/// A card goes on record at one point only: when the script that
/// initialises it has drained the last of its registers from the FIFO. No
/// other reply, and no start of a script but `init`, changes the card on
/// record.
pub proof fn lemma_card_goes_on_record_in_init_only(host: HostState, reply: Reply, script: Script)
    ensures
        host.advanced(reply).card != host.card ==> {
            &&& host.task matches Task::Busy(job)
            &&& job.script matches Script::Init(init)
            &&& init.stage is ScrDrain
            &&& host.advanced(reply).card is Some
        },
        host.started(script).card == host.card,
        host.read_sd_status_begun().card == host.card,
{
}

/// A script that initialises a card and ends in failure before the card's
/// last register is read leaves no card on record.
pub proof fn lemma_failed_init_leaves_no_card(host: HostState, reply: Reply)
    requires
        host.card is None,
        host.task matches Task::Busy(job) && job.script is Init,
    ensures
        host.advanced(reply).task matches Task::Idle(Err(_)) ==> host.advanced(reply).card is None,
{
}

/// Initialising again forgets the card that was on record. The driver as it
/// starts on `init` is the same whatever card was on record and whatever it
/// was doing, so nothing of the former card can show in what follows.
pub proof fn lemma_init_forgets_card(a: HostState, b: HostState, freq: ClockFreq)
    requires
        a.clock == b.clock,
        a.bus_width == b.bus_width,
    ensures
        a.init_begun(freq) == b.init_begun(freq),
        a.init_begun(freq).card is None,
        a.init_begun(freq).task matches Task::Busy(job) && job.script matches Script::Init(init)
            && init.draft == SdCard::blank(),
{
}

} // verus!
