//! The scripts that the driver runs. A script is a fixed series of stages;
//! each stage runs one engine, and when the engine is complete the script
//! decides from its result which stage comes next, or that it has ended.

use vstd::prelude::*;
use crate::sdmmc::{BusWidth, ClockFreq, Error, SdCard};
use crate::sdmmc::command::{app_cmd, sd_status, set_block_length, Command};
use crate::sdmmc::datapath::{start_datapath_transfer, Burst, Drain, TransferSetup};
use crate::sdmmc::engine::{Engine, PowerCycle};
use crate::sdmmc::init::{Init, InitStage};
use crate::sdmmc::issue::{poll_budget, poll_budget_of, Issue};
use crate::sdmmc::registers::{ClockControl, Dir, Effect};

verus! {

/// The stages of the script that sets the controller up.
#[derive(Clone, Copy, Debug, PartialEq, Eq, Structural)]
pub enum Startup {
    /// The clock control register is written for identification mode.
    Configure,
    /// The card's power is switched off.
    PowerOff,
}

/// The stages of an application command.
#[derive(Clone, Copy, Debug, PartialEq, Eq, Structural)]
pub enum AppCmd {
    /// APP_CMD is sent to the card; the command follows.
    Prefix(Command),
    /// The command is sent.
    Body(Command),
}

/// The stages of the script that reads the SD status.
#[derive(Clone, Copy, Debug, PartialEq, Eq, Structural)]
pub enum SdStatusStage {
    /// The block length is set to 64 bytes.
    BlockLength,
    /// A transfer of 64 bytes from the card is set up.
    Setup,
    /// APP_CMD is sent to the card.
    Prefix,
    /// SD_STATUS is sent.
    Request,
    /// The 16 words of the status are drained from the FIFO.
    Drain,
}

/// The output of a script that has ended well.
#[derive(Clone, Copy, Debug, PartialEq, Eq)]
pub enum Output {
    /// The script produces no value.
    Nothing,
    /// The 16 words of the SD status, least significant word first.
    SdStatus([u32; 16]),
}

/// What a script decides when the engine of its stage is complete.
#[derive(Debug, PartialEq, Eq)]
pub enum Verdict {
    /// The script goes on in this state.
    Goto(Script),
    /// The card goes on record, and the script goes on in this state.
    Install(SdCard, Script),
    /// The script has ended with this result.
    Finish(Result<Output, Error>),
}

/// What the driver is in the middle of.
#[derive(Clone, Copy, Debug, PartialEq, Eq)]
pub enum Script {
    /// The controller is set up for a card that is not yet known.
    Startup(Startup),
    /// The card's power is switched on or off.
    PowerCard(bool),
    /// One command is sent.
    Cmd(Command),
    /// One application command is sent.
    AppCmd(AppCmd),
    /// A card is initialised.
    Init(Init),
    /// The SD status is read.
    ReadSdStatus(SdStatusStage),
}

/// The address that application commands go to: that of the card on record,
/// or 0 while there is none.
pub open spec fn address_or_zero(card: Option<SdCard>) -> u16 {
    match card {
        Some(card) => card.address(),
        None => 0,
    }
}

impl Script {
    /// The clock control register for identification mode: rising edge, no
    /// bypass, no power saving, one data line, no flow control, the divider
    /// for 400 kHz, and the clock off.
    pub open spec fn identification_clock() -> ClockControl {
        ClockControl {
            negedge: false,
            bypass: false,
            pwrsav: false,
            widbus: 0,
            hwfc_en: false,
            clkdiv: ClockFreq::Freq400KHz.clkdiv_bits(),
            clken: false,
        }
    }

    /// The engine that the script's stage runs.
    pub open spec fn engine(self, clock_hz: u32, wired: BusWidth, card: Option<SdCard>) -> Engine {
        let budget = poll_budget_of(clock_hz) as u32;
        match self {
            Script::Startup(Startup::Configure) => Engine::Write(
                Effect::ConfigureClock(Script::identification_clock()),
            ),
            Script::Startup(Startup::PowerOff) => Engine::Power(
                PowerCycle::begun(false, clock_hz),
            ),
            Script::PowerCard(on) => Engine::Power(PowerCycle::begun(on, clock_hz)),
            Script::Cmd(cmd) => Engine::Issue(Issue::begun(cmd, budget)),
            Script::AppCmd(AppCmd::Prefix(_)) => Engine::Issue(
                Issue::begun(Command::app_cmd(address_or_zero(card)), budget),
            ),
            Script::AppCmd(AppCmd::Body(cmd)) => Engine::Issue(Issue::begun(cmd, budget)),
            Script::Init(init) => init.engine(clock_hz, wired),
            Script::ReadSdStatus(SdStatusStage::BlockLength) => Engine::Issue(
                Issue::begun(Command::set_block_length(64), budget),
            ),
            Script::ReadSdStatus(SdStatusStage::Setup) => Engine::Setup(
                TransferSetup::begun(64, 6, Dir::CardToHost),
            ),
            Script::ReadSdStatus(SdStatusStage::Prefix) => Engine::Issue(
                Issue::begun(Command::app_cmd(address_or_zero(card)), budget),
            ),
            Script::ReadSdStatus(SdStatusStage::Request) => Engine::Issue(
                Issue::begun(Command::sd_status(), budget),
            ),
            Script::ReadSdStatus(SdStatusStage::Drain) => Engine::Drain(
                Drain::begun(16, Burst::HalfFifo),
            ),
        }
    }

    /// Whether the script's stage drains the FIFO. Such a stage starts on a
    /// block of zeros.
    pub open spec fn drains(self) -> bool {
        match self {
            Script::Init(init) => init.stage is ScrDrain,
            Script::ReadSdStatus(stage) => stage is Drain,
            _ => false,
        }
    }

    /// What the script decides when the engine of its stage is complete with
    /// `result`, `block` holding what the engine read.
    pub open spec fn after(self, result: Result<(), Error>, block: [u32; 16]) -> Verdict {
        match self {
            Script::Init(init) => init.after(result, block),
            _ => match result {
                Err(e) => Verdict::Finish(Err(e)),
                Ok(()) => match self {
                    Script::Startup(Startup::Configure) => Verdict::Goto(
                        Script::Startup(Startup::PowerOff),
                    ),
                    Script::AppCmd(AppCmd::Prefix(cmd)) => Verdict::Goto(
                        Script::AppCmd(AppCmd::Body(cmd)),
                    ),
                    Script::ReadSdStatus(SdStatusStage::BlockLength) => Verdict::Goto(
                        Script::ReadSdStatus(SdStatusStage::Setup),
                    ),
                    Script::ReadSdStatus(SdStatusStage::Setup) => Verdict::Goto(
                        Script::ReadSdStatus(SdStatusStage::Prefix),
                    ),
                    Script::ReadSdStatus(SdStatusStage::Prefix) => Verdict::Goto(
                        Script::ReadSdStatus(SdStatusStage::Request),
                    ),
                    Script::ReadSdStatus(SdStatusStage::Request) => Verdict::Goto(
                        Script::ReadSdStatus(SdStatusStage::Drain),
                    ),
                    Script::ReadSdStatus(SdStatusStage::Drain) => Verdict::Finish(
                        Ok(Output::SdStatus(block)),
                    ),
                    _ => Verdict::Finish(Ok(Output::Nothing)),
                },
            },
        }
    }
}

/// The address that application commands go to.
pub fn card_address(card: &Option<SdCard>) -> (address: u16)
    ensures
        address == address_or_zero(*card),
{
    match card {
        Some(card) => card.get_address(),
        None => 0,
    }
}

impl Script {
    /// Starts the engine of the script's stage.
    pub fn start_engine(&self, clock_hz: u32, wired: BusWidth, card: &Option<SdCard>) -> (engine:
        Engine)
        ensures
            engine == self.engine(clock_hz, wired, *card),
            engine.wf(),
    {
        let budget = poll_budget(clock_hz);
        match self {
            Script::Startup(Startup::Configure) => Engine::Write(
                Effect::ConfigureClock(
                    ClockControl {
                        negedge: false,
                        bypass: false,
                        pwrsav: false,
                        widbus: 0,
                        hwfc_en: false,
                        clkdiv: ClockFreq::Freq400KHz.clkdiv(),
                        clken: false,
                    },
                ),
            ),
            Script::Startup(Startup::PowerOff) => Engine::Power(
                PowerCycle::begin(false, clock_hz),
            ),
            Script::PowerCard(on) => Engine::Power(PowerCycle::begin(*on, clock_hz)),
            Script::Cmd(cmd) => Engine::Issue(Issue::begin(*cmd, budget)),
            Script::AppCmd(AppCmd::Prefix(_)) => Engine::Issue(
                Issue::begin(app_cmd(card_address(card)), budget),
            ),
            Script::AppCmd(AppCmd::Body(cmd)) => Engine::Issue(Issue::begin(*cmd, budget)),
            Script::Init(init) => init.start_engine(clock_hz, wired),
            Script::ReadSdStatus(SdStatusStage::BlockLength) => Engine::Issue(
                Issue::begin(set_block_length(64), budget),
            ),
            Script::ReadSdStatus(SdStatusStage::Setup) => Engine::Setup(
                start_datapath_transfer(64, 6, Dir::CardToHost),
            ),
            Script::ReadSdStatus(SdStatusStage::Prefix) => Engine::Issue(
                Issue::begin(app_cmd(card_address(card)), budget),
            ),
            Script::ReadSdStatus(SdStatusStage::Request) => Engine::Issue(
                Issue::begin(sd_status(), budget),
            ),
            Script::ReadSdStatus(SdStatusStage::Drain) => Engine::Drain(
                Drain::begin(16, Burst::HalfFifo),
            ),
        }
    }

    /// Whether the script's stage drains the FIFO.
    pub fn is_drain(&self) -> (drain: bool)
        ensures
            drain == self.drains(),
    {
        match self {
            Script::Init(init) => match init.stage {
                InitStage::ScrDrain => true,
                _ => false,
            },
            Script::ReadSdStatus(SdStatusStage::Drain) => true,
            _ => false,
        }
    }

    /// Decides what follows the stage whose engine is complete with `result`.
    pub fn decide(self, result: Result<(), Error>, block: &[u32; 16]) -> (verdict: Verdict)
        ensures
            verdict == self.after(result, *block),
    {
        match self {
            Script::Init(init) => init.decide(result, block),
            _ => match result {
                Err(e) => Verdict::Finish(Err(e)),
                Ok(()) => match self {
                    Script::Startup(Startup::Configure) => Verdict::Goto(
                        Script::Startup(Startup::PowerOff),
                    ),
                    Script::AppCmd(AppCmd::Prefix(cmd)) => Verdict::Goto(
                        Script::AppCmd(AppCmd::Body(cmd)),
                    ),
                    Script::ReadSdStatus(SdStatusStage::BlockLength) => Verdict::Goto(
                        Script::ReadSdStatus(SdStatusStage::Setup),
                    ),
                    Script::ReadSdStatus(SdStatusStage::Setup) => Verdict::Goto(
                        Script::ReadSdStatus(SdStatusStage::Prefix),
                    ),
                    Script::ReadSdStatus(SdStatusStage::Prefix) => Verdict::Goto(
                        Script::ReadSdStatus(SdStatusStage::Request),
                    ),
                    Script::ReadSdStatus(SdStatusStage::Request) => Verdict::Goto(
                        Script::ReadSdStatus(SdStatusStage::Drain),
                    ),
                    Script::ReadSdStatus(SdStatusStage::Drain) => Verdict::Finish(
                        Ok(Output::SdStatus(*block)),
                    ),
                    _ => Verdict::Finish(Ok(Output::Nothing)),
                },
            },
        }
    }
}

} // verus!
