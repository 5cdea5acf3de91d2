//! The script that initialises a card.
//!
//! The card is powered and reset, its version and operating conditions are
//! found out, its registers are read, it is selected, and the bus is switched
//! to the width and the frequency to work with.

use vstd::prelude::*;
use crate::sdmmc::{BusWidth, ClockFreq, Error, SdCard, SdCardVersion};
use crate::sdmmc::command::{
    all_send_cid,
    app_cmd,
    card_status,
    idle,
    sd_send_op_cond,
    select_card,
    send_csd,
    send_if_cond,
    send_relative_address,
    send_scr,
    set_block_length,
    set_bus_width,
    Command,
};
use crate::sdmmc::datapath::{start_datapath_transfer, Burst, Drain, TransferSetup};
use crate::sdmmc::descriptor::{
    busy_in,
    card_state,
    cic_pattern,
    high_capacity_in,
    ocr_high_capacity,
    ocr_is_busy,
    pattern_of,
    state_of,
    wide_value,
    CardCapacity,
    CurrentState,
};
use crate::sdmmc::engine::{Engine, PowerCycle, ResponseRead};
use crate::sdmmc::issue::{poll_budget, poll_budget_of, Issue};
use crate::sdmmc::registers::{Dir, Effect};
use crate::sdmmc::script::{Output, Script, Verdict};

verus! {

/// The check pattern that the driver sends with SEND_IF_COND and expects a
/// version 2 card to echo.
pub const CHECK_PATTERN: u8 = 0xAA;

/// The voltage range that the driver sends with SEND_IF_COND: 2.7 to 3.6 V.
pub const HOST_VOLTAGE: u8 = 1;

/// The voltage window that the driver offers in SD_SEND_OP_COND: 3.2 to
/// 3.3 V.
pub const VOLTAGE_WINDOW: u16 = 0x20;

/// How many times the operating conditions are asked for before the driver
/// gives up on a card that stays busy.
pub const NEGOTIATION_POLLS: u32 = 0xFFFF;

/// The bus width to use with a card: four lines if the host is wired for
/// four or eight and the card can use four, one line otherwise. Eight lines
/// are never used with an SD card.
pub open spec fn negotiated_width(wired: BusWidth, card_widebus: bool) -> BusWidth {
    if card_widebus && !(wired is One) {
        BusWidth::Four
    } else {
        BusWidth::One
    }
}

/// Chooses the bus width for a card.
pub fn negotiate_bus_width(wired: BusWidth, card_widebus: bool) -> (width: BusWidth)
    ensures
        width == negotiated_width(wired, card_widebus),
{
    match wired {
        BusWidth::One => BusWidth::One,
        BusWidth::Four | BusWidth::Eight => if card_widebus {
            BusWidth::Four
        } else {
            BusWidth::One
        },
    }
}

/// The negotiated width has no more lines than the host is wired for and no
/// more than the card can use: one, or four if it said so. It is never
/// eight.
pub proof fn lemma_negotiated_width_within_both(wired: BusWidth, card_widebus: bool)
    ensures
        negotiated_width(wired, card_widebus).lines() <= wired.lines(),
        negotiated_width(wired, card_widebus).lines() <= (if card_widebus {
            4nat
        } else {
            1nat
        }),
        !(negotiated_width(wired, card_widebus) is Eight),
        card_widebus && wired is Eight ==> negotiated_width(wired, card_widebus) is Four,
        !card_widebus ==> negotiated_width(wired, card_widebus) is One,
{
}

/// How the selection of the card at `rca` ended, given how the command
/// ended: a hardware timeout counts as success when the address is 0,
/// because no card acknowledges that address.
pub open spec fn select_outcome_of(rca: u16, result: Result<(), Error>) -> Result<(), Error> {
    if rca == 0 && result == Err::<(), Error>(Error::Timeout) {
        Ok(())
    } else {
        result
    }
}

/// Judges the result of SELECT_CARD.
pub fn select_outcome(rca: u16, result: Result<(), Error>) -> (r: Result<(), Error>)
    ensures
        r == select_outcome_of(rca, result),
{
    match (result, rca) {
        (Err(Error::Timeout), 0) => Ok(()),
        (result, _) => result,
    }
}

/// The stages of the script that initialises a card, in the order in which
/// a card that answers without fault goes through them.
#[derive(Clone, Copy, Debug, PartialEq, Eq, Structural)]
pub enum InitStage {
    /// The card's power is switched on.
    PowerUp,
    /// The bus clock is switched on.
    EnableClock,
    /// GO_IDLE_STATE is sent.
    GoIdle,
    /// SEND_IF_COND is sent with the check pattern.
    IfCond,
    /// The card's answer to SEND_IF_COND is read.
    IfCondEcho,
    /// APP_CMD is sent to address 0, ahead of SD_SEND_OP_COND.
    OpCondPrefix,
    /// SD_SEND_OP_COND is sent.
    OpCond,
    /// The operating conditions are read.
    OpCondReply,
    /// ALL_SEND_CID is sent.
    AllSendCid,
    /// The four words of the card identification are read.
    CidReply,
    /// SEND_RELATIVE_ADDR is sent.
    SendRca,
    /// The card's address is read.
    RcaReply,
    /// SEND_CSD is sent to the card.
    SendCsd,
    /// The four words of the card-specific data are read.
    CsdReply,
    /// The card is selected.
    Select,
    /// The block length is set to 8 bytes.
    ScrBlockLength,
    /// APP_CMD is sent to the card, ahead of SEND_SCR.
    ScrPrefix,
    /// A transfer of 8 bytes from the card is set up.
    ScrSetup,
    /// SEND_SCR is sent.
    ScrRequest,
    /// The two words of the configuration register are drained from the
    /// FIFO.
    ScrDrain,
    /// SEND_STATUS is sent to the card.
    StatusQuery,
    /// The card's status is read.
    StatusReply,
    /// APP_CMD is sent to the card, ahead of SET_BUS_WIDTH.
    BusPrefix,
    /// SET_BUS_WIDTH is sent.
    BusWidthCommand,
    /// The divider and the bus width are written to the clock control
    /// register.
    BusProgram,
}

/// The script that initialises a card.
#[derive(Clone, Copy, Debug, PartialEq, Eq)]
pub struct Init {
    /// The stage that the script is in.
    pub stage: InitStage,
    /// The bus clock frequency to switch to once the card is ready.
    pub freq: ClockFreq,
    /// The version of the card, known once it has answered SEND_IF_COND.
    pub version: SdCardVersion,
    /// How many more times the operating conditions may be asked for.
    pub left: u32,
    /// The registers of the card as far as they have been read.
    pub draft: SdCard,
}

impl Init {
    /// The script as it starts: nothing is known of the card.
    pub open spec fn begun(freq: ClockFreq) -> Init {
        Init {
            stage: InitStage::PowerUp,
            freq,
            version: SdCardVersion::V1,
            left: 0,
            draft: SdCard::blank(),
        }
    }

    /// The script in another stage.
    pub open spec fn at(self, stage: InitStage) -> Init {
        Init { stage, ..self }
    }

    /// The bus width that the script sets for the card in the draft.
    pub open spec fn width(self, wired: BusWidth) -> BusWidth {
        negotiated_width(wired, self.draft.widebus())
    }

    /// The engine that the stage runs.
    pub open spec fn engine(self, clock_hz: u32, wired: BusWidth) -> Engine {
        let budget = poll_budget_of(clock_hz) as u32;
        match self.stage {
            InitStage::PowerUp => Engine::Power(PowerCycle::begun(true, clock_hz)),
            InitStage::EnableClock => Engine::Write(Effect::SetClockEnable { clken: true }),
            InitStage::GoIdle => Engine::Issue(Issue::begun(Command::idle(), budget)),
            InitStage::IfCond => Engine::Issue(
                Issue::begun(Command::send_if_cond(HOST_VOLTAGE, CHECK_PATTERN), budget),
            ),
            InitStage::IfCondEcho => Engine::Read(ResponseRead::begun(1)),
            InitStage::OpCondPrefix => Engine::Issue(Issue::begun(Command::app_cmd(0), budget)),
            InitStage::OpCond => Engine::Issue(
                Issue::begun(
                    Command::sd_send_op_cond(self.version is V2, false, false, VOLTAGE_WINDOW),
                    budget,
                ),
            ),
            InitStage::OpCondReply => Engine::Read(ResponseRead::begun(1)),
            InitStage::AllSendCid => Engine::Issue(Issue::begun(Command::all_send_cid(), budget)),
            InitStage::CidReply => Engine::Read(ResponseRead::begun(4)),
            InitStage::SendRca => Engine::Issue(
                Issue::begun(Command::send_relative_address(), budget),
            ),
            InitStage::RcaReply => Engine::Read(ResponseRead::begun(1)),
            InitStage::SendCsd => Engine::Issue(
                Issue::begun(Command::send_csd(self.draft.address()), budget),
            ),
            InitStage::CsdReply => Engine::Read(ResponseRead::begun(4)),
            InitStage::Select => Engine::Issue(
                Issue::begun(Command::select_card(self.draft.address()), budget),
            ),
            InitStage::ScrBlockLength => Engine::Issue(
                Issue::begun(Command::set_block_length(8), budget),
            ),
            InitStage::ScrPrefix => Engine::Issue(
                Issue::begun(Command::app_cmd(self.draft.address()), budget),
            ),
            InitStage::ScrSetup => Engine::Setup(TransferSetup::begun(8, 3, Dir::CardToHost)),
            InitStage::ScrRequest => Engine::Issue(Issue::begun(Command::send_scr(), budget)),
            InitStage::ScrDrain => Engine::Drain(Drain::begun(2, Burst::Single)),
            InitStage::StatusQuery => Engine::Issue(
                Issue::begun(Command::card_status(self.draft.address(), false), budget),
            ),
            InitStage::StatusReply => Engine::Read(ResponseRead::begun(1)),
            InitStage::BusPrefix => Engine::Issue(
                Issue::begun(Command::app_cmd(self.draft.address()), budget),
            ),
            InitStage::BusWidthCommand => Engine::Issue(
                Issue::begun(Command::set_bus_width(self.width(wired) is Four), budget),
            ),
            InitStage::BusProgram => Engine::Write(
                Effect::SetBus {
                    clkdiv: self.freq.clkdiv_bits(),
                    widbus: self.width(wired).widbus_bits(),
                    clken: true,
                },
            ),
        }
    }

    /// One more poll of the operating conditions, if the budget allows it:
    /// the script goes back to the prefix with one poll less to go, or ends
    /// with `SoftwareTimeout` when none is left.
    pub open spec fn poll_or_give_up(self) -> Verdict {
        if self.left == 0 {
            Verdict::Finish(Err(Error::SoftwareTimeout))
        } else {
            Verdict::Goto(
                Script::Init(
                    Init { stage: InitStage::OpCondPrefix, left: (self.left - 1) as u32, ..self },
                ),
            )
        }
    }

    /// The result of the stage's engine as the script takes it. A CRC failure
    /// of SD_SEND_OP_COND is no failure: a card answers it without a CRC. A
    /// timeout of SELECT_CARD is none when the address is 0.
    pub open spec fn judged(self, result: Result<(), Error>) -> Result<(), Error> {
        match self.stage {
            InitStage::OpCond => if result == Err::<(), Error>(Error::Crc) {
                Ok(())
            } else {
                result
            },
            InitStage::Select => select_outcome_of(self.draft.address(), result),
            _ => result,
        }
    }

    /// What follows a stage whose engine ended well, `block` holding what it
    /// read.
    pub open spec fn proceed(self, block: [u32; 16]) -> Verdict {
        match self.stage {
            InitStage::PowerUp => Verdict::Goto(Script::Init(self.at(InitStage::EnableClock))),
            InitStage::EnableClock => Verdict::Goto(Script::Init(self.at(InitStage::GoIdle))),
            InitStage::GoIdle => Verdict::Goto(Script::Init(self.at(InitStage::IfCond))),
            InitStage::IfCond => Verdict::Goto(Script::Init(self.at(InitStage::IfCondEcho))),
            InitStage::IfCondEcho => Init {
                version: if pattern_of(block[0]) == CHECK_PATTERN {
                    SdCardVersion::V2
                } else {
                    SdCardVersion::V1
                },
                left: NEGOTIATION_POLLS,
                ..self
            }.poll_or_give_up(),
            InitStage::OpCondPrefix => Verdict::Goto(Script::Init(self.at(InitStage::OpCond))),
            InitStage::OpCond => Verdict::Goto(Script::Init(self.at(InitStage::OpCondReply))),
            InitStage::OpCondReply => if busy_in(block[0]) {
                self.poll_or_give_up()
            } else {
                Verdict::Goto(
                    Script::Init(
                        Init {
                            stage: InitStage::AllSendCid,
                            draft: SdCard {
                                capacity: if high_capacity_in(block[0]) {
                                    CardCapacity::HighCapacity
                                } else {
                                    CardCapacity::StandardCapacity
                                },
                                ocr: block[0],
                                ..self.draft
                            },
                            ..self
                        },
                    ),
                )
            },
            InitStage::AllSendCid => Verdict::Goto(Script::Init(self.at(InitStage::CidReply))),
            InitStage::CidReply => Verdict::Goto(
                Script::Init(
                    Init {
                        stage: InitStage::SendRca,
                        draft: SdCard {
                            cid: [block[3], block[2], block[1], block[0]],
                            ..self.draft
                        },
                        ..self
                    },
                ),
            ),
            InitStage::SendRca => Verdict::Goto(Script::Init(self.at(InitStage::RcaReply))),
            InitStage::RcaReply => Verdict::Goto(
                Script::Init(
                    Init {
                        stage: InitStage::SendCsd,
                        draft: SdCard { rca: block[0], ..self.draft },
                        ..self
                    },
                ),
            ),
            InitStage::SendCsd => Verdict::Goto(Script::Init(self.at(InitStage::CsdReply))),
            InitStage::CsdReply => Verdict::Goto(
                Script::Init(
                    Init {
                        stage: InitStage::Select,
                        draft: SdCard {
                            csd: [block[3], block[2], block[1], block[0]],
                            ..self.draft
                        },
                        ..self
                    },
                ),
            ),
            InitStage::Select => Verdict::Goto(Script::Init(self.at(InitStage::ScrBlockLength))),
            InitStage::ScrBlockLength => Verdict::Goto(Script::Init(self.at(InitStage::ScrPrefix))),
            InitStage::ScrPrefix => Verdict::Goto(Script::Init(self.at(InitStage::ScrSetup))),
            InitStage::ScrSetup => Verdict::Goto(Script::Init(self.at(InitStage::ScrRequest))),
            InitStage::ScrRequest => Verdict::Goto(Script::Init(self.at(InitStage::ScrDrain))),
            InitStage::ScrDrain => {
                let card = SdCard { scr: [block[0], block[1]], ..self.draft };
                Verdict::Install(
                    card,
                    Script::Init(Init { stage: InitStage::StatusQuery, draft: card, ..self }),
                )
            },
            InitStage::StatusQuery => Verdict::Goto(Script::Init(self.at(InitStage::StatusReply))),
            InitStage::StatusReply => if state_of(block[0]) is Transfer {
                Verdict::Goto(Script::Init(self.at(InitStage::BusPrefix)))
            } else {
                Verdict::Goto(Script::Init(self.at(InitStage::StatusQuery)))
            },
            InitStage::BusPrefix => Verdict::Goto(
                Script::Init(self.at(InitStage::BusWidthCommand)),
            ),
            InitStage::BusWidthCommand => Verdict::Goto(
                Script::Init(self.at(InitStage::BusProgram)),
            ),
            InitStage::BusProgram => Verdict::Finish(Ok(Output::Nothing)),
        }
    }

    /// What the script decides when the engine of its stage is complete with
    /// `result`, `block` holding what the engine read.
    ///
    /// A failure that the stage does not forgive ends the script with that
    /// failure. When APP_CMD fails with a CRC failure ahead of
    /// SD_SEND_OP_COND, that command is left out and the operating conditions
    /// are read all the same.
    pub open spec fn after(self, result: Result<(), Error>, block: [u32; 16]) -> Verdict {
        if self.stage is OpCondPrefix && result == Err::<(), Error>(Error::Crc) {
            Verdict::Goto(Script::Init(self.at(InitStage::OpCondReply)))
        } else {
            match self.judged(result) {
                Err(e) => Verdict::Finish(Err(e)),
                Ok(()) => self.proceed(block),
            }
        }
    }
}

impl Init {
    /// Starts the script.
    pub fn start(freq: ClockFreq) -> (init: Init)
        ensures
            init == Init::begun(freq),
    {
        Init {
            stage: InitStage::PowerUp,
            freq,
            version: SdCardVersion::V1,
            left: 0,
            draft: SdCard::default(),
        }
    }

    /// Starts the engine of the script's stage.
    pub fn start_engine(&self, clock_hz: u32, wired: BusWidth) -> (engine: Engine)
        ensures
            engine == self.engine(clock_hz, wired),
            engine.wf(),
    {
        let budget = poll_budget(clock_hz);
        match self.stage {
            InitStage::PowerUp => Engine::Power(PowerCycle::begin(true, clock_hz)),
            InitStage::EnableClock => Engine::Write(Effect::SetClockEnable { clken: true }),
            InitStage::GoIdle => Engine::Issue(Issue::begin(idle(), budget)),
            InitStage::IfCond => Engine::Issue(
                Issue::begin(send_if_cond(HOST_VOLTAGE, CHECK_PATTERN), budget),
            ),
            InitStage::IfCondEcho => Engine::Read(ResponseRead::begin(1)),
            InitStage::OpCondPrefix => Engine::Issue(Issue::begin(app_cmd(0), budget)),
            InitStage::OpCond => {
                let high_capacity = match self.version {
                    SdCardVersion::V2 => true,
                    SdCardVersion::V1 => false,
                };
                Engine::Issue(
                    Issue::begin(
                        sd_send_op_cond(high_capacity, false, false, VOLTAGE_WINDOW),
                        budget,
                    ),
                )
            },
            InitStage::OpCondReply => Engine::Read(ResponseRead::begin(1)),
            InitStage::AllSendCid => Engine::Issue(Issue::begin(all_send_cid(), budget)),
            InitStage::CidReply => Engine::Read(ResponseRead::begin(4)),
            InitStage::SendRca => Engine::Issue(Issue::begin(send_relative_address(), budget)),
            InitStage::RcaReply => Engine::Read(ResponseRead::begin(1)),
            InitStage::SendCsd => Engine::Issue(
                Issue::begin(send_csd(self.draft.get_address()), budget),
            ),
            InitStage::CsdReply => Engine::Read(ResponseRead::begin(4)),
            InitStage::Select => Engine::Issue(
                Issue::begin(select_card(self.draft.get_address()), budget),
            ),
            InitStage::ScrBlockLength => Engine::Issue(Issue::begin(set_block_length(8), budget)),
            InitStage::ScrPrefix => Engine::Issue(
                Issue::begin(app_cmd(self.draft.get_address()), budget),
            ),
            InitStage::ScrSetup => Engine::Setup(start_datapath_transfer(8, 3, Dir::CardToHost)),
            InitStage::ScrRequest => Engine::Issue(Issue::begin(send_scr(), budget)),
            InitStage::ScrDrain => Engine::Drain(Drain::begin(2, Burst::Single)),
            InitStage::StatusQuery => Engine::Issue(
                Issue::begin(card_status(self.draft.get_address(), false), budget),
            ),
            InitStage::StatusReply => Engine::Read(ResponseRead::begin(1)),
            InitStage::BusPrefix => Engine::Issue(
                Issue::begin(app_cmd(self.draft.get_address()), budget),
            ),
            InitStage::BusWidthCommand => {
                let width = negotiate_bus_width(wired, self.draft.supports_widebus());
                let four = match width {
                    BusWidth::Four => true,
                    _ => false,
                };
                Engine::Issue(Issue::begin(set_bus_width(four), budget))
            },
            InitStage::BusProgram => {
                let width = negotiate_bus_width(wired, self.draft.supports_widebus());
                Engine::Write(
                    Effect::SetBus {
                        clkdiv: self.freq.clkdiv(),
                        widbus: width.widbus(),
                        clken: true,
                    },
                )
            },
        }
    }

    /// Asks for the operating conditions once more, or gives up.
    pub fn next_poll(self) -> (verdict: Verdict)
        ensures
            verdict == self.poll_or_give_up(),
    {
        if self.left == 0 {
            Verdict::Finish(Err(Error::SoftwareTimeout))
        } else {
            Verdict::Goto(
                Script::Init(Init { stage: InitStage::OpCondPrefix, left: self.left - 1, ..self }),
            )
        }
    }

    /// Judges the result of the stage's engine.
    pub fn judge(&self, result: Result<(), Error>) -> (r: Result<(), Error>)
        ensures
            r == self.judged(result),
    {
        match self.stage {
            InitStage::OpCond => match result {
                Err(Error::Crc) => Ok(()),
                _ => result,
            },
            InitStage::Select => select_outcome(self.draft.get_address(), result),
            _ => result,
        }
    }

    /// Decides what follows a stage whose engine ended well.
    pub fn go_on(self, block: &[u32; 16]) -> (verdict: Verdict)
        ensures
            verdict == self.proceed(*block),
    {
        match self.stage {
            InitStage::PowerUp => Verdict::Goto(
                Script::Init(Init { stage: InitStage::EnableClock, ..self }),
            ),
            InitStage::EnableClock => Verdict::Goto(
                Script::Init(Init { stage: InitStage::GoIdle, ..self }),
            ),
            InitStage::GoIdle => Verdict::Goto(
                Script::Init(Init { stage: InitStage::IfCond, ..self }),
            ),
            InitStage::IfCond => Verdict::Goto(
                Script::Init(Init { stage: InitStage::IfCondEcho, ..self }),
            ),
            InitStage::IfCondEcho => {
                let version = if cic_pattern(block[0]) == CHECK_PATTERN {
                    SdCardVersion::V2
                } else {
                    SdCardVersion::V1
                };
                Init { version, left: NEGOTIATION_POLLS, ..self }.next_poll()
            },
            InitStage::OpCondPrefix => Verdict::Goto(
                Script::Init(Init { stage: InitStage::OpCond, ..self }),
            ),
            InitStage::OpCond => Verdict::Goto(
                Script::Init(Init { stage: InitStage::OpCondReply, ..self }),
            ),
            InitStage::OpCondReply => {
                let ocr = block[0];
                if ocr_is_busy(ocr) {
                    self.next_poll()
                } else {
                    let capacity = if ocr_high_capacity(ocr) {
                        CardCapacity::HighCapacity
                    } else {
                        CardCapacity::StandardCapacity
                    };
                    Verdict::Goto(
                        Script::Init(
                            Init {
                                stage: InitStage::AllSendCid,
                                draft: SdCard { capacity, ocr, ..self.draft },
                                ..self
                            },
                        ),
                    )
                }
            },
            InitStage::AllSendCid => Verdict::Goto(
                Script::Init(Init { stage: InitStage::CidReply, ..self }),
            ),
            InitStage::CidReply => Verdict::Goto(
                Script::Init(
                    Init {
                        stage: InitStage::SendRca,
                        draft: SdCard {
                            cid: [block[3], block[2], block[1], block[0]],
                            ..self.draft
                        },
                        ..self
                    },
                ),
            ),
            InitStage::SendRca => Verdict::Goto(
                Script::Init(Init { stage: InitStage::RcaReply, ..self }),
            ),
            InitStage::RcaReply => Verdict::Goto(
                Script::Init(
                    Init {
                        stage: InitStage::SendCsd,
                        draft: SdCard { rca: block[0], ..self.draft },
                        ..self
                    },
                ),
            ),
            InitStage::SendCsd => Verdict::Goto(
                Script::Init(Init { stage: InitStage::CsdReply, ..self }),
            ),
            InitStage::CsdReply => Verdict::Goto(
                Script::Init(
                    Init {
                        stage: InitStage::Select,
                        draft: SdCard {
                            csd: [block[3], block[2], block[1], block[0]],
                            ..self.draft
                        },
                        ..self
                    },
                ),
            ),
            InitStage::Select => Verdict::Goto(
                Script::Init(Init { stage: InitStage::ScrBlockLength, ..self }),
            ),
            InitStage::ScrBlockLength => Verdict::Goto(
                Script::Init(Init { stage: InitStage::ScrPrefix, ..self }),
            ),
            InitStage::ScrPrefix => Verdict::Goto(
                Script::Init(Init { stage: InitStage::ScrSetup, ..self }),
            ),
            InitStage::ScrSetup => Verdict::Goto(
                Script::Init(Init { stage: InitStage::ScrRequest, ..self }),
            ),
            InitStage::ScrRequest => Verdict::Goto(
                Script::Init(Init { stage: InitStage::ScrDrain, ..self }),
            ),
            InitStage::ScrDrain => {
                let card = SdCard { scr: [block[0], block[1]], ..self.draft };
                Verdict::Install(
                    card,
                    Script::Init(Init { stage: InitStage::StatusQuery, draft: card, ..self }),
                )
            },
            InitStage::StatusQuery => Verdict::Goto(
                Script::Init(Init { stage: InitStage::StatusReply, ..self }),
            ),
            InitStage::StatusReply => match card_state(block[0]) {
                CurrentState::Transfer => Verdict::Goto(
                    Script::Init(Init { stage: InitStage::BusPrefix, ..self }),
                ),
                _ => Verdict::Goto(Script::Init(Init { stage: InitStage::StatusQuery, ..self })),
            },
            InitStage::BusPrefix => Verdict::Goto(
                Script::Init(Init { stage: InitStage::BusWidthCommand, ..self }),
            ),
            InitStage::BusWidthCommand => Verdict::Goto(
                Script::Init(Init { stage: InitStage::BusProgram, ..self }),
            ),
            InitStage::BusProgram => Verdict::Finish(Ok(Output::Nothing)),
        }
    }

    /// Decides what follows the stage whose engine is complete with `result`.
    pub fn decide(self, result: Result<(), Error>, block: &[u32; 16]) -> (verdict: Verdict)
        ensures
            verdict == self.after(result, *block),
    {
        match (self.stage, result) {
            (InitStage::OpCondPrefix, Err(Error::Crc)) => Verdict::Goto(
                Script::Init(Init { stage: InitStage::OpCondReply, ..self }),
            ),
            _ => match self.judge(result) {
                Err(e) => Verdict::Finish(Err(e)),
                Ok(()) => self.go_on(block),
            },
        }
    }
}

impl Init {
    /// How many polls of the operating conditions have been started since the
    /// card answered SEND_IF_COND.
    pub open spec fn polls(self) -> int {
        NEGOTIATION_POLLS - self.left
    }

    /// What the script decides after one poll of the operating conditions in
    /// which APP_CMD and SD_SEND_OP_COND succeed and the response is read
    /// into `block`. The script is at the prefix of the poll.
    pub open spec fn polled(self, block: [u32; 16]) -> Verdict {
        match self.after(Ok(()), block) {
            Verdict::Goto(Script::Init(command)) => match command.after(Ok(()), block) {
                Verdict::Goto(Script::Init(reply)) => reply.after(Ok(()), block),
                verdict => verdict,
            },
            verdict => verdict,
        }
    }

    /// What the script has decided after as many polls as it takes of
    /// `blocks`, one for each poll and in this order, until it leaves the
    /// negotiation or has used them all.
    pub open spec fn negotiated(self, blocks: Seq<[u32; 16]>) -> Verdict
        decreases blocks.len(),
    {
        if blocks.len() == 0 {
            Verdict::Goto(Script::Init(self))
        } else {
            match self.polled(blocks[0]) {
                Verdict::Goto(Script::Init(next)) => if next.stage is OpCondPrefix {
                    next.negotiated(blocks.drop_first())
                } else {
                    Verdict::Goto(Script::Init(next))
                },
                verdict => verdict,
            }
        }
    }

    /// The script after the card has said that it is powered up, in `ocr`.
    pub open spec fn powered_up(self, ocr: u32) -> Init {
        Init {
            stage: InitStage::AllSendCid,
            draft: SdCard {
                capacity: if high_capacity_in(ocr) {
                    CardCapacity::HighCapacity
                } else {
                    CardCapacity::StandardCapacity
                },
                ocr,
                ..self.draft
            },
            ..self
        }
    }
}

/// Whether every poll in `blocks` finds the card busy.
pub open spec fn all_busy(blocks: Seq<[u32; 16]>) -> bool {
    forall|i: int| 0 <= i < blocks.len() ==> busy_in((#[trigger] blocks[i])[0])
}

/// While the card stays busy the script polls on, one poll off its budget
/// each time, and gives up with `SoftwareTimeout` when a poll finds the card
/// busy and the budget used up.
pub proof fn lemma_busy_card_is_polled_again(init: Init, blocks: Seq<[u32; 16]>)
    requires
        init.stage is OpCondPrefix,
        all_busy(blocks),
    ensures
        blocks.len() <= init.left ==> init.negotiated(blocks) == Verdict::Goto(
            Script::Init(Init { left: (init.left - blocks.len()) as u32, ..init }),
        ),
        blocks.len() > init.left ==> init.negotiated(blocks) == Verdict::Finish(
            Err(Error::SoftwareTimeout),
        ),
    decreases blocks.len(),
{
    if blocks.len() > 0 {
        let rest = blocks.drop_first();
        assert(busy_in(blocks[0][0]));
        assert forall|i: int| 0 <= i < rest.len() implies busy_in((#[trigger] rest[i])[0]) by {
            assert(rest[i] == blocks[i + 1]);
        }
        if init.left > 0 {
            let next = Init { left: (init.left - 1) as u32, ..init };
            assert(init.polled(blocks[0]) == Verdict::Goto(Script::Init(next)));
            lemma_busy_card_is_polled_again(next, rest);
        }
    }
}

/// A card that is busy in the first `busy.len()` polls and powered up in the
/// next leaves the negotiation at that poll, if the budget reaches as far:
/// its operating conditions and its capacity class are those of that poll.
pub proof fn lemma_ready_card_ends_negotiation(init: Init, busy: Seq<[u32; 16]>, ready: [u32; 16])
    requires
        init.stage is OpCondPrefix,
        all_busy(busy),
        !busy_in(ready[0]),
        busy.len() <= init.left,
    ensures
        init.negotiated(busy.push(ready)) == Verdict::Goto(
            Script::Init(
                Init { left: (init.left - busy.len()) as u32, ..init }.powered_up(ready[0]),
            ),
        ),
    decreases busy.len(),
{
    let blocks = busy.push(ready);
    if busy.len() == 0 {
        assert(blocks[0] == ready);
        assert(init.polled(ready) == Verdict::Goto(Script::Init(init.powered_up(ready[0]))));
    } else {
        let rest = busy.drop_first();
        assert(blocks[0] == busy[0]);
        assert(busy_in(busy[0][0]));
        assert(blocks.drop_first() =~= rest.push(ready));
        assert forall|i: int| 0 <= i < rest.len() implies busy_in((#[trigger] rest[i])[0]) by {
            assert(rest[i] == busy[i + 1]);
        }
        let next = Init { left: (init.left - 1) as u32, ..init };
        assert(init.polled(blocks[0]) == Verdict::Goto(Script::Init(next)));
        lemma_ready_card_ends_negotiation(next, rest, ready);
    }
}

/// Voltage negotiation. Once the card has answered SEND_IF_COND, a card that
/// is busy in the first `n` polls of its operating conditions and powered up
/// in the next is through the negotiation after exactly `n + 1` polls, for
/// every `n` below 65535: not before, and with the operating conditions of
/// that poll. A card that is busy in 65535 polls ends the script with
/// `SoftwareTimeout`.
pub proof fn lemma_voltage_negotiation(
    init: Init,
    echo: [u32; 16],
    busy: Seq<[u32; 16]>,
    ready: [u32; 16],
)
    requires
        init.stage is IfCondEcho,
        all_busy(busy),
        !busy_in(ready[0]),
    ensures
        init.after(Ok(()), echo) matches Verdict::Goto(Script::Init(first)) && {
            &&& first.stage is OpCondPrefix
            &&& first.polls() == 1
            &&& busy.len() < NEGOTIATION_POLLS ==> {
                &&& first.negotiated(busy) matches Verdict::Goto(Script::Init(polling))
                &&& polling.stage is OpCondPrefix
                &&& polling.polls() == busy.len() + 1
                &&& first.negotiated(busy.push(ready)) matches Verdict::Goto(Script::Init(done))
                &&& done.stage is AllSendCid
                &&& done.polls() == busy.len() + 1
                &&& done.draft.ocr == ready[0]
            }
            &&& busy.len() >= NEGOTIATION_POLLS ==> first.negotiated(busy) == Verdict::Finish(
                Err(Error::SoftwareTimeout),
            )
        },
{
    let first = Init {
        stage: InitStage::OpCondPrefix,
        version: if pattern_of(echo[0]) == CHECK_PATTERN {
            SdCardVersion::V2
        } else {
            SdCardVersion::V1
        },
        left: (NEGOTIATION_POLLS - 1) as u32,
        ..init
    };
    assert(init.after(Ok(()), echo) == Verdict::Goto(Script::Init(first)));
    lemma_busy_card_is_polled_again(first, busy);
    if busy.len() < NEGOTIATION_POLLS {
        lemma_ready_card_ends_negotiation(first, busy, ready);
    }
}

/// The card identification and the card-specific data arrive in big-endian
/// word order: the first response register is the most significant word of
/// the register that goes on record, the fourth the least significant.
/// `block` holds the four response registers in the order in which they were
/// read.
pub proof fn lemma_long_response_is_most_significant_first(init: Init, block: [u32; 16])
    ensures
        init.stage is CidReply ==> {
            &&& init.after(Ok(()), block) matches Verdict::Goto(Script::Init(next))
            &&& next.draft.cid[3] == block[0]
            &&& next.draft.cid[2] == block[1]
            &&& next.draft.cid[1] == block[2]
            &&& next.draft.cid[0] == block[3]
            &&& wide_value(next.draft.cid) == ((block[0] as u128) << 96) | ((block[1] as u128)
                << 64) | ((block[2] as u128) << 32) | (block[3] as u128)
        },
        init.stage is CsdReply ==> {
            &&& init.after(Ok(()), block) matches Verdict::Goto(Script::Init(next))
            &&& next.draft.csd[3] == block[0]
            &&& next.draft.csd[2] == block[1]
            &&& next.draft.csd[1] == block[2]
            &&& next.draft.csd[0] == block[3]
            &&& wide_value(next.draft.csd) == ((block[0] as u128) << 96) | ((block[1] as u128)
                << 64) | ((block[2] as u128) << 32) | (block[3] as u128)
        },
{
}

/// A CRC failure during voltage negotiation does not end the script. When
/// SD_SEND_OP_COND fails so, the script goes on as if it had succeeded; when
/// the APP_CMD before it fails so, the script goes on to read the operating
/// conditions.
pub proof fn lemma_negotiation_forgives_crc(init: Init, block: [u32; 16])
    ensures
        init.stage is OpCond ==> init.after(Err(Error::Crc), block) == init.after(Ok(()), block),
        init.stage is OpCondPrefix ==> init.after(Err(Error::Crc), block) == Verdict::Goto(
            Script::Init(init.at(InitStage::OpCondReply)),
        ),
        init.stage is OpCondPrefix || init.stage is OpCond ==> !(init.after(
            Err(Error::Crc),
            block,
        ) is Finish),
{
}

/// A hardware timeout of SELECT_CARD is forgiven when the card's address is
/// 0, and only then: with any other address it ends the script with
/// `Timeout`.
pub proof fn lemma_select_forgives_timeout_at_address_zero(init: Init, block: [u32; 16])
    requires
        init.stage is Select,
    ensures
        select_outcome_of(0, Err(Error::Timeout)) == Ok::<(), Error>(()),
        forall|rca: u16|
            rca != 0 ==> #[trigger] select_outcome_of(rca, Err(Error::Timeout)) == Err::<
                (),
                Error,
            >(Error::Timeout),
        init.draft.address() == 0 ==> init.after(Err(Error::Timeout), block) == Verdict::Goto(
            Script::Init(init.at(InitStage::ScrBlockLength)),
        ),
        init.draft.address() != 0 ==> init.after(Err(Error::Timeout), block) == Verdict::Finish(
            Err(Error::Timeout),
        ),
{
}

} // verus!
