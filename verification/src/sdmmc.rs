//! SD card host driver.
//!
//! The driver brings a card up (identification, addressing, bus width and
//! clock), sends commands and reads the card's status registers. It owns no
//! hardware: [`SdMmc::pending`] names the register access to make next and
//! [`SdMmc::advance`] takes what the access returned.

use vstd::prelude::*;
use crate::sdmmc::command::Command;
use crate::sdmmc::descriptor::{
    address_of,
    four_bit_in,
    rca_address,
    scr_bus_width_four,
    CardCapacity,
};
use crate::sdmmc::registers::Reply;
use crate::sdmmc::host::{HostState, Step};
use crate::sdmmc::script::{AppCmd, Script};

pub mod command;
pub mod datapath;
pub mod descriptor;
pub mod engine;
pub mod host;
pub mod init;
pub mod issue;
pub mod registers;
pub mod script;

verus! {

/// The clock pin.
pub trait PinClk {

}

/// The command pin.
pub trait PinCmd {

}

/// Data line 0.
pub trait PinD0 {

}

/// Data line 1.
pub trait PinD1 {

}

/// Data line 2.
pub trait PinD2 {

}

/// Data line 3.
pub trait PinD3 {

}

/// Data line 4.
pub trait PinD4 {

}

/// Data line 5.
pub trait PinD5 {

}

/// Data line 6.
pub trait PinD6 {

}

/// Data line 7.
pub trait PinD7 {

}

/// A set of pins that connects a card slot, and the bus width it is wired
/// for.
pub trait Pins {
    const BUS_WIDTH: BusWidth;
}

impl<CLK, CMD, D0> Pins for (CLK, CMD, D0) where CLK: PinClk, CMD: PinCmd, D0: PinD0 {
    const BUS_WIDTH: BusWidth = BusWidth::One;
}

impl<CLK, CMD, D0, D1, D2, D3> Pins for (CLK, CMD, D0, D1, D2, D3) where
    CLK: PinClk,
    CMD: PinCmd,
    D0: PinD0,
    D1: PinD1,
    D2: PinD2,
    D3: PinD3,
 {
    const BUS_WIDTH: BusWidth = BusWidth::Four;
}

impl<CLK, CMD, D0, D1, D2, D3, D4, D5, D6, D7> Pins for (
    CLK,
    CMD,
    D0,
    D1,
    D2,
    D3,
    D4,
    D5,
    D6,
    D7,
) where
    CLK: PinClk,
    CMD: PinCmd,
    D0: PinD0,
    D1: PinD1,
    D2: PinD2,
    D3: PinD3,
    D4: PinD4,
    D5: PinD5,
    D6: PinD6,
    D7: PinD7,
 {
    const BUS_WIDTH: BusWidth = BusWidth::Eight;
}

/// The number of data lines of the bus.
#[derive(Clone, Copy, Debug, PartialEq, Eq, Structural)]
pub enum BusWidth {
    One,
    Four,
    Eight,
}

impl BusWidth {
    /// The value of the clock control register's bus width field.
    pub open spec fn widbus_bits(self) -> u8 {
        match self {
            BusWidth::One => 0,
            BusWidth::Four => 1,
            BusWidth::Eight => 2,
        }
    }

    /// The number of data lines.
    pub open spec fn lines(self) -> nat {
        match self {
            BusWidth::One => 1,
            BusWidth::Four => 4,
            BusWidth::Eight => 8,
        }
    }

    /// The value of the clock control register's bus width field.
    pub fn widbus(self) -> (bits: u8)
        ensures
            bits == self.widbus_bits(),
    {
        match self {
            BusWidth::One => 0,
            BusWidth::Four => 1,
            BusWidth::Eight => 2,
        }
    }
}

/// The bus clock frequencies that the driver can select.
#[derive(Clone, Copy, Debug, PartialEq, Eq, Structural)]
pub enum ClockFreq {
    Freq24MHz,
    Freq16MHz,
    Freq12MHz,
    Freq8MHz,
    Freq4MHz,
    Freq1MHz,
    Freq400KHz,
}

impl ClockFreq {
    /// The clock divider that gives this frequency.
    pub open spec fn clkdiv_bits(self) -> u8 {
        match self {
            ClockFreq::Freq24MHz => 0,
            ClockFreq::Freq16MHz => 1,
            ClockFreq::Freq12MHz => 2,
            ClockFreq::Freq8MHz => 8,
            ClockFreq::Freq4MHz => 10,
            ClockFreq::Freq1MHz => 46,
            ClockFreq::Freq400KHz => 118,
        }
    }

    /// The clock divider that gives this frequency.
    pub fn clkdiv(self) -> (bits: u8)
        ensures
            bits == self.clkdiv_bits(),
    {
        match self {
            ClockFreq::Freq24MHz => 0,
            ClockFreq::Freq16MHz => 1,
            ClockFreq::Freq12MHz => 2,
            ClockFreq::Freq8MHz => 8,
            ClockFreq::Freq4MHz => 10,
            ClockFreq::Freq1MHz => 46,
            ClockFreq::Freq400KHz => 118,
        }
    }
}

/// What can go wrong while talking to a card.
#[derive(Clone, Copy, Debug, PartialEq, Eq, Structural)]
pub enum Error {
    /// No card has been initialised.
    NoCard,
    /// The driver gave up waiting: a polling or retry budget ran out.
    SoftwareTimeout,
    /// A response arrived with a wrong CRC.
    Crc,
    /// A data block arrived with a wrong CRC.
    DataCrcFail,
    /// The receive FIFO overran.
    RxOverFlow,
    /// The controller reported that the card did not answer in time.
    Timeout,
    /// The transmit FIFO ran empty.
    TxUnderErr,
    /// The response does not belong to the command that was sent.
    RespCmdMismatch,
}

/// The registers of a card that has been initialised, each as 32-bit words,
/// least significant word first. A long response arrives most significant
/// word first: its first response register is the last word here.
#[derive(Clone, Copy, Debug, PartialEq, Eq)]
pub struct SdCard {
    /// The capacity class, taken from the operating conditions.
    pub capacity: CardCapacity,
    /// The operating conditions register.
    pub ocr: u32,
    /// The card identification register.
    pub cid: [u32; 4],
    /// The response that holds the relative card address.
    pub rca: u32,
    /// The card-specific data register.
    pub csd: [u32; 4],
    /// The SD configuration register.
    pub scr: [u32; 2],
}

impl SdCard {
    /// A card of standard capacity whose registers are all zero.
    pub open spec fn blank() -> SdCard {
        SdCard {
            capacity: CardCapacity::StandardCapacity,
            ocr: 0,
            cid: [0u32, 0u32, 0u32, 0u32],
            rca: 0,
            csd: [0u32, 0u32, 0u32, 0u32],
            scr: [0u32, 0u32],
        }
    }

    /// The relative card address.
    pub open spec fn address(self) -> u16 {
        address_of(self.rca)
    }

    /// Whether the card can use four data lines.
    pub open spec fn widebus(self) -> bool {
        four_bit_in(self.scr)
    }

    /// The relative card address.
    pub fn get_address(&self) -> (address: u16)
        ensures
            address == self.address(),
    {
        rca_address(self.rca)
    }

    /// Whether the card can use four data lines.
    pub fn supports_widebus(&self) -> (four: bool)
        ensures
            four == self.widebus(),
    {
        scr_bus_width_four(self.scr)
    }
}

impl Default for SdCard {
    fn default() -> (card: SdCard)
        ensures
            card == SdCard::blank(),
    {
        SdCard {
            capacity: CardCapacity::StandardCapacity,
            ocr: 0,
            cid: [0u32, 0u32, 0u32, 0u32],
            rca: 0,
            csd: [0u32, 0u32, 0u32, 0u32],
            scr: [0u32, 0u32],
        }
    }
}

/// The kind of a card.
#[derive(Clone, Copy, Debug, PartialEq, Eq, Structural)]
pub enum SdCardType {
    Sdsc,
    SdhcSdxc,
}

/// The version of the physical layer specification that a card follows.
#[derive(Clone, Copy, Debug, PartialEq, Eq, Structural)]
pub enum SdCardVersion {
    V1,
    V2,
}

/// The SD card host driver.
///
/// The driver runs one script at a time. `new`, `init`, `power_card`,
/// `read_sd_status`, `cmd` and `app_cmd` each start a script, in place of
/// whatever script was under way; the caller then makes the access that
/// [`SdMmc::pending`] names and hands its reply to [`SdMmc::advance`], until
/// `pending` says that the script has ended.
pub struct SdMmc {
    state: HostState,
}

impl View for SdMmc {
    type V = HostState;

    closed spec fn view(&self) -> HostState {
        self.state
    }
}

impl SdMmc {
    #[verifier::type_invariant]
    spec fn inv(self) -> bool {
        self.state.wf()
    }

    /// A driver for a slot wired with `PINS`, on a core clock of `clock_hz`
    /// hertz. It starts by setting the controller up: the bus clock is
    /// configured for identification mode and left off, and the card's power
    /// is switched off.
    pub fn new<PINS: Pins>(_pins: PINS, clock_hz: u32) -> (host: SdMmc)
        ensures
            host@ == HostState::created(clock_hz, PINS::BUS_WIDTH),
    {
        SdMmc { state: HostState::create(clock_hz, PINS::BUS_WIDTH) }
    }

    /// What to do next: a register access to make, or nothing because the
    /// script has ended.
    pub fn pending(&self) -> (step: Step)
        ensures
            step == self@.step(),
    {
        proof {
            use_type_invariant(self);
        }
        self.state.pending()
    }

    /// Takes the reply to the pending access.
    pub fn advance(&mut self, reply: Reply)
        ensures
            final(self)@ == old(self)@.advanced(reply),
    {
        proof {
            use_type_invariant(&*self);
        }
        let mut state = self.state;
        state.advance(reply);
        self.state = state;
    }

    /// Starts to initialise the card in the slot and to switch the bus to
    /// `freq` and to the widest bus that card and host share. The card that
    /// was on record is forgotten at once; the new card goes on record when
    /// all its registers have been read.
    pub fn init(&mut self, freq: ClockFreq)
        ensures
            final(self)@ == old(self)@.init_begun(freq),
            final(self)@.card is None,
    {
        let mut state = self.state;
        state.begin_init(freq);
        self.state = state;
    }

    /// Starts to switch the card's power on or off.
    pub fn power_card(&mut self, on: bool)
        ensures
            final(self)@ == old(self)@.started(Script::PowerCard(on)),
    {
        let mut state = self.state;
        state.start(Script::PowerCard(on));
        self.state = state;
    }

    /// Starts to read the SD status of the card on record. The script ends
    /// with the 16 words of the status. Without a card on record it has
    /// ended already, with `NoCard`, and asks for no register access.
    pub fn read_sd_status(&mut self)
        ensures
            final(self)@ == old(self)@.read_sd_status_begun(),
            old(self)@.card is None ==> final(self)@.step() == Step::Finished(
                Err(Error::NoCard),
            ),
    {
        proof {
            use_type_invariant(&*self);
        }
        let mut state = self.state;
        state.begin_read_sd_status();
        self.state = state;
    }

    /// The card on record, or `NoCard`.
    pub fn card(&self) -> (r: Result<&SdCard, Error>)
        ensures
            match self@.card {
                Some(card) => r == Ok::<&SdCard, Error>(&card),
                None => r == Err::<&SdCard, Error>(Error::NoCard),
            },
    {
        match &self.state.card {
            Some(card) => Ok(card),
            None => Err(Error::NoCard),
        }
    }

    /// Starts to send an application command: APP_CMD goes first, to the
    /// card on record or to address 0 if there is none, and `cmd` follows if
    /// that succeeded.
    pub fn app_cmd(&mut self, cmd: Command)
        ensures
            final(self)@ == old(self)@.started(Script::AppCmd(AppCmd::Prefix(cmd))),
    {
        let mut state = self.state;
        state.start(Script::AppCmd(AppCmd::Prefix(cmd)));
        self.state = state;
    }

    /// Starts to send a command.
    pub fn cmd(&mut self, cmd: Command)
        ensures
            final(self)@ == old(self)@.started(Script::Cmd(cmd)),
    {
        let mut state = self.state;
        state.start(Script::Cmd(cmd));
        self.state = state;
    }
}

} // verus!
