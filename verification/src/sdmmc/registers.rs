//! The host controller's registers as the driver sees them.
//!
//! The driver never touches memory-mapped registers itself. It asks for one
//! register access at a time (an [`Effect`]) and is told what the access
//! returned (a [`Reply`]). Fields are named as in the controller's reference
//! manual; where a field sits inside its register is left to whoever performs
//! the access.

use vstd::prelude::*;

verus! {

/// The flags of the status register that the driver looks at, as one read of
/// the register returned them.
#[derive(Clone, Copy, Debug, PartialEq, Eq, Structural)]
pub struct Status {
    /// A command transfer is in progress.
    pub cmdact: bool,
    /// Data is being received.
    pub rxact: bool,
    /// Data is being transmitted.
    pub txact: bool,
    /// The card did not answer the command in time.
    pub ctimeout: bool,
    /// A response arrived but its CRC was wrong.
    pub ccrcfail: bool,
    /// A command without response has been sent.
    pub cmdsent: bool,
    /// A response with a good CRC has been received.
    pub cmdrend: bool,
    /// The receive FIFO overran.
    pub rxoverr: bool,
    /// A data block arrived with a wrong CRC.
    pub dcrcfail: bool,
    /// The data timer ran out.
    pub dtimeout: bool,
    /// A data block was transferred and its CRC was good.
    pub dbckend: bool,
    /// The receive FIFO holds at least one word.
    pub rxdavl: bool,
    /// The receive FIFO holds at least eight words.
    pub rxfifohf: bool,
}

/// The flags of the interrupt-clear register. A flag that is set clears the
/// status flag of the same name.
#[derive(Clone, Copy, Debug, PartialEq, Eq, Structural)]
pub struct InterruptClear {
    pub ccrcfailc: bool,
    pub ctimeoutc: bool,
    pub ceataendc: bool,
    pub cmdrendc: bool,
    pub cmdsentc: bool,
    pub dataendc: bool,
    pub dbckendc: bool,
    pub dcrcfailc: bool,
    pub dtimeoutc: bool,
    pub sdioitc: bool,
    pub stbiterrc: bool,
    pub rxoverrc: bool,
    pub txunderrc: bool,
}

impl InterruptClear {
    /// Every flag of the register is set.
    pub open spec fn all() -> InterruptClear {
        InterruptClear {
            ccrcfailc: true,
            ctimeoutc: true,
            ceataendc: true,
            cmdrendc: true,
            cmdsentc: true,
            dataendc: true,
            dbckendc: true,
            dcrcfailc: true,
            dtimeoutc: true,
            sdioitc: true,
            stbiterrc: true,
            rxoverrc: true,
            txunderrc: true,
        }
    }
}

/// The value to write to the interrupt-clear register before a command is
/// started: it clears every pending flag.
pub fn clear_all_interrupts() -> (icr: InterruptClear)
    ensures
        icr == InterruptClear::all(),
{
    InterruptClear {
        ccrcfailc: true,
        ctimeoutc: true,
        ceataendc: true,
        cmdrendc: true,
        cmdsentc: true,
        dataendc: true,
        dbckendc: true,
        dcrcfailc: true,
        dtimeoutc: true,
        sdioitc: true,
        stbiterrc: true,
        rxoverrc: true,
        txunderrc: true,
    }
}

/// All fields of the clock control register.
#[derive(Clone, Copy, Debug, PartialEq, Eq, Structural)]
pub struct ClockControl {
    /// Clock the bus on the falling edge.
    pub negedge: bool,
    /// Bypass the clock divider.
    pub bypass: bool,
    /// Stop the clock while the bus is idle.
    pub pwrsav: bool,
    /// Bus width: 0 for one line, 1 for four, 2 for eight.
    pub widbus: u8,
    /// Hardware flow control.
    pub hwfc_en: bool,
    /// Clock divider.
    pub clkdiv: u8,
    /// Drive the clock.
    pub clken: bool,
}

/// Direction of a data transfer.
#[derive(Clone, Copy, Debug, PartialEq, Eq, Structural)]
pub enum Dir {
    HostToCard,
    CardToHost,
}

/// One access to the host controller, or a pause, that the driver asks for.
#[derive(Clone, Copy, Debug, PartialEq, Eq, Structural)]
pub enum Effect {
    /// Write every field of the clock control register.
    ConfigureClock(ClockControl),
    /// Write the clock-enable bit and leave the rest of the clock control
    /// register as it is.
    SetClockEnable { clken: bool },
    /// Write the divider, the bus width and the clock-enable bit to the clock
    /// control register and leave the rest of it as it is.
    SetBus { clkdiv: u8, widbus: u8, clken: bool },
    /// Write the power control field of the power register.
    SetPower { pwrctrl: u8 },
    /// Wait for this many core clock cycles.
    Delay { cycles: u32 },
    /// Write the interrupt-clear register.
    ClearInterrupts(InterruptClear),
    /// Write the command argument register.
    WriteArgument(u32),
    /// Write the command register: the command index, the kind of response to
    /// wait for, whether to wait for an interrupt, and whether the command
    /// path is enabled, which starts the command.
    WriteCommand { cmdindex: u8, waitresp: u8, waitint: bool, cpsmen: bool },
    /// Write the data timer register.
    WriteDataTimer(u32),
    /// Write the data length register.
    WriteDataLength(u32),
    /// Write the data control register: the block size as a power of two, the
    /// direction (set for card to host), the mode (clear for block
    /// transfers), and whether the data path is enabled, which starts the
    /// transfer.
    WriteDataControl { dblocksize: u8, dtdir: bool, dtmode: bool, dten: bool },
    /// Read the status register.
    ReadStatus,
    /// Read one of the four response registers, counted from 1.
    ReadResponse(u8),
    /// Read one word from the data FIFO.
    ReadFifo,
}

/// What an access returned.
#[derive(Clone, Copy, Debug, PartialEq, Eq, Structural)]
pub enum Reply {
    /// The write was made, or the pause is over.
    Done,
    /// The flags that a read of the status register returned.
    Status(Status),
    /// The word that a read of a response register or of the FIFO returned.
    Word(u32),
}

impl Effect {
    /// Whether `reply` is the kind of reply that this effect produces.
    pub open spec fn answered_by(self, reply: Reply) -> bool {
        match self {
            Effect::ReadStatus => reply is Status,
            Effect::ReadResponse(_) | Effect::ReadFifo => reply is Word,
            _ => reply is Done,
        }
    }

    /// Whether `reply` is the kind of reply that this effect produces.
    pub fn accepts(&self, reply: &Reply) -> (fits: bool)
        ensures
            fits == self.answered_by(*reply),
    {
        match self {
            Effect::ReadStatus => match reply {
                Reply::Status(_) => true,
                _ => false,
            },
            Effect::ReadResponse(_) | Effect::ReadFifo => match reply {
                Reply::Word(_) => true,
                _ => false,
            },
            _ => match reply {
                Reply::Done => true,
                _ => false,
            },
        }
    }
}

} // verus!
