//! Host-to-card commands.
//!
//! A [`Command`] is the plain form of a command: its index, its argument and
//! the length of the response it expects. The commands that the driver sends
//! are built by the `sdio-host` crate; each builder below calls it and states
//! which command comes back.

use vstd::prelude::*;

verus! {

/// How long the response to a command is.
#[derive(Clone, Copy, Debug, PartialEq, Eq, Structural)]
pub enum ResponseLen {
    /// No response.
    Zero,
    /// A short response of 48 bits.
    R48,
    /// A long response of 136 bits.
    R136,
}

impl ResponseLen {
    /// The value of the command register's wait-for-response field.
    pub open spec fn waitresp_bits(self) -> u8 {
        match self {
            ResponseLen::Zero => 0b00,
            ResponseLen::R48 => 0b01,
            ResponseLen::R136 => 0b11,
        }
    }

    /// The value of the command register's wait-for-response field.
    pub fn waitresp(self) -> (bits: u8)
        ensures
            bits == self.waitresp_bits(),
    {
        match self {
            ResponseLen::Zero => 0b00,
            ResponseLen::R48 => 0b01,
            ResponseLen::R136 => 0b11,
        }
    }
}

/// A command as it goes to the card.
#[derive(Clone, Copy, Debug, PartialEq, Eq, Structural)]
pub struct Command {
    /// The command index, 0 to 63.
    pub index: u8,
    /// The 32-bit argument.
    pub arg: u32,
    /// The length of the response that the card sends.
    pub response_len: ResponseLen,
}

impl Command {
    /// CMD0, GO_IDLE_STATE.
    pub open spec fn idle() -> Command {
        Command { index: 0, arg: 0, response_len: ResponseLen::Zero }
    }

    /// CMD2, ALL_SEND_CID.
    pub open spec fn all_send_cid() -> Command {
        Command { index: 2, arg: 0, response_len: ResponseLen::R136 }
    }

    /// CMD3, SEND_RELATIVE_ADDR.
    pub open spec fn send_relative_address() -> Command {
        Command { index: 3, arg: 0, response_len: ResponseLen::R48 }
    }

    /// ACMD6, SET_BUS_WIDTH: four lines if `bw4bit`, one otherwise.
    pub open spec fn set_bus_width(bw4bit: bool) -> Command {
        Command { index: 6, arg: if bw4bit { 0b10 } else { 0b00 }, response_len: ResponseLen::R48 }
    }

    /// CMD7, SELECT_CARD, with the card's address in the upper half of the
    /// argument.
    pub open spec fn select_card(rca: u16) -> Command {
        Command { index: 7, arg: (rca as u32) << 16, response_len: ResponseLen::R48 }
    }

    /// CMD8, SEND_IF_COND: the low four bits of `voltage` above the check
    /// pattern.
    pub open spec fn send_if_cond(voltage: u8, checkpattern: u8) -> Command {
        Command {
            index: 8,
            arg: (((voltage & 0xF) as u32) << 8) | (checkpattern as u32),
            response_len: ResponseLen::R48,
        }
    }

    /// CMD9, SEND_CSD.
    pub open spec fn send_csd(rca: u16) -> Command {
        Command { index: 9, arg: (rca as u32) << 16, response_len: ResponseLen::R136 }
    }

    /// CMD13, SEND_STATUS; bit 15 of the argument asks for the task status.
    pub open spec fn card_status(rca: u16, task_status: bool) -> Command {
        Command {
            index: 13,
            arg: ((rca as u32) << 16) | (if task_status { 0x8000u32 } else { 0u32 }),
            response_len: ResponseLen::R48,
        }
    }

    /// ACMD13, SD_STATUS.
    pub open spec fn sd_status() -> Command {
        Command { index: 13, arg: 0, response_len: ResponseLen::R48 }
    }

    /// CMD16, SET_BLOCKLEN.
    pub open spec fn set_block_length(blocklen: u32) -> Command {
        Command { index: 16, arg: blocklen, response_len: ResponseLen::R48 }
    }

    /// ACMD41, SD_SEND_OP_COND: host capacity support in bit 30, power
    /// control in bit 28, the 1.8 V request in bit 24, and the low nine bits
    /// of the voltage window from bit 15 up.
    pub open spec fn sd_send_op_cond(
        host_high_capacity_support: bool,
        sdxc_power_control: bool,
        switch_to_1_8v_request: bool,
        voltage_window: u16,
    ) -> Command {
        Command {
            index: 41,
            arg: (if host_high_capacity_support { 0x4000_0000u32 } else { 0u32 })
                | (if sdxc_power_control { 0x1000_0000u32 } else { 0u32 })
                | (if switch_to_1_8v_request { 0x0100_0000u32 } else { 0u32 })
                | (((voltage_window & 0x1FF) as u32) << 15),
            response_len: ResponseLen::R48,
        }
    }

    /// ACMD51, SEND_SCR.
    pub open spec fn send_scr() -> Command {
        Command { index: 51, arg: 0, response_len: ResponseLen::R48 }
    }

    /// CMD55, APP_CMD: the next command is an application command.
    pub open spec fn app_cmd(rca: u16) -> Command {
        Command { index: 55, arg: (rca as u32) << 16, response_len: ResponseLen::R48 }
    }
}

/// Calls `sdio_host::common_cmd::idle`, which builds command 0 with a zero
/// argument and no response.
#[verifier::external_body]
pub(crate) fn idle() -> (c: Command)
    ensures
        c == Command::idle(),
{
    let c = sdio_host::common_cmd::idle();
    Command {
        index: c.cmd,
        arg: c.arg,
        response_len: match c.response_len() {
            sdio_host::common_cmd::ResponseLen::Zero => ResponseLen::Zero,
            sdio_host::common_cmd::ResponseLen::R48 => ResponseLen::R48,
            sdio_host::common_cmd::ResponseLen::R136 => ResponseLen::R136,
        },
    }
}

/// Calls `sdio_host::common_cmd::all_send_cid`, which builds command 2 with a
/// zero argument and a long response.
#[verifier::external_body]
pub(crate) fn all_send_cid() -> (c: Command)
    ensures
        c == Command::all_send_cid(),
{
    let c = sdio_host::common_cmd::all_send_cid();
    Command {
        index: c.cmd,
        arg: c.arg,
        response_len: match c.response_len() {
            sdio_host::common_cmd::ResponseLen::Zero => ResponseLen::Zero,
            sdio_host::common_cmd::ResponseLen::R48 => ResponseLen::R48,
            sdio_host::common_cmd::ResponseLen::R136 => ResponseLen::R136,
        },
    }
}

/// Calls `sdio_host::sd_cmd::send_relative_address`, which builds command 3
/// with a zero argument and a short response.
#[verifier::external_body]
pub(crate) fn send_relative_address() -> (c: Command)
    ensures
        c == Command::send_relative_address(),
{
    let c = sdio_host::sd_cmd::send_relative_address();
    Command {
        index: c.cmd,
        arg: c.arg,
        response_len: match c.response_len() {
            sdio_host::common_cmd::ResponseLen::Zero => ResponseLen::Zero,
            sdio_host::common_cmd::ResponseLen::R48 => ResponseLen::R48,
            sdio_host::common_cmd::ResponseLen::R136 => ResponseLen::R136,
        },
    }
}

/// Calls `sdio_host::sd_cmd::set_bus_width`, which builds command 6 with the
/// argument 2 for four lines and 0 for one, and a short response.
#[verifier::external_body]
pub(crate) fn set_bus_width(bw4bit: bool) -> (c: Command)
    ensures
        c == Command::set_bus_width(bw4bit),
{
    let c = sdio_host::sd_cmd::set_bus_width(bw4bit);
    Command {
        index: c.cmd,
        arg: c.arg,
        response_len: match c.response_len() {
            sdio_host::common_cmd::ResponseLen::Zero => ResponseLen::Zero,
            sdio_host::common_cmd::ResponseLen::R48 => ResponseLen::R48,
            sdio_host::common_cmd::ResponseLen::R136 => ResponseLen::R136,
        },
    }
}

/// Calls `sdio_host::common_cmd::select_card`, which builds command 7 with
/// the address shifted into the upper half of the argument, and a short
/// response.
#[verifier::external_body]
pub(crate) fn select_card(rca: u16) -> (c: Command)
    ensures
        c == Command::select_card(rca),
{
    let c = sdio_host::common_cmd::select_card(rca);
    Command {
        index: c.cmd,
        arg: c.arg,
        response_len: match c.response_len() {
            sdio_host::common_cmd::ResponseLen::Zero => ResponseLen::Zero,
            sdio_host::common_cmd::ResponseLen::R48 => ResponseLen::R48,
            sdio_host::common_cmd::ResponseLen::R136 => ResponseLen::R136,
        },
    }
}

/// Calls `sdio_host::sd_cmd::send_if_cond`, which builds command 8 with the
/// low four bits of the voltage in bits 8 to 11 of the argument, the check
/// pattern in bits 0 to 7, and a short response.
#[verifier::external_body]
pub(crate) fn send_if_cond(voltage: u8, checkpattern: u8) -> (c: Command)
    ensures
        c == Command::send_if_cond(voltage, checkpattern),
{
    let c = sdio_host::sd_cmd::send_if_cond(voltage, checkpattern);
    Command {
        index: c.cmd,
        arg: c.arg,
        response_len: match c.response_len() {
            sdio_host::common_cmd::ResponseLen::Zero => ResponseLen::Zero,
            sdio_host::common_cmd::ResponseLen::R48 => ResponseLen::R48,
            sdio_host::common_cmd::ResponseLen::R136 => ResponseLen::R136,
        },
    }
}

/// Calls `sdio_host::common_cmd::send_csd`, which builds command 9 with the
/// address shifted into the upper half of the argument, and a long response.
#[verifier::external_body]
pub(crate) fn send_csd(rca: u16) -> (c: Command)
    ensures
        c == Command::send_csd(rca),
{
    let c = sdio_host::common_cmd::send_csd(rca);
    Command {
        index: c.cmd,
        arg: c.arg,
        response_len: match c.response_len() {
            sdio_host::common_cmd::ResponseLen::Zero => ResponseLen::Zero,
            sdio_host::common_cmd::ResponseLen::R48 => ResponseLen::R48,
            sdio_host::common_cmd::ResponseLen::R136 => ResponseLen::R136,
        },
    }
}

/// Calls `sdio_host::common_cmd::card_status`, which builds command 13 with
/// the address in the upper half of the argument, the task-status flag in
/// bit 15, and a short response.
#[verifier::external_body]
pub(crate) fn card_status(rca: u16, task_status: bool) -> (c: Command)
    ensures
        c == Command::card_status(rca, task_status),
{
    let c = sdio_host::common_cmd::card_status(rca, task_status);
    Command {
        index: c.cmd,
        arg: c.arg,
        response_len: match c.response_len() {
            sdio_host::common_cmd::ResponseLen::Zero => ResponseLen::Zero,
            sdio_host::common_cmd::ResponseLen::R48 => ResponseLen::R48,
            sdio_host::common_cmd::ResponseLen::R136 => ResponseLen::R136,
        },
    }
}

/// Calls `sdio_host::sd_cmd::sd_status`, which builds command 13 with a zero
/// argument and a short response.
#[verifier::external_body]
pub(crate) fn sd_status() -> (c: Command)
    ensures
        c == Command::sd_status(),
{
    let c = sdio_host::sd_cmd::sd_status();
    Command {
        index: c.cmd,
        arg: c.arg,
        response_len: match c.response_len() {
            sdio_host::common_cmd::ResponseLen::Zero => ResponseLen::Zero,
            sdio_host::common_cmd::ResponseLen::R48 => ResponseLen::R48,
            sdio_host::common_cmd::ResponseLen::R136 => ResponseLen::R136,
        },
    }
}

/// Calls `sdio_host::common_cmd::set_block_length`, which builds command 16
/// with the block length as its argument, and a short response.
#[verifier::external_body]
pub(crate) fn set_block_length(blocklen: u32) -> (c: Command)
    ensures
        c == Command::set_block_length(blocklen),
{
    let c = sdio_host::common_cmd::set_block_length(blocklen);
    Command {
        index: c.cmd,
        arg: c.arg,
        response_len: match c.response_len() {
            sdio_host::common_cmd::ResponseLen::Zero => ResponseLen::Zero,
            sdio_host::common_cmd::ResponseLen::R48 => ResponseLen::R48,
            sdio_host::common_cmd::ResponseLen::R136 => ResponseLen::R136,
        },
    }
}

/// Calls `sdio_host::sd_cmd::sd_send_op_cond`, which builds command 41 with
/// the three flags in bits 30, 28 and 24 of the argument, the low nine bits
/// of the voltage window in bits 15 to 23, and a short response.
#[verifier::external_body]
pub(crate) fn sd_send_op_cond(
    host_high_capacity_support: bool,
    sdxc_power_control: bool,
    switch_to_1_8v_request: bool,
    voltage_window: u16,
) -> (c: Command)
    ensures
        c == Command::sd_send_op_cond(
            host_high_capacity_support,
            sdxc_power_control,
            switch_to_1_8v_request,
            voltage_window,
        ),
{
    let (hcs, xpc, s18r) = (host_high_capacity_support, sdxc_power_control, switch_to_1_8v_request);
    let c = sdio_host::sd_cmd::sd_send_op_cond(hcs, xpc, s18r, voltage_window);
    Command {
        index: c.cmd,
        arg: c.arg,
        response_len: match c.response_len() {
            sdio_host::common_cmd::ResponseLen::Zero => ResponseLen::Zero,
            sdio_host::common_cmd::ResponseLen::R48 => ResponseLen::R48,
            sdio_host::common_cmd::ResponseLen::R136 => ResponseLen::R136,
        },
    }
}

/// Calls `sdio_host::sd_cmd::send_scr`, which builds command 51 with a zero
/// argument and a short response.
#[verifier::external_body]
pub(crate) fn send_scr() -> (c: Command)
    ensures
        c == Command::send_scr(),
{
    let c = sdio_host::sd_cmd::send_scr();
    Command {
        index: c.cmd,
        arg: c.arg,
        response_len: match c.response_len() {
            sdio_host::common_cmd::ResponseLen::Zero => ResponseLen::Zero,
            sdio_host::common_cmd::ResponseLen::R48 => ResponseLen::R48,
            sdio_host::common_cmd::ResponseLen::R136 => ResponseLen::R136,
        },
    }
}

/// Calls `sdio_host::common_cmd::app_cmd`, which builds command 55 with the
/// address shifted into the upper half of the argument, and a short response.
#[verifier::external_body]
pub(crate) fn app_cmd(rca: u16) -> (c: Command)
    ensures
        c == Command::app_cmd(rca),
{
    let c = sdio_host::common_cmd::app_cmd(rca);
    Command {
        index: c.cmd,
        arg: c.arg,
        response_len: match c.response_len() {
            sdio_host::common_cmd::ResponseLen::Zero => ResponseLen::Zero,
            sdio_host::common_cmd::ResponseLen::R48 => ResponseLen::R48,
            sdio_host::common_cmd::ResponseLen::R136 => ResponseLen::R136,
        },
    }
}

} // verus!
