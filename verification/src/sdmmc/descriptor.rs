//! What the driver reads out of the words that a card sends back.
//!
//! The card's registers are kept as the 32-bit words in which they arrived.
//! The `sdio-host` crate knows their layout; each decoder below calls it and
//! states which bits it looks at.

use vstd::prelude::*;

verus! {

/// The capacity class of a card.
#[derive(Clone, Copy, Debug, PartialEq, Eq, Structural)]
pub enum CardCapacity {
    /// SDSC, up to 2 GB.
    StandardCapacity,
    /// SDHC or SDXC.
    HighCapacity,
}

/// The state that a card reports in its status word.
#[derive(Clone, Copy, Debug, PartialEq, Eq, Structural)]
pub enum CurrentState {
    Ready,
    Identification,
    Standby,
    Transfer,
    Sending,
    Receiving,
    Programming,
    Disconnected,
    BusTest,
    Sleep,
    Error,
}

/// The check pattern that a card echoes in its interface condition: the low
/// byte of the response.
pub open spec fn pattern_of(cic: u32) -> u8 {
    (cic & 0xFF) as u8
}

/// Whether an operating conditions word says that the card is still powering
/// up: bit 31 is clear while it is.
pub open spec fn busy_in(ocr: u32) -> bool {
    ocr & 0x8000_0000 == 0
}

/// Whether an operating conditions word reports a high capacity card: bit 30.
pub open spec fn high_capacity_in(ocr: u32) -> bool {
    ocr & 0x4000_0000 != 0
}

/// The card's address in the response to SEND_RELATIVE_ADDR: its upper half.
pub open spec fn address_of(rca: u32) -> u16 {
    (rca >> 16) as u16
}

/// Whether a configuration register, low word first, says that the card can
/// use four data lines: bit 50 of the register, bit 18 of its high word.
pub open spec fn four_bit_in(scr: [u32; 2]) -> bool {
    scr[1] & 0x4_0000 != 0
}

/// The 128-bit register that four words make up, least significant word
/// first.
pub open spec fn wide_value(words: [u32; 4]) -> u128 {
    ((words[3] as u128) << 96) | ((words[2] as u128) << 64) | ((words[1] as u128) << 32) | (
    words[0] as u128)
}

/// The state field of a card status word: bits 9 to 12.
pub open spec fn state_of(status: u32) -> CurrentState {
    let field = (status >> 9) & 0xF;
    if field == 1 {
        CurrentState::Ready
    } else if field == 2 {
        CurrentState::Identification
    } else if field == 3 {
        CurrentState::Standby
    } else if field == 4 {
        CurrentState::Transfer
    } else if field == 5 {
        CurrentState::Sending
    } else if field == 6 {
        CurrentState::Receiving
    } else if field == 7 {
        CurrentState::Programming
    } else if field == 8 {
        CurrentState::Disconnected
    } else if field == 9 {
        CurrentState::BusTest
    } else if field == 10 {
        CurrentState::Sleep
    } else {
        CurrentState::Error
    }
}

/// Calls `sdio_host::sd::CIC::pattern` on the response word, which returns
/// its low byte.
#[verifier::external_body]
pub(crate) fn cic_pattern(cic: u32) -> (pattern: u8)
    ensures
        pattern == pattern_of(cic),
{
    sdio_host::sd::CIC::from(cic).pattern()
}

/// Calls `sdio_host::sd::OCR::is_busy` on the response word, which tests
/// that bit 31 is clear.
#[verifier::external_body]
pub(crate) fn ocr_is_busy(ocr: u32) -> (busy: bool)
    ensures
        busy == busy_in(ocr),
{
    sdio_host::sd::OCR::<sdio_host::sd::SD>::from(ocr).is_busy()
}

/// Calls `sdio_host::sd::OCR::high_capacity` on the response word, which
/// tests bit 30.
#[verifier::external_body]
pub(crate) fn ocr_high_capacity(ocr: u32) -> (high: bool)
    ensures
        high == high_capacity_in(ocr),
{
    sdio_host::sd::OCR::<sdio_host::sd::SD>::from(ocr).high_capacity()
}

/// Calls `sdio_host::sd::RCA::address` on the response word, which returns
/// its upper 16 bits.
#[verifier::external_body]
pub(crate) fn rca_address(rca: u32) -> (address: u16)
    ensures
        address == address_of(rca),
{
    sdio_host::sd::RCA::<sdio_host::sd::SD>::from(rca).address()
}

/// Calls `sdio_host::sd::SCR::bus_width_four` on the register made of the two
/// words, low word first, which tests bit 50 of the register.
#[verifier::external_body]
pub(crate) fn scr_bus_width_four(scr: [u32; 2]) -> (four: bool)
    ensures
        four == four_bit_in(scr),
{
    sdio_host::sd::SCR::from(scr).bus_width_four()
}

/// Calls `sdio_host::sd::CardStatus::state` on the status word, which decodes
/// bits 9 to 12: 1 to 10 name a state, every other value is `Error`.
#[verifier::external_body]
pub(crate) fn card_state(status: u32) -> (state: CurrentState)
    ensures
        state == state_of(status),
{
    match sdio_host::sd::CardStatus::<sdio_host::sd::SD>::from(status).state() {
        sdio_host::sd::CurrentState::Ready => CurrentState::Ready,
        sdio_host::sd::CurrentState::Identification => CurrentState::Identification,
        sdio_host::sd::CurrentState::Standby => CurrentState::Standby,
        sdio_host::sd::CurrentState::Transfer => CurrentState::Transfer,
        sdio_host::sd::CurrentState::Sending => CurrentState::Sending,
        sdio_host::sd::CurrentState::Receiving => CurrentState::Receiving,
        sdio_host::sd::CurrentState::Programming => CurrentState::Programming,
        sdio_host::sd::CurrentState::Disconnected => CurrentState::Disconnected,
        sdio_host::sd::CurrentState::BusTest => CurrentState::BusTest,
        sdio_host::sd::CurrentState::Sleep => CurrentState::Sleep,
        sdio_host::sd::CurrentState::Error => CurrentState::Error,
    }
}

/// The word with its four bytes in reverse order.
pub open spec fn swapped(word: u32) -> u32 {
    ((word & 0xFF) << 24) | ((word & 0xFF00) << 8) | ((word >> 8) & 0xFF00) | (word >> 24)
}

/// Byte `i` of a word, counted from the least significant.
pub open spec fn byte_of(word: u32, i: u32) -> u32 {
    (word >> (8 * i)) & 0xFF
}

/// Reverses the byte order of a word that came out of the data FIFO.
pub fn swap_bytes(word: u32) -> (r: u32)
    ensures
        r == swapped(word),
{
    ((word & 0xFF) << 24) | ((word & 0xFF00) << 8) | ((word >> 8) & 0xFF00) | (word >> 24)
}

/// Byte `i` of the swapped word is byte `3 - i` of the word.
pub proof fn lemma_swapped_reverses_bytes(word: u32)
    ensures
        byte_of(swapped(word), 0) == byte_of(word, 3),
        byte_of(swapped(word), 1) == byte_of(word, 2),
        byte_of(swapped(word), 2) == byte_of(word, 1),
        byte_of(swapped(word), 3) == byte_of(word, 0),
{
    assert(byte_of(swapped(word), 0) == byte_of(word, 3)) by (bit_vector);
    assert(byte_of(swapped(word), 1) == byte_of(word, 2)) by (bit_vector);
    assert(byte_of(swapped(word), 2) == byte_of(word, 1)) by (bit_vector);
    assert(byte_of(swapped(word), 3) == byte_of(word, 0)) by (bit_vector);
}

} // verus!
