//! The data path: sets up a block transfer and drains the receive FIFO into
//! a block of words.
//!
//! Words come out of the FIFO in wire order, most significant word of the
//! card's register first, and each with its bytes reversed. The drain puts
//! the bytes of each word back in order and fills the block from its last
//! slot down, so that the block ends up least significant word first.

use vstd::prelude::*;
use crate::sdmmc::Error;
use crate::sdmmc::descriptor::{swap_bytes, swapped};
use crate::sdmmc::issue::Progress;
use crate::sdmmc::registers::{Dir, Effect, Reply, Status};

verus! {

/// The number of words in the block that a drain fills.
pub const BLOCK_WORDS: usize = 16;

/// The largest block size that the data path takes, as a power of two.
pub const MAX_BLOCK_SIZE: u8 = 14;

/// A block of zeros.
pub open spec fn blank_block() -> [u32; 16] {
    [
        0u32,
        0u32,
        0u32,
        0u32,
        0u32,
        0u32,
        0u32,
        0u32,
        0u32,
        0u32,
        0u32,
        0u32,
        0u32,
        0u32,
        0u32,
        0u32,
    ]
}

/// A block of zeros.
pub fn clear_block() -> (block: [u32; 16])
    ensures
        block == blank_block(),
{
    let block = [0u32; 16];
    assert(block =~= blank_block());
    block
}

/// What the transfer setup waits for.
#[derive(Clone, Copy, Debug, PartialEq, Eq, Structural)]
pub enum SetupPhase {
    /// The status register is read until no command is active and no data is
    /// received or transmitted.
    AwaitIdle,
    /// The data timer is written.
    Timer,
    /// The data length is written.
    Length,
    /// The data control register is written, which starts the data path.
    Control,
}

/// The setup of a block transfer.
#[derive(Clone, Copy, Debug, PartialEq, Eq, Structural)]
pub struct TransferSetup {
    /// The length of the transfer in bytes.
    pub length_bytes: u32,
    /// The block size as a power of two.
    pub block_size: u8,
    /// Which way the data goes.
    pub direction: Dir,
    /// What the setup waits for.
    pub phase: SetupPhase,
}

impl TransferSetup {
    /// The setup as it starts.
    pub open spec fn begun(length_bytes: u32, block_size: u8, direction: Dir) -> TransferSetup {
        TransferSetup { length_bytes, block_size, direction, phase: SetupPhase::AwaitIdle }
    }

    /// The register access that the setup waits for. The data timer is set to
    /// its largest value; the transfer is a block transfer and starts with
    /// the write of the data control register.
    pub open spec fn effect(self) -> Effect {
        match self.phase {
            SetupPhase::AwaitIdle => Effect::ReadStatus,
            SetupPhase::Timer => Effect::WriteDataTimer(0xFFFF_FFFF),
            SetupPhase::Length => Effect::WriteDataLength(self.length_bytes),
            SetupPhase::Control => Effect::WriteDataControl {
                dblocksize: self.block_size,
                dtdir: self.direction is CardToHost,
                dtmode: false,
                dten: true,
            },
        }
    }

    /// The setup after `reply`. It never fails. A reply of the wrong kind
    /// changes nothing.
    pub open spec fn next(self, reply: Reply) -> Progress<TransferSetup> {
        match (self.phase, reply) {
            (SetupPhase::AwaitIdle, Reply::Status(status)) => if !status.cmdact && !status.rxact
                && !status.txact {
                Progress::Running(TransferSetup { phase: SetupPhase::Timer, ..self })
            } else {
                Progress::Running(self)
            },
            (SetupPhase::Timer, Reply::Done) => Progress::Running(
                TransferSetup { phase: SetupPhase::Length, ..self },
            ),
            (SetupPhase::Length, Reply::Done) => Progress::Running(
                TransferSetup { phase: SetupPhase::Control, ..self },
            ),
            (SetupPhase::Control, Reply::Done) => Progress::Complete(Ok(())),
            _ => Progress::Running(self),
        }
    }

    /// The register access to make next.
    pub fn pending(&self) -> (effect: Effect)
        ensures
            effect == self.effect(),
    {
        match self.phase {
            SetupPhase::AwaitIdle => Effect::ReadStatus,
            SetupPhase::Timer => Effect::WriteDataTimer(0xFFFF_FFFF),
            SetupPhase::Length => Effect::WriteDataLength(self.length_bytes),
            SetupPhase::Control => Effect::WriteDataControl {
                dblocksize: self.block_size,
                dtdir: match self.direction {
                    Dir::HostToCard => false,
                    Dir::CardToHost => true,
                },
                dtmode: false,
                dten: true,
            },
        }
    }

    /// Takes the reply to the pending access.
    pub fn advance(self, reply: Reply) -> (progress: Progress<TransferSetup>)
        ensures
            progress == self.next(reply),
    {
        match (self.phase, reply) {
            (SetupPhase::AwaitIdle, Reply::Status(status)) => {
                if !status.cmdact && !status.rxact && !status.txact {
                    Progress::Running(TransferSetup { phase: SetupPhase::Timer, ..self })
                } else {
                    Progress::Running(self)
                }
            },
            (SetupPhase::Timer, Reply::Done) => Progress::Running(
                TransferSetup { phase: SetupPhase::Length, ..self },
            ),
            (SetupPhase::Length, Reply::Done) => Progress::Running(
                TransferSetup { phase: SetupPhase::Control, ..self },
            ),
            (SetupPhase::Control, Reply::Done) => Progress::Complete(Ok(())),
            _ => Progress::Running(self),
        }
    }
}

/// Starts the setup of a transfer of `length_bytes` bytes in blocks of two to
/// the power of `block_size` bytes.
pub fn start_datapath_transfer(length_bytes: u32, block_size: u8, direction: Dir) -> (setup:
    TransferSetup)
    requires
        block_size <= MAX_BLOCK_SIZE,
    ensures
        setup == TransferSetup::begun(length_bytes, block_size, direction),
{
    TransferSetup { length_bytes, block_size, direction, phase: SetupPhase::AwaitIdle }
}

/// How the controller says that data can be read from the FIFO.
#[derive(Clone, Copy, Debug, PartialEq, Eq, Structural)]
pub enum Burst {
    /// One word at a time, when the FIFO holds data.
    Single,
    /// Eight words at a time, when the FIFO is half full.
    HalfFifo,
}

impl Burst {
    /// The number of words to read when the flag is set.
    pub open spec fn word_count(self) -> usize {
        match self {
            Burst::Single => 1,
            Burst::HalfFifo => 8,
        }
    }

    /// Whether the flag of this burst is set in `status`.
    pub open spec fn signalled_in(self, status: Status) -> bool {
        match self {
            Burst::Single => status.rxdavl,
            Burst::HalfFifo => status.rxfifohf,
        }
    }

    /// The number of words to read when the flag is set.
    pub fn words(self) -> (n: usize)
        ensures
            n == self.word_count(),
    {
        match self {
            Burst::Single => 1,
            Burst::HalfFifo => 8,
        }
    }

    /// Whether the flag of this burst is set in `status`.
    pub fn signalled(self, status: &Status) -> (set: bool)
        ensures
            set == self.signalled_in(*status),
    {
        match self {
            Burst::Single => status.rxdavl,
            Burst::HalfFifo => status.rxfifohf,
        }
    }
}

/// How a read of the status register ends a drain: `None` if it does not.
///
/// An overrun, a CRC failure and a data timeout are fatal, in this order of
/// precedence; the end of the block ends the drain with success.
pub open spec fn drain_outcome_of(status: Status) -> Option<Result<(), Error>> {
    if status.rxoverr {
        Some(Err(Error::RxOverFlow))
    } else if status.dcrcfail {
        Some(Err(Error::DataCrcFail))
    } else if status.dtimeout {
        Some(Err(Error::Timeout))
    } else if status.dbckend {
        Some(Ok(()))
    } else {
        None
    }
}

/// Classifies one read of the status register during a drain.
pub fn drain_outcome(status: &Status) -> (r: Option<Result<(), Error>>)
    ensures
        r == drain_outcome_of(*status),
{
    if status.rxoverr {
        Some(Err(Error::RxOverFlow))
    } else if status.dcrcfail {
        Some(Err(Error::DataCrcFail))
    } else if status.dtimeout {
        Some(Err(Error::Timeout))
    } else if status.dbckend {
        Some(Ok(()))
    } else {
        None
    }
}

/// A drain of the receive FIFO into the first slots of a block.
#[derive(Clone, Copy, Debug, PartialEq, Eq, Structural)]
pub struct Drain {
    /// How the controller signals data.
    pub burst: Burst,
    /// The number of slots that are still empty: slots `0` to `left - 1`.
    pub left: usize,
    /// The number of words still to read from the FIFO before the status
    /// register is looked at again.
    pub pending: usize,
}

impl Drain {
    /// A drain that is under way has an empty slot and reads no more words
    /// than there are empty slots.
    pub open spec fn wf(self) -> bool {
        1 <= self.left <= BLOCK_WORDS && self.pending <= self.left
    }

    /// The drain as it starts on the first `len` slots.
    pub open spec fn begun(len: usize, burst: Burst) -> Drain {
        Drain { burst, left: len, pending: 0 }
    }

    /// The register access that the drain waits for.
    pub open spec fn effect(self) -> Effect {
        if self.pending > 0 {
            Effect::ReadFifo
        } else {
            Effect::ReadStatus
        }
    }

    /// The block after `reply`: a word from the FIFO goes, bytes reversed,
    /// into the highest empty slot.
    pub open spec fn filled(self, reply: Reply, block: [u32; 16]) -> [u32; 16] {
        match reply {
            Reply::Word(word) if self.pending > 0 => vstd::array::spec_array_update(
                block,
                self.left - 1,
                swapped(word),
            ),
            _ => block,
        }
    }

    /// The drain after `reply`. It is complete when the last slot is filled
    /// or the controller ends it. A burst never reads more words than there
    /// are empty slots. A reply of the wrong kind changes nothing.
    pub open spec fn next(self, reply: Reply) -> Progress<Drain> {
        match reply {
            Reply::Status(status) if self.pending == 0 => match drain_outcome_of(status) {
                Some(result) => Progress::Complete(result),
                None => if self.burst.signalled_in(status) {
                    Progress::Running(
                        Drain {
                            pending: if self.burst.word_count() <= self.left {
                                self.burst.word_count()
                            } else {
                                self.left
                            },
                            ..self
                        },
                    )
                } else {
                    Progress::Running(self)
                },
            },
            Reply::Word(_) if self.pending > 0 => if self.left <= 1 {
                Progress::Complete(Ok(()))
            } else {
                Progress::Running(
                    Drain {
                        left: (self.left - 1) as usize,
                        pending: (self.pending - 1) as usize,
                        ..self
                    },
                )
            },
            _ => Progress::Running(self),
        }
    }

    /// Starts a drain into the first `len` slots of a block.
    pub fn begin(len: usize, burst: Burst) -> (drain: Drain)
        requires
            1 <= len <= BLOCK_WORDS,
        ensures
            drain == Drain::begun(len, burst),
            drain.wf(),
    {
        Drain { burst, left: len, pending: 0 }
    }

    /// The register access to make next.
    pub fn pending(&self) -> (effect: Effect)
        ensures
            effect == self.effect(),
    {
        if self.pending > 0 {
            Effect::ReadFifo
        } else {
            Effect::ReadStatus
        }
    }

    /// Takes the reply to the pending access and stores a word in `block`.
    pub fn advance(self, reply: Reply, block: &mut [u32; 16]) -> (progress: Progress<Drain>)
        requires
            self.wf(),
        ensures
            progress == self.next(reply),
            *final(block) == self.filled(reply, *old(block)),
            progress matches Progress::Running(drain) ==> drain.wf(),
    {
        match reply {
            Reply::Status(status) => {
                if self.pending != 0 {
                    return Progress::Running(self);
                }
                match drain_outcome(&status) {
                    Some(result) => Progress::Complete(result),
                    None => {
                        if self.burst.signalled(&status) {
                            let words = self.burst.words();
                            let pending = if words <= self.left {
                                words
                            } else {
                                self.left
                            };
                            Progress::Running(Drain { pending, ..self })
                        } else {
                            Progress::Running(self)
                        }
                    },
                }
            },
            Reply::Word(word) => {
                if self.pending == 0 {
                    return Progress::Running(self);
                }
                block[self.left - 1] = swap_bytes(word);
                assert(*block =~= self.filled(reply, *old(block)));
                if self.left <= 1 {
                    Progress::Complete(Ok(()))
                } else {
                    Progress::Running(
                        Drain { left: self.left - 1, pending: self.pending - 1, ..self },
                    )
                }
            },
            Reply::Done => Progress::Running(self),
        }
    }
}

/// Whether the first `len` slots of `block` hold `words` from the top down,
/// each with its bytes reversed, and zeros below them: `words[0]` in slot
/// `len - 1`, `words[1]` in the slot below, and so on.
pub open spec fn holds_reversed(block: [u32; 16], len: int, words: Seq<u32>) -> bool {
    &&& words.len() <= len <= BLOCK_WORDS
    &&& forall|i: int| 0 <= i < words.len() ==> block[len - 1 - i] == swapped(#[trigger] words[i])
    &&& forall|j: int| 0 <= j < len - words.len() ==> #[trigger] block[j] == 0
}

/// A drain starts on a block that holds no word.
pub proof fn lemma_drain_starts_empty(len: int)
    requires
        0 <= len <= BLOCK_WORDS,
    ensures
        holds_reversed(blank_block(), len, Seq::empty()),
{
}

/// A drain fills the block in reverse. If the block holds the words that
/// have come out of the FIFO from the top down, bytes reversed, then it does
/// so again with the next word, and the drain is complete exactly when that
/// word fills slot 0.
pub proof fn lemma_drain_fills_in_reverse(
    drain: Drain,
    block: [u32; 16],
    len: int,
    words: Seq<u32>,
    word: u32,
)
    requires
        drain.wf(),
        drain.pending > 0,
        drain.left == len - words.len(),
        holds_reversed(block, len, words),
    ensures
        holds_reversed(drain.filled(Reply::Word(word), block), len, words.push(word)),
        match drain.next(Reply::Word(word)) {
            Progress::Running(next) => next.left == len - words.len() - 1 && next.left > 0,
            Progress::Complete(result) => result is Ok && words.len() + 1 == len,
        },
{
    let after = drain.filled(Reply::Word(word), block);
    let longer = words.push(word);
    assert forall|i: int| 0 <= i < longer.len() implies after[len - 1 - i] == swapped(
        #[trigger] longer[i],
    ) by {
        if i < words.len() {
            assert(longer[i] == words[i]);
        }
    }
}

/// The configuration register is put together from two words of the FIFO:
/// the first word, bytes reversed, is its high word and the second, bytes
/// reversed, its low word. `ready` is any read of the status register that
/// shows data in the FIFO and nothing that ends the drain.
pub proof fn lemma_scr_from_fifo(block: [u32; 16], ready: Status, first: u32, second: u32)
    requires
        ready.rxdavl,
        drain_outcome_of(ready) is None,
    ensures
        ({
            let start = Drain::begun(2, Burst::Single);
            &&& start.next(Reply::Status(ready)) matches Progress::Running(high)
            &&& high.next(Reply::Word(first)) matches Progress::Running(poll)
            &&& poll.next(Reply::Status(ready)) matches Progress::Running(low)
            &&& low.next(Reply::Word(second)) == Progress::<Drain>::Complete(Ok(()))
            &&& ({
                let filled = low.filled(
                    Reply::Word(second),
                    high.filled(Reply::Word(first), block),
                );
                filled[1] == swapped(first) && filled[0] == swapped(second)
            })
        }),
{
}

} // verus!
