//! The command engine: sends one command and waits for the controller to say
//! how it ended.
//!
//! Sending a command takes a fixed series of register accesses: wait until no
//! command is active, clear every pending flag, write the argument, write the
//! command register, then poll the status register until the command has
//! ended or the polling budget is used up.

use vstd::prelude::*;
use crate::sdmmc::Error;
use crate::sdmmc::command::{Command, ResponseLen};
use crate::sdmmc::registers::{clear_all_interrupts, Effect, InterruptClear, Reply, Status};

verus! {

/// Where a machine stands after a reply: still running, in a new state, or
/// complete with a result.
#[derive(Debug, PartialEq, Eq)]
pub enum Progress<S> {
    Running(S),
    Complete(Result<(), Error>),
}

/// How a command whose response has length `len` stands, given one read of
/// the status register: `None` while it has not ended.
///
/// While the command is active nothing is decided. After that a hardware
/// timeout ends it with `Timeout`. A command without response has succeeded
/// once it was sent, and no other flag counts for it. A command with a
/// response fails with `Crc` on a CRC failure and has succeeded once the
/// response was received.
pub open spec fn outcome_of(len: ResponseLen, status: Status) -> Option<Result<(), Error>> {
    if status.cmdact {
        None
    } else if status.ctimeout {
        Some(Err(Error::Timeout))
    } else if len is Zero {
        if status.cmdsent {
            Some(Ok(()))
        } else {
            None
        }
    } else if status.ccrcfail {
        Some(Err(Error::Crc))
    } else if status.cmdrend {
        Some(Ok(()))
    } else {
        None
    }
}

/// Classifies one read of the status register while a command is polled.
pub fn outcome(len: ResponseLen, status: &Status) -> (r: Option<Result<(), Error>>)
    ensures
        r == outcome_of(len, *status),
{
    if status.cmdact {
        return None;
    }
    if status.ctimeout {
        return Some(Err(Error::Timeout));
    }
    match len {
        ResponseLen::Zero => {
            if status.cmdsent {
                Some(Ok(()))
            } else {
                None
            }
        },
        _ => {
            if status.ccrcfail {
                Some(Err(Error::Crc))
            } else if status.cmdrend {
                Some(Ok(()))
            } else {
                None
            }
        },
    }
}

/// For a command without response only three flags decide: command active,
/// hardware timeout and command sent. Two reads of the status register that
/// agree on these are classified alike, whatever the CRC failure flag and
/// every other flag say.
pub proof fn lemma_no_response_ignores_crc(a: Status, b: Status)
    requires
        a.cmdact == b.cmdact,
        a.ctimeout == b.ctimeout,
        a.cmdsent == b.cmdsent,
    ensures
        outcome_of(ResponseLen::Zero, a) == outcome_of(ResponseLen::Zero, b),
        outcome_of(ResponseLen::Zero, a) != Some(Err::<(), Error>(Error::Crc)),
{
}

/// The number of status reads after which a command is given up: 5000
/// times the core clock frequency in hertz, divided by 8 and by 1000, the
/// product taken before the divisions and each division rounded down.
pub open spec fn poll_budget_of(clock_hz: u32) -> int {
    (5000 * clock_hz) / 8 / 1000
}

/// The polling budget of a command at the given core clock frequency.
pub fn poll_budget(clock_hz: u32) -> (ticks: u32)
    ensures
        ticks == poll_budget_of(clock_hz),
{
    let product: u64 = 5000u64 * (clock_hz as u64);
    let ticks: u64 = product / 8 / 1000;
    ticks as u32
}

/// What the command engine waits for.
#[derive(Clone, Copy, Debug, PartialEq, Eq, Structural)]
pub enum Phase {
    /// The status register is read until no command is active.
    AwaitIdle,
    /// Every pending flag is cleared.
    ClearFlags,
    /// The argument register is written.
    LoadArgument,
    /// The command register is written, which starts the command.
    Launch,
    /// The status register is read until the command has ended; `left` reads
    /// remain, this one included.
    Poll { left: u32 },
}

/// A command on its way to the card.
#[derive(Clone, Copy, Debug, PartialEq, Eq, Structural)]
pub struct Issue {
    /// The command.
    pub cmd: Command,
    /// How many times the status register is read before the command is given
    /// up.
    pub budget: u32,
    /// What the engine waits for.
    pub phase: Phase,
}

impl Issue {
    /// The engine as it starts on `cmd`.
    pub open spec fn begun(cmd: Command, budget: u32) -> Issue {
        Issue { cmd, budget, phase: Phase::AwaitIdle }
    }

    /// The register access that the engine waits for. The command is
    /// started with its path enabled and without a wait for an interrupt.
    pub open spec fn effect(self) -> Effect {
        match self.phase {
            Phase::AwaitIdle => Effect::ReadStatus,
            Phase::ClearFlags => Effect::ClearInterrupts(InterruptClear::all()),
            Phase::LoadArgument => Effect::WriteArgument(self.cmd.arg),
            Phase::Launch => Effect::WriteCommand {
                cmdindex: self.cmd.index,
                waitresp: self.cmd.response_len.waitresp_bits(),
                waitint: false,
                cpsmen: true,
            },
            Phase::Poll { .. } => Effect::ReadStatus,
        }
    }

    /// The engine after `reply`. A reply of the wrong kind changes nothing.
    pub open spec fn next(self, reply: Reply) -> Progress<Issue> {
        match (self.phase, reply) {
            (Phase::AwaitIdle, Reply::Status(status)) => if status.cmdact {
                Progress::Running(self)
            } else {
                Progress::Running(Issue { phase: Phase::ClearFlags, ..self })
            },
            (Phase::ClearFlags, Reply::Done) => Progress::Running(
                Issue { phase: Phase::LoadArgument, ..self },
            ),
            (Phase::LoadArgument, Reply::Done) => Progress::Running(
                Issue { phase: Phase::Launch, ..self },
            ),
            (Phase::Launch, Reply::Done) => if self.budget == 0 {
                Progress::Complete(Err(Error::SoftwareTimeout))
            } else {
                Progress::Running(Issue { phase: Phase::Poll { left: self.budget }, ..self })
            },
            (Phase::Poll { left }, Reply::Status(status)) => match outcome_of(
                self.cmd.response_len,
                status,
            ) {
                Some(result) => Progress::Complete(result),
                None => if left <= 1 {
                    Progress::Complete(Err(Error::SoftwareTimeout))
                } else {
                    Progress::Running(
                        Issue { phase: Phase::Poll { left: (left - 1) as u32 }, ..self },
                    )
                },
            },
            _ => Progress::Running(self),
        }
    }

    /// Starts on `cmd` with a budget of `budget` status reads.
    pub fn begin(cmd: Command, budget: u32) -> (issue: Issue)
        ensures
            issue == Issue::begun(cmd, budget),
    {
        Issue { cmd, budget, phase: Phase::AwaitIdle }
    }

    /// The register access to make next.
    pub fn pending(&self) -> (effect: Effect)
        ensures
            effect == self.effect(),
    {
        match self.phase {
            Phase::AwaitIdle => Effect::ReadStatus,
            Phase::ClearFlags => Effect::ClearInterrupts(clear_all_interrupts()),
            Phase::LoadArgument => Effect::WriteArgument(self.cmd.arg),
            Phase::Launch => Effect::WriteCommand {
                cmdindex: self.cmd.index,
                waitresp: self.cmd.response_len.waitresp(),
                waitint: false,
                cpsmen: true,
            },
            Phase::Poll { .. } => Effect::ReadStatus,
        }
    }

    /// Takes the reply to the pending access.
    pub fn advance(self, reply: Reply) -> (progress: Progress<Issue>)
        ensures
            progress == self.next(reply),
    {
        match (self.phase, reply) {
            (Phase::AwaitIdle, Reply::Status(status)) => {
                if status.cmdact {
                    Progress::Running(self)
                } else {
                    Progress::Running(Issue { phase: Phase::ClearFlags, ..self })
                }
            },
            (Phase::ClearFlags, Reply::Done) => Progress::Running(
                Issue { phase: Phase::LoadArgument, ..self },
            ),
            (Phase::LoadArgument, Reply::Done) => Progress::Running(
                Issue { phase: Phase::Launch, ..self },
            ),
            (Phase::Launch, Reply::Done) => {
                if self.budget == 0 {
                    Progress::Complete(Err(Error::SoftwareTimeout))
                } else {
                    Progress::Running(Issue { phase: Phase::Poll { left: self.budget }, ..self })
                }
            },
            (Phase::Poll { left }, Reply::Status(status)) => {
                match outcome(self.cmd.response_len, &status) {
                    Some(result) => Progress::Complete(result),
                    None => {
                        if left <= 1 {
                            Progress::Complete(Err(Error::SoftwareTimeout))
                        } else {
                            Progress::Running(Issue { phase: Phase::Poll { left: left - 1 }, ..self })
                        }
                    },
                }
            },
            _ => Progress::Running(self),
        }
    }
}

impl Issue {
    /// The engine after the status register was read as `statuses` say, one
    /// read after the other, as far as the engine runs.
    pub open spec fn polled(self, statuses: Seq<Status>) -> Progress<Issue>
        decreases statuses.len(),
    {
        if statuses.len() == 0 {
            Progress::Running(self)
        } else {
            match self.next(Reply::Status(statuses[0])) {
                Progress::Running(issue) => issue.polled(statuses.drop_first()),
                complete => complete,
            }
        }
    }
}

/// A command without response is carried on alike by two reads of the status
/// register that agree on command active, hardware timeout and command sent.
pub proof fn lemma_command_without_response_ignores_crc(issue: Issue, a: Status, b: Status)
    requires
        issue.cmd.response_len is Zero,
        a.cmdact == b.cmdact,
        a.ctimeout == b.ctimeout,
        a.cmdsent == b.cmdsent,
    ensures
        issue.next(Reply::Status(a)) == issue.next(Reply::Status(b)),
        issue.next(Reply::Status(a)) != Progress::<Issue>::Complete(Err(Error::Crc)),
{
}

/// Polling is bounded. A command that is polled with `left` reads to go and
/// has not ended in any of `statuses` is still polled after fewer than `left`
/// reads, with as many reads less to go, and has ended with
/// `SoftwareTimeout` after `left` reads.
pub proof fn lemma_polling_is_bounded(issue: Issue, left: u32, statuses: Seq<Status>)
    requires
        issue.phase == (Phase::Poll { left }),
        left >= 1,
        forall|i: int|
            0 <= i < statuses.len() ==> outcome_of(issue.cmd.response_len, #[trigger] statuses[i])
                is None,
    ensures
        statuses.len() < left ==> issue.polled(statuses) == Progress::Running(
            Issue { phase: Phase::Poll { left: (left - statuses.len()) as u32 }, ..issue },
        ),
        statuses.len() >= left ==> issue.polled(statuses) == Progress::<Issue>::Complete(
            Err(Error::SoftwareTimeout),
        ),
    decreases statuses.len(),
{
    if statuses.len() > 0 {
        let rest = statuses.drop_first();
        assert(outcome_of(issue.cmd.response_len, statuses[0]) is None);
        assert forall|i: int| 0 <= i < rest.len() implies outcome_of(
            issue.cmd.response_len,
            #[trigger] rest[i],
        ) is None by {
            assert(rest[i] == statuses[i + 1]);
        }
        if left > 1 {
            let next = Issue { phase: Phase::Poll { left: (left - 1) as u32 }, ..issue };
            assert(issue.next(Reply::Status(statuses[0])) == Progress::Running(next));
            lemma_polling_is_bounded(next, (left - 1) as u32, rest);
        }
    }
}

} // verus!
