//! The command engine: classification of the status register, the polling
//! budget, and the series of register accesses that sends a command.

use stm32l4_drivers::sdmmc::command::{Command, ResponseLen};
use stm32l4_drivers::sdmmc::issue::{outcome, poll_budget, Issue, Phase, Progress};
use stm32l4_drivers::sdmmc::registers::{clear_all_interrupts, Effect, Reply, Status};
use stm32l4_drivers::sdmmc::Error;

fn quiet() -> Status {
    Status {
        cmdact: false,
        rxact: false,
        txact: false,
        ctimeout: false,
        ccrcfail: false,
        cmdsent: false,
        cmdrend: false,
        rxoverr: false,
        dcrcfail: false,
        dtimeout: false,
        dbckend: false,
        rxdavl: false,
        rxfifohf: false,
    }
}

fn running(progress: Progress<Issue>) -> Issue {
    match progress {
        Progress::Running(issue) => issue,
        Progress::Complete(result) => panic!("complete too early: {:?}", result),
    }
}

#[test]
fn waitresp_encodes_the_response_length() {
    assert_eq!(ResponseLen::Zero.waitresp(), 0b00);
    assert_eq!(ResponseLen::R48.waitresp(), 0b01);
    assert_eq!(ResponseLen::R136.waitresp(), 0b11);
}

#[test]
fn active_command_is_undecided() {
    let status = Status { cmdact: true, ctimeout: true, cmdsent: true, cmdrend: true, ..quiet() };
    assert_eq!(outcome(ResponseLen::Zero, &status), None);
    assert_eq!(outcome(ResponseLen::R48, &status), None);
    assert_eq!(outcome(ResponseLen::R136, &status), None);
}

#[test]
fn command_without_response_succeeds_when_sent() {
    let status = Status { cmdsent: true, ..quiet() };
    assert_eq!(outcome(ResponseLen::Zero, &status), Some(Ok(())));
}

#[test]
fn command_without_response_never_reports_crc() {
    let crc = Status { ccrcfail: true, ..quiet() };
    assert_eq!(outcome(ResponseLen::Zero, &crc), None);
    let crc_and_sent = Status { ccrcfail: true, cmdsent: true, ..quiet() };
    assert_eq!(outcome(ResponseLen::Zero, &crc_and_sent), Some(Ok(())));
    let crc_and_timeout = Status { ccrcfail: true, ctimeout: true, ..quiet() };
    assert_eq!(outcome(ResponseLen::Zero, &crc_and_timeout), Some(Err(Error::Timeout)));
}

#[test]
fn command_without_response_ignores_response_received() {
    let status = Status { cmdrend: true, ..quiet() };
    assert_eq!(outcome(ResponseLen::Zero, &status), None);
}

#[test]
fn command_with_response_is_classified() {
    assert_eq!(outcome(ResponseLen::R48, &quiet()), None);
    let sent = Status { cmdsent: true, ..quiet() };
    assert_eq!(outcome(ResponseLen::R48, &sent), None);
    let received = Status { cmdrend: true, ..quiet() };
    assert_eq!(outcome(ResponseLen::R48, &received), Some(Ok(())));
    assert_eq!(outcome(ResponseLen::R136, &received), Some(Ok(())));
    let crc = Status { ccrcfail: true, ..quiet() };
    assert_eq!(outcome(ResponseLen::R48, &crc), Some(Err(Error::Crc)));
    let timeout = Status { ctimeout: true, ..quiet() };
    assert_eq!(outcome(ResponseLen::R48, &timeout), Some(Err(Error::Timeout)));
}

#[test]
fn timeout_comes_before_crc_and_crc_before_success() {
    let all = Status { ctimeout: true, ccrcfail: true, cmdrend: true, ..quiet() };
    assert_eq!(outcome(ResponseLen::R48, &all), Some(Err(Error::Timeout)));
    let crc_and_received = Status { ccrcfail: true, cmdrend: true, ..quiet() };
    assert_eq!(outcome(ResponseLen::R48, &crc_and_received), Some(Err(Error::Crc)));
}

#[test]
fn poll_budget_follows_the_clock() {
    assert_eq!(poll_budget(80_000_000), 50_000_000);
    assert_eq!(poll_budget(48_000_000), 30_000_000);
    assert_eq!(poll_budget(4_000_000), 2_500_000);
    assert_eq!(poll_budget(8_000), 5_000);
    assert_eq!(poll_budget(7_999), 4_999);
    assert_eq!(poll_budget(15_999), 9_999);
    assert_eq!(poll_budget(0), 0);
    assert_eq!(poll_budget(u32::MAX), 2_684_354_559);
}

#[test]
fn poll_budget_multiplies_before_it_divides() {
    assert_eq!(poll_budget(100_000), 62_500);
    assert_eq!(poll_budget(4_000), 2_500);
    assert_eq!(poll_budget(8), 5);
    assert_eq!(poll_budget(2), 1);
    assert_eq!(poll_budget(1), 0);
    assert_eq!(poll_budget(8_001), 5_000);
    assert_eq!(poll_budget(8_002), 5_001);
}

#[test]
fn clear_all_interrupts_sets_every_flag() {
    let icr = clear_all_interrupts();
    assert!(icr.ccrcfailc && icr.ctimeoutc && icr.ceataendc && icr.cmdrendc && icr.cmdsentc);
    assert!(icr.dataendc && icr.dbckendc && icr.dcrcfailc && icr.dtimeoutc && icr.sdioitc);
    assert!(icr.stbiterrc && icr.rxoverrc && icr.txunderrc);
}

#[test]
fn command_goes_out_in_five_steps() {
    let cmd = Command { index: 17, arg: 0x1234_5678, response_len: ResponseLen::R48 };
    let issue = Issue::begin(cmd, 10);
    assert_eq!(issue.pending(), Effect::ReadStatus);

    let busy = Status { cmdact: true, ..quiet() };
    let issue = running(issue.advance(Reply::Status(busy)));
    assert_eq!(issue.phase, Phase::AwaitIdle);
    assert_eq!(issue.pending(), Effect::ReadStatus);

    let issue = running(issue.advance(Reply::Status(quiet())));
    assert_eq!(issue.pending(), Effect::ClearInterrupts(clear_all_interrupts()));

    let issue = running(issue.advance(Reply::Done));
    assert_eq!(issue.pending(), Effect::WriteArgument(0x1234_5678));

    let issue = running(issue.advance(Reply::Done));
    assert_eq!(issue.pending(), Effect::WriteCommand { cmdindex: 17, waitresp: 0b01, waitint: false, cpsmen: true });

    let issue = running(issue.advance(Reply::Done));
    assert_eq!(issue.phase, Phase::Poll { left: 10 });
    assert_eq!(issue.pending(), Effect::ReadStatus);

    let issue = running(issue.advance(Reply::Status(busy)));
    assert_eq!(issue.phase, Phase::Poll { left: 9 });

    let received = Status { cmdrend: true, ..quiet() };
    assert_eq!(issue.advance(Reply::Status(received)), Progress::Complete(Ok(())));
}

#[test]
fn long_response_command_waits_for_a_long_response() {
    let cmd = Command { index: 2, arg: 0, response_len: ResponseLen::R136 };
    let issue = Issue { cmd, budget: 1, phase: Phase::Launch };
    assert_eq!(issue.pending(), Effect::WriteCommand { cmdindex: 2, waitresp: 0b11, waitint: false, cpsmen: true });
}

#[test]
fn polling_gives_up_after_the_budget() {
    let cmd = Command { index: 0, arg: 0, response_len: ResponseLen::Zero };
    let mut issue = Issue { cmd, budget: 4, phase: Phase::Launch };
    issue = running(issue.advance(Reply::Done));
    let mut reads = 0;
    let result = loop {
        reads += 1;
        match issue.advance(Reply::Status(quiet())) {
            Progress::Running(next) => issue = next,
            Progress::Complete(result) => break result,
        }
    };
    assert_eq!(result, Err(Error::SoftwareTimeout));
    assert_eq!(reads, 4);
}

#[test]
fn polling_counts_reads_of_an_active_command() {
    let cmd = Command { index: 0, arg: 0, response_len: ResponseLen::Zero };
    let issue = Issue { cmd, budget: 2, phase: Phase::Poll { left: 2 } };
    let busy = Status { cmdact: true, ..quiet() };
    let issue = running(issue.advance(Reply::Status(busy)));
    assert_eq!(issue.phase, Phase::Poll { left: 1 });
    assert_eq!(issue.advance(Reply::Status(busy)), Progress::Complete(Err(Error::SoftwareTimeout)));
}

#[test]
fn zero_budget_times_out_without_a_poll() {
    let cmd = Command { index: 0, arg: 0, response_len: ResponseLen::Zero };
    let issue = Issue { cmd, budget: 0, phase: Phase::Launch };
    assert_eq!(issue.advance(Reply::Done), Progress::Complete(Err(Error::SoftwareTimeout)));
}

#[test]
fn reply_of_the_wrong_kind_changes_nothing() {
    let cmd = Command { index: 0, arg: 0, response_len: ResponseLen::Zero };
    let issue = Issue::begin(cmd, 3);
    assert_eq!(issue.advance(Reply::Done), Progress::Running(issue));
    assert_eq!(issue.advance(Reply::Word(7)), Progress::Running(issue));
    let launch = Issue { cmd, budget: 3, phase: Phase::Launch };
    assert_eq!(launch.advance(Reply::Status(quiet())), Progress::Running(launch));
}

#[test]
fn effects_name_their_reply() {
    assert!(Effect::ReadStatus.accepts(&Reply::Status(quiet())));
    assert!(!Effect::ReadStatus.accepts(&Reply::Done));
    assert!(!Effect::ReadStatus.accepts(&Reply::Word(0)));
    assert!(Effect::ReadFifo.accepts(&Reply::Word(0)));
    assert!(Effect::ReadResponse(1).accepts(&Reply::Word(0)));
    assert!(!Effect::ReadResponse(1).accepts(&Reply::Done));
    assert!(Effect::SetClockEnable { clken: true }.accepts(&Reply::Done));
    assert!(Effect::WriteArgument(3).accepts(&Reply::Done));
    assert!(!Effect::WriteArgument(3).accepts(&Reply::Word(3)));
    assert!(Effect::Delay { cycles: 1 }.accepts(&Reply::Done));
}
