//! The driver against a simulated controller and card.

use stm32l4_drivers::sdmmc::command::{Command, ResponseLen};
use stm32l4_drivers::sdmmc::descriptor::CardCapacity;
use stm32l4_drivers::sdmmc::host::Step;
use stm32l4_drivers::sdmmc::registers::{ClockControl, Effect, Reply, Status};
use stm32l4_drivers::sdmmc::script::Output;
use stm32l4_drivers::sdmmc::{
    BusWidth, ClockFreq, Error, PinClk, PinCmd, PinD0, PinD1, PinD2, PinD3, PinD4, PinD5, PinD6,
    PinD7, Pins, SdCard, SdMmc,
};

struct Pin;

impl PinClk for Pin {}
impl PinCmd for Pin {}
impl PinD0 for Pin {}
impl PinD1 for Pin {}
impl PinD2 for Pin {}
impl PinD3 for Pin {}
impl PinD4 for Pin {}
impl PinD5 for Pin {}
impl PinD6 for Pin {}
impl PinD7 for Pin {}

fn one_line() -> (Pin, Pin, Pin) {
    (Pin, Pin, Pin)
}

fn four_lines() -> (Pin, Pin, Pin, Pin, Pin, Pin) {
    (Pin, Pin, Pin, Pin, Pin, Pin)
}

fn eight_lines() -> (Pin, Pin, Pin, Pin, Pin, Pin, Pin, Pin, Pin, Pin) {
    (Pin, Pin, Pin, Pin, Pin, Pin, Pin, Pin, Pin, Pin)
}

const CLOCK: u32 = 80_000_000;

fn quiet() -> Status {
    Status {
        cmdact: false,
        rxact: false,
        txact: false,
        ctimeout: false,
        ccrcfail: false,
        cmdsent: false,
        cmdrend: false,
        rxoverr: false,
        dcrcfail: false,
        dtimeout: false,
        dbckend: false,
        rxdavl: false,
        rxfifohf: false,
    }
}

/// How the simulated card answers a command.
#[derive(Clone, Copy, Debug, PartialEq)]
enum Answer {
    Good,
    Crc,
    Timeout,
    Silent,
}

/// A controller with a card behind it. It latches how the last command ended
/// until the flags are cleared, loads the response registers, and fills the
/// FIFO when data is asked for.
struct Sim {
    cic: u32,
    ocr: u32,
    busy_polls: u32,
    op_cond_answer: Answer,
    first_op_cond_answers: Vec<Answer>,
    first_prefix_answers: Vec<Answer>,
    if_cond_answer: Answer,
    select_answer: Answer,
    cid: [u32; 4],
    rca: u32,
    csd: [u32; 4],
    scr_wire: [u32; 2],
    card_states: Vec<u32>,
    sd_status_wire: [u32; 16],
    bus_width_answer: Answer,
    data_fault: Option<Status>,

    argument: u32,
    after_app_cmd: bool,
    latched: Answer,
    launched: bool,
    response: [u32; 4],
    fifo: Vec<u32>,
    receiving: bool,
    op_cond_polls: u32,
    status_queries: usize,
    commands: Vec<(u8, u32, u8, bool)>,
    log: Vec<Effect>,
}

impl Sim {
    fn new() -> Sim {
        Sim {
            cic: 0x0000_01AA,
            ocr: 0xC0FF_8000,
            busy_polls: 0,
            op_cond_answer: Answer::Good,
            first_op_cond_answers: vec![],
            first_prefix_answers: vec![],
            if_cond_answer: Answer::Good,
            select_answer: Answer::Good,
            cid: [0x1111_1111, 0x2222_2222, 0x3333_3333, 0x4444_4444],
            rca: 0xB368_0520,
            csd: [0x5555_5555, 0x6666_6666, 0x7777_7777, 0x8888_8888],
            scr_wire: [0x0080_3502, 0x0000_0000],
            card_states: vec![4 << 9],
            sd_status_wire: [0; 16],
            bus_width_answer: Answer::Good,
            data_fault: None,
            argument: 0,
            after_app_cmd: false,
            latched: Answer::Silent,
            launched: false,
            response: [0; 4],
            fifo: vec![],
            receiving: false,
            op_cond_polls: 0,
            status_queries: 0,
            commands: vec![],
            log: vec![],
        }
    }

    fn launch(&mut self, index: u8, waitresp: u8) {
        let app = self.after_app_cmd;
        self.after_app_cmd = false;
        self.commands.push((index, self.argument, waitresp, app));
        self.launched = true;
        self.latched = Answer::Good;
        match (index, app) {
            (0, _) => {},
            (8, _) => {
                self.latched = self.if_cond_answer;
                self.response[0] = self.cic;
            },
            (55, _) => {
                let prefixes = self.commands.iter().filter(|c| c.0 == 55).count();
                if prefixes <= self.first_prefix_answers.len() {
                    self.latched = self.first_prefix_answers[prefixes - 1];
                }
                if self.latched == Answer::Good {
                    self.after_app_cmd = true;
                    self.response[0] = 0x0000_0120;
                }
            },
            (41, true) => {
                self.op_cond_polls += 1;
                let poll = self.op_cond_polls as usize;
                self.latched = if poll <= self.first_op_cond_answers.len() {
                    self.first_op_cond_answers[poll - 1]
                } else {
                    self.op_cond_answer
                };
                self.response[0] = if self.op_cond_polls <= self.busy_polls {
                    self.ocr & 0x7FFF_FFFF
                } else {
                    self.ocr | 0x8000_0000
                };
            },
            (2, _) => self.response = self.cid,
            (3, _) => self.response[0] = self.rca,
            (9, _) => self.response = self.csd,
            (7, _) => self.latched = self.select_answer,
            (16, _) => {},
            (51, true) => {
                self.fifo = self.scr_wire.to_vec();
                self.receiving = true;
            },
            (13, false) => {
                let i = self.status_queries.min(self.card_states.len() - 1);
                self.response[0] = self.card_states[i];
                self.status_queries += 1;
            },
            (13, true) => {
                self.fifo = self.sd_status_wire.to_vec();
                self.receiving = true;
            },
            (6, true) => self.latched = self.bus_width_answer,
            _ => {},
        }
    }

    fn status(&self) -> Status {
        let mut status = match self.data_fault {
            Some(fault) if self.receiving => fault,
            _ => Status {
                dbckend: self.receiving && self.fifo.is_empty(),
                rxdavl: !self.fifo.is_empty(),
                rxfifohf: self.fifo.len() >= 8,
                ..quiet()
            },
        };
        if self.launched {
            let no_response = self.commands.last().map(|c| c.2 == 0).unwrap_or(false);
            match self.latched {
                Answer::Good => {
                    status.cmdsent = no_response;
                    status.cmdrend = !no_response;
                },
                Answer::Crc => status.ccrcfail = true,
                Answer::Timeout => status.ctimeout = true,
                Answer::Silent => {},
            }
        }
        status
    }

    fn perform(&mut self, effect: Effect) -> Reply {
        self.log.push(effect);
        match effect {
            Effect::ReadStatus => Reply::Status(self.status()),
            Effect::ReadResponse(n) => Reply::Word(self.response[n as usize - 1]),
            Effect::ReadFifo => Reply::Word(self.fifo.remove(0)),
            Effect::ClearInterrupts(_) => {
                self.launched = false;
                self.receiving = false;
                Reply::Done
            },
            Effect::WriteArgument(value) => {
                self.argument = value;
                Reply::Done
            },
            Effect::WriteCommand { cmdindex, waitresp, .. } => {
                self.launch(cmdindex, waitresp);
                Reply::Done
            },
            _ => Reply::Done,
        }
    }

    fn run(&mut self, host: &mut SdMmc) -> Result<Output, Error> {
        let mut steps: u64 = 0;
        loop {
            match host.pending() {
                Step::Finished(result) => return result,
                Step::Perform(effect) => {
                    let reply = self.perform(effect);
                    host.advance(reply);
                },
            }
            steps += 1;
            assert!(steps < 50_000_000, "the script does not end");
        }
    }

    fn sent(&self) -> Vec<(u8, u32)> {
        self.commands.iter().map(|c| (c.0, c.1)).collect()
    }

    fn polls(&self) -> u32 {
        self.op_cond_polls
    }
}

fn set_up<PINS: Pins>(pins: PINS, sim: &mut Sim) -> SdMmc {
    let mut host = SdMmc::new(pins, CLOCK);
    assert_eq!(sim.run(&mut host), Ok(Output::Nothing));
    sim.log.clear();
    host
}

fn bring_up<PINS: Pins>(pins: PINS, sim: &mut Sim) -> (SdMmc, Result<Output, Error>) {
    let mut host = set_up(pins, sim);
    host.init(ClockFreq::Freq24MHz);
    let result = sim.run(&mut host);
    (host, result)
}

#[test]
fn new_driver_sets_the_controller_up() {
    let mut sim = Sim::new();
    let mut host = SdMmc::new(four_lines(), CLOCK);
    assert_eq!(sim.run(&mut host), Ok(Output::Nothing));
    assert_eq!(
        sim.log,
        vec![
            Effect::ConfigureClock(ClockControl {
                negedge: false,
                bypass: false,
                pwrsav: false,
                widbus: 0,
                hwfc_en: false,
                clkdiv: 118,
                clken: false,
            }),
            Effect::SetPower { pwrctrl: 0b00 },
            Effect::Delay { cycles: 160_000 },
        ]
    );
    assert_eq!(host.card().err(), Some(Error::NoCard));
}

#[test]
fn power_card_switches_and_waits_two_milliseconds() {
    let mut sim = Sim::new();
    let mut host = SdMmc::new(one_line(), 48_000_999);
    sim.run(&mut host).unwrap();
    sim.log.clear();
    host.power_card(true);
    assert_eq!(sim.run(&mut host), Ok(Output::Nothing));
    assert_eq!(sim.log, vec![Effect::SetPower { pwrctrl: 0b11 }, Effect::Delay { cycles: 96_000 }]);
    sim.log.clear();
    host.power_card(false);
    assert_eq!(sim.run(&mut host), Ok(Output::Nothing));
    assert_eq!(sim.log, vec![Effect::SetPower { pwrctrl: 0b00 }, Effect::Delay { cycles: 96_000 }]);
}

#[test]
fn finished_driver_takes_no_reply() {
    let mut sim = Sim::new();
    let mut host = set_up(one_line(), &mut sim);
    host.advance(Reply::Done);
    host.advance(Reply::Word(1));
    assert_eq!(host.pending(), Step::Finished(Ok(Output::Nothing)));
}

#[test]
fn reply_of_the_wrong_kind_is_dropped() {
    let mut host = SdMmc::new(one_line(), CLOCK);
    let first = host.pending();
    host.advance(Reply::Word(3));
    assert_eq!(host.pending(), first);
    host.advance(Reply::Done);
    assert_eq!(host.pending(), Step::Perform(Effect::SetPower { pwrctrl: 0 }));
}

#[test]
fn init_sends_the_commands_of_the_protocol() {
    let mut sim = Sim::new();
    let (host, result) = bring_up(four_lines(), &mut sim);
    assert_eq!(result, Ok(Output::Nothing));
    assert_eq!(
        sim.sent(),
        vec![
            (0, 0),
            (8, 0x0000_01AA),
            (55, 0),
            (41, 0x4010_0000),
            (2, 0),
            (3, 0),
            (9, 0xB368_0000),
            (7, 0xB368_0000),
            (16, 8),
            (55, 0xB368_0000),
            (51, 0),
            (13, 0xB368_0000),
            (55, 0xB368_0000),
            (6, 2),
        ]
    );
    let waitresp: Vec<u8> = sim.commands.iter().map(|c| c.2).collect();
    assert_eq!(waitresp, vec![0, 1, 1, 1, 3, 1, 3, 1, 1, 1, 1, 1, 1, 1]);
    assert!(host.card().is_ok());
}

#[test]
fn init_makes_the_register_accesses_in_order() {
    let mut sim = Sim::new();
    let (_, result) = bring_up(four_lines(), &mut sim);
    assert_eq!(result, Ok(Output::Nothing));
    let writes: Vec<Effect> = sim
        .log
        .iter()
        .copied()
        .filter(|e| !matches!(e, Effect::ReadStatus | Effect::ClearInterrupts(_)))
        .collect();
    let expected = vec![
        Effect::SetPower { pwrctrl: 0b11 },
        Effect::Delay { cycles: 160_000 },
        Effect::SetClockEnable { clken: true },
        Effect::WriteArgument(0),
        Effect::WriteCommand { cmdindex: 0, waitresp: 0, waitint: false, cpsmen: true },
        Effect::WriteArgument(0x1AA),
        Effect::WriteCommand { cmdindex: 8, waitresp: 1, waitint: false, cpsmen: true },
        Effect::ReadResponse(1),
        Effect::WriteArgument(0),
        Effect::WriteCommand { cmdindex: 55, waitresp: 1, waitint: false, cpsmen: true },
        Effect::WriteArgument(0x4010_0000),
        Effect::WriteCommand { cmdindex: 41, waitresp: 1, waitint: false, cpsmen: true },
        Effect::ReadResponse(1),
        Effect::WriteArgument(0),
        Effect::WriteCommand { cmdindex: 2, waitresp: 3, waitint: false, cpsmen: true },
        Effect::ReadResponse(1),
        Effect::ReadResponse(2),
        Effect::ReadResponse(3),
        Effect::ReadResponse(4),
        Effect::WriteArgument(0),
        Effect::WriteCommand { cmdindex: 3, waitresp: 1, waitint: false, cpsmen: true },
        Effect::ReadResponse(1),
        Effect::WriteArgument(0xB368_0000),
        Effect::WriteCommand { cmdindex: 9, waitresp: 3, waitint: false, cpsmen: true },
        Effect::ReadResponse(1),
        Effect::ReadResponse(2),
        Effect::ReadResponse(3),
        Effect::ReadResponse(4),
        Effect::WriteArgument(0xB368_0000),
        Effect::WriteCommand { cmdindex: 7, waitresp: 1, waitint: false, cpsmen: true },
        Effect::WriteArgument(8),
        Effect::WriteCommand { cmdindex: 16, waitresp: 1, waitint: false, cpsmen: true },
        Effect::WriteArgument(0xB368_0000),
        Effect::WriteCommand { cmdindex: 55, waitresp: 1, waitint: false, cpsmen: true },
        Effect::WriteDataTimer(0xFFFF_FFFF),
        Effect::WriteDataLength(8),
        Effect::WriteDataControl { dblocksize: 3, dtdir: true, dtmode: false, dten: true },
        Effect::WriteArgument(0),
        Effect::WriteCommand { cmdindex: 51, waitresp: 1, waitint: false, cpsmen: true },
        Effect::ReadFifo,
        Effect::ReadFifo,
        Effect::WriteArgument(0xB368_0000),
        Effect::WriteCommand { cmdindex: 13, waitresp: 1, waitint: false, cpsmen: true },
        Effect::ReadResponse(1),
        Effect::WriteArgument(0xB368_0000),
        Effect::WriteCommand { cmdindex: 55, waitresp: 1, waitint: false, cpsmen: true },
        Effect::WriteArgument(2),
        Effect::WriteCommand { cmdindex: 6, waitresp: 1, waitint: false, cpsmen: true },
        Effect::SetBus { clkdiv: 0, widbus: 1, clken: true },
    ];
    assert_eq!(writes, expected);
}

#[test]
fn every_command_clears_the_flags_first() {
    let mut sim = Sim::new();
    let (_, result) = bring_up(four_lines(), &mut sim);
    assert_eq!(result, Ok(Output::Nothing));
    let mut commands = 0;
    for (i, effect) in sim.log.iter().enumerate() {
        if let Effect::WriteCommand { .. } = effect {
            commands += 1;
            assert!(matches!(sim.log[i - 1], Effect::WriteArgument(_)));
            assert!(matches!(sim.log[i - 2], Effect::ClearInterrupts(_)));
            assert_eq!(sim.log[i - 3], Effect::ReadStatus);
            assert_eq!(sim.log[i + 1], Effect::ReadStatus);
        }
    }
    assert_eq!(commands, 14);
}

#[test]
fn init_records_the_registers_of_the_card() {
    let mut sim = Sim::new();
    let (host, result) = bring_up(four_lines(), &mut sim);
    assert_eq!(result, Ok(Output::Nothing));
    let card = host.card().unwrap();
    assert_eq!(
        *card,
        SdCard {
            capacity: CardCapacity::HighCapacity,
            ocr: 0xC0FF_8000,
            cid: [0x4444_4444, 0x3333_3333, 0x2222_2222, 0x1111_1111],
            rca: 0xB368_0520,
            csd: [0x8888_8888, 0x7777_7777, 0x6666_6666, 0x5555_5555],
            scr: [0x0000_0000, 0x0235_8000],
        }
    );
    assert_eq!(card.get_address(), 0xB368);
    assert!(card.supports_widebus());
}

#[test]
fn first_response_register_is_the_most_significant_word() {
    let mut sim = Sim::new();
    sim.cid = [0x0353_4453, 0x4C31_3647, 0x8012_3456, 0x7801_4A00];
    sim.csd = [0x400E_0032, 0x5B59_0000, 0x76B2_7F80, 0x0A40_4000];
    let (host, result) = bring_up(four_lines(), &mut sim);
    assert_eq!(result, Ok(Output::Nothing));
    let card = host.card().unwrap();
    let wide = |w: [u32; 4]| {
        ((w[3] as u128) << 96) | ((w[2] as u128) << 64) | ((w[1] as u128) << 32) | w[0] as u128
    };
    assert_eq!(wide(card.cid), 0x0353_4453_4C31_3647_8012_3456_7801_4A00);
    assert_eq!(wide(card.csd), 0x400E_0032_5B59_0000_76B2_7F80_0A40_4000);
    assert_eq!(card.cid, [0x7801_4A00, 0x8012_3456, 0x4C31_3647, 0x0353_4453]);
    assert_eq!(card.csd[3], 0x400E_0032);
    // The manufacturer's identification is the top byte of the register.
    assert_eq!((wide(card.cid) >> 120) as u8, 0x03);
}

#[test]
fn standard_capacity_card_is_recognised() {
    let mut sim = Sim::new();
    sim.ocr = 0x80FF_8000;
    let (host, result) = bring_up(four_lines(), &mut sim);
    assert_eq!(result, Ok(Output::Nothing));
    let card = host.card().unwrap();
    assert_eq!(card.capacity, CardCapacity::StandardCapacity);
    assert_eq!(card.ocr, 0x80FF_8000);
}

#[test]
fn version_one_card_is_not_offered_high_capacity() {
    let mut sim = Sim::new();
    sim.cic = 0x0000_0155;
    let (_, result) = bring_up(four_lines(), &mut sim);
    assert_eq!(result, Ok(Output::Nothing));
    assert_eq!(sim.sent()[3], (41, 0x0010_0000));
}

#[test]
fn only_the_low_byte_of_the_echo_counts() {
    let mut sim = Sim::new();
    sim.cic = 0xFFFF_FFAA;
    let (_, result) = bring_up(four_lines(), &mut sim);
    assert_eq!(result, Ok(Output::Nothing));
    assert_eq!(sim.sent()[3], (41, 0x4010_0000));
}

#[test]
fn failed_if_cond_ends_init() {
    let mut sim = Sim::new();
    sim.if_cond_answer = Answer::Timeout;
    let (host, result) = bring_up(four_lines(), &mut sim);
    assert_eq!(result, Err(Error::Timeout));
    assert_eq!(sim.sent(), vec![(0, 0), (8, 0x1AA)]);
    assert_eq!(host.card().err(), Some(Error::NoCard));
}

#[test]
fn negotiation_takes_one_poll_of_a_ready_card() {
    let mut sim = Sim::new();
    let (_, result) = bring_up(four_lines(), &mut sim);
    assert_eq!(result, Ok(Output::Nothing));
    assert_eq!(sim.polls(), 1);
}

#[test]
fn negotiation_takes_one_poll_more_than_the_card_is_busy() {
    for busy in [1u32, 2, 3, 17, 300] {
        let mut sim = Sim::new();
        sim.busy_polls = busy;
        let (host, result) = bring_up(four_lines(), &mut sim);
        assert_eq!(result, Ok(Output::Nothing));
        assert_eq!(sim.polls(), busy + 1);
        assert_eq!(host.card().unwrap().ocr, 0xC0FF_8000);
    }
}

#[test]
fn negotiation_reaches_a_card_that_is_ready_in_the_last_poll() {
    let mut sim = Sim::new();
    sim.busy_polls = 65534;
    let (host, result) = bring_up(four_lines(), &mut sim);
    assert_eq!(result, Ok(Output::Nothing));
    assert_eq!(sim.polls(), 65535);
    assert!(host.card().is_ok());
}

#[test]
fn negotiation_gives_up_on_a_card_that_stays_busy() {
    let mut sim = Sim::new();
    sim.busy_polls = u32::MAX;
    let (host, result) = bring_up(four_lines(), &mut sim);
    assert_eq!(result, Err(Error::SoftwareTimeout));
    assert_eq!(sim.polls(), 65535);
    assert_eq!(host.card().err(), Some(Error::NoCard));
}

#[test]
fn negotiation_gives_up_one_poll_before_the_card_is_ready() {
    let mut sim = Sim::new();
    sim.busy_polls = 65535;
    let (_, result) = bring_up(four_lines(), &mut sim);
    assert_eq!(result, Err(Error::SoftwareTimeout));
    assert_eq!(sim.polls(), 65535);
}

#[test]
fn crc_failure_of_op_cond_is_swallowed() {
    let mut sim = Sim::new();
    sim.busy_polls = 1;
    sim.first_op_cond_answers = vec![Answer::Crc];
    let (host, result) = bring_up(four_lines(), &mut sim);
    assert_eq!(result, Ok(Output::Nothing));
    assert_eq!(sim.polls(), 2);
    assert!(host.card().is_ok());
}

#[test]
fn op_cond_that_always_fails_its_crc_still_negotiates() {
    let mut sim = Sim::new();
    sim.busy_polls = 5;
    sim.op_cond_answer = Answer::Crc;
    let (host, result) = bring_up(four_lines(), &mut sim);
    assert_eq!(result, Ok(Output::Nothing));
    assert_eq!(sim.polls(), 6);
    assert_eq!(host.card().unwrap().capacity, CardCapacity::HighCapacity);
}

#[test]
fn crc_failure_of_the_prefix_skips_the_command() {
    let mut sim = Sim::new();
    sim.first_prefix_answers = vec![Answer::Crc];
    // The response register still holds the answer to SEND_IF_COND, which
    // reads as a busy card.
    let (_, result) = bring_up(four_lines(), &mut sim);
    assert_eq!(result, Ok(Output::Nothing));
    assert_eq!(&sim.sent()[2..6], &[(55, 0), (55, 0), (41, 0x4010_0000), (2, 0)]);
    assert_eq!(sim.polls(), 1);
}

#[test]
fn timeout_during_negotiation_ends_init() {
    let mut sim = Sim::new();
    sim.busy_polls = 3;
    sim.first_op_cond_answers = vec![Answer::Good, Answer::Timeout];
    let (host, result) = bring_up(four_lines(), &mut sim);
    assert_eq!(result, Err(Error::Timeout));
    assert_eq!(sim.polls(), 2);
    assert_eq!(host.card().err(), Some(Error::NoCard));
}

#[test]
fn timeout_of_the_prefix_ends_init() {
    let mut sim = Sim::new();
    sim.first_prefix_answers = vec![Answer::Timeout];
    let (_, result) = bring_up(four_lines(), &mut sim);
    assert_eq!(result, Err(Error::Timeout));
    assert_eq!(sim.polls(), 0);
}

#[test]
fn select_timeout_is_forgiven_at_address_zero() {
    let mut sim = Sim::new();
    sim.rca = 0x0000_0520;
    sim.select_answer = Answer::Timeout;
    let (host, result) = bring_up(four_lines(), &mut sim);
    assert_eq!(result, Ok(Output::Nothing));
    assert_eq!(host.card().unwrap().get_address(), 0);
    assert!(sim.sent().contains(&(7, 0)));
}

#[test]
fn select_timeout_is_fatal_at_any_other_address() {
    for rca in [0x0001_0000u32, 0xB368_0520, 0xFFFF_0000] {
        let mut sim = Sim::new();
        sim.rca = rca;
        sim.select_answer = Answer::Timeout;
        let (host, result) = bring_up(four_lines(), &mut sim);
        assert_eq!(result, Err(Error::Timeout));
        assert_eq!(sim.sent().last(), Some(&(7, rca & 0xFFFF_0000)));
        assert_eq!(host.card().err(), Some(Error::NoCard));
    }
}

#[test]
fn select_crc_failure_is_fatal_even_at_address_zero() {
    let mut sim = Sim::new();
    sim.rca = 0;
    sim.select_answer = Answer::Crc;
    let (_, result) = bring_up(four_lines(), &mut sim);
    assert_eq!(result, Err(Error::Crc));
}

#[test]
fn command_that_never_ends_times_out_in_software() {
    let mut sim = Sim::new();
    sim.select_answer = Answer::Silent;
    let mut host = SdMmc::new(four_lines(), 16_000);
    sim.run(&mut host).unwrap();
    host.init(ClockFreq::Freq24MHz);
    sim.log.clear();
    let result = sim.run(&mut host);
    assert_eq!(result, Err(Error::SoftwareTimeout));
    let launch = sim
        .log
        .iter()
        .rposition(|e| matches!(e, Effect::WriteCommand { .. }))
        .unwrap();
    assert_eq!(sim.log[launch], Effect::WriteCommand { cmdindex: 7, waitresp: 1, waitint: false, cpsmen: true });
    assert_eq!(sim.log.len() - launch - 1, 10_000);
}

#[test]
fn scr_is_read_most_significant_word_first() {
    let mut sim = Sim::new();
    sim.scr_wire = [0xAABB_CCDD, 0x1122_3344];
    let (host, result) = bring_up(four_lines(), &mut sim);
    assert_eq!(result, Ok(Output::Nothing));
    assert_eq!(host.card().unwrap().scr, [0x4433_2211, 0xDDCC_BBAA]);
}

#[test]
fn data_fault_while_reading_the_scr_ends_init() {
    let mut sim = Sim::new();
    sim.data_fault = Some(Status { dcrcfail: true, ..quiet() });
    let (host, result) = bring_up(four_lines(), &mut sim);
    assert_eq!(result, Err(Error::DataCrcFail));
    assert_eq!(host.card().err(), Some(Error::NoCard));
}

#[test]
fn init_waits_for_the_transfer_state() {
    let mut sim = Sim::new();
    sim.card_states = vec![3 << 9, 7 << 9, 0, 15 << 9, (4 << 9) | 0x100];
    let (_, result) = bring_up(four_lines(), &mut sim);
    assert_eq!(result, Ok(Output::Nothing));
    assert_eq!(sim.status_queries, 5);
    let queries = sim.sent().iter().filter(|c| **c == (13, 0xB368_0000)).count();
    assert_eq!(queries, 5);
}

#[test]
fn wide_card_on_eight_lines_gets_four() {
    let mut sim = Sim::new();
    let (_, result) = bring_up(eight_lines(), &mut sim);
    assert_eq!(result, Ok(Output::Nothing));
    assert_eq!(sim.sent().last(), Some(&(6, 2)));
    assert_eq!(sim.log.last(), Some(&Effect::SetBus { clkdiv: 0, widbus: 1, clken: true }));
}

#[test]
fn wide_card_on_one_line_gets_one() {
    let mut sim = Sim::new();
    let (_, result) = bring_up(one_line(), &mut sim);
    assert_eq!(result, Ok(Output::Nothing));
    assert_eq!(sim.sent().last(), Some(&(6, 0)));
    assert_eq!(sim.log.last(), Some(&Effect::SetBus { clkdiv: 0, widbus: 0, clken: true }));
}

#[test]
fn narrow_card_gets_one_line_whatever_the_wiring() {
    let mut sim = Sim::new();
    sim.scr_wire = [0x0080_3102, 0];
    let (host, result) = bring_up(eight_lines(), &mut sim);
    assert_eq!(result, Ok(Output::Nothing));
    assert!(!host.card().unwrap().supports_widebus());
    assert_eq!(sim.sent().last(), Some(&(6, 0)));
    assert_eq!(sim.log.last(), Some(&Effect::SetBus { clkdiv: 0, widbus: 0, clken: true }));

    let mut sim = Sim::new();
    sim.scr_wire = [0x0080_3102, 0];
    let (_, result) = bring_up(four_lines(), &mut sim);
    assert_eq!(result, Ok(Output::Nothing));
    assert_eq!(sim.log.last(), Some(&Effect::SetBus { clkdiv: 0, widbus: 0, clken: true }));
}

#[test]
fn wiring_gives_the_bus_width() {
    assert_eq!(<(Pin, Pin, Pin) as Pins>::BUS_WIDTH, BusWidth::One);
    assert_eq!(<(Pin, Pin, Pin, Pin, Pin, Pin) as Pins>::BUS_WIDTH, BusWidth::Four);
    assert_eq!(
        <(Pin, Pin, Pin, Pin, Pin, Pin, Pin, Pin, Pin, Pin) as Pins>::BUS_WIDTH,
        BusWidth::Eight
    );
    assert_eq!(BusWidth::One.widbus(), 0);
    assert_eq!(BusWidth::Four.widbus(), 1);
    assert_eq!(BusWidth::Eight.widbus(), 2);
}

#[test]
fn clock_frequencies_have_their_dividers() {
    assert_eq!(ClockFreq::Freq24MHz.clkdiv(), 0);
    assert_eq!(ClockFreq::Freq16MHz.clkdiv(), 1);
    assert_eq!(ClockFreq::Freq12MHz.clkdiv(), 2);
    assert_eq!(ClockFreq::Freq8MHz.clkdiv(), 8);
    assert_eq!(ClockFreq::Freq4MHz.clkdiv(), 10);
    assert_eq!(ClockFreq::Freq1MHz.clkdiv(), 46);
    assert_eq!(ClockFreq::Freq400KHz.clkdiv(), 118);
}

#[test]
fn init_programs_the_frequency_asked_for() {
    let mut sim = Sim::new();
    let mut host = set_up(four_lines(), &mut sim);
    host.init(ClockFreq::Freq1MHz);
    assert_eq!(sim.run(&mut host), Ok(Output::Nothing));
    assert_eq!(sim.log.last(), Some(&Effect::SetBus { clkdiv: 46, widbus: 1, clken: true }));
}

#[test]
fn bus_width_failure_leaves_the_card_on_record() {
    let mut sim = Sim::new();
    sim.bus_width_answer = Answer::Timeout;
    let (host, result) = bring_up(four_lines(), &mut sim);
    assert_eq!(result, Err(Error::Timeout));
    assert!(host.card().is_ok());
    assert!(!sim.log.iter().any(|e| matches!(e, Effect::SetBus { .. })));
}

#[test]
fn no_card_before_init() {
    let mut sim = Sim::new();
    let mut host = set_up(four_lines(), &mut sim);
    assert_eq!(host.card().err(), Some(Error::NoCard));
    host.read_sd_status();
    assert_eq!(host.pending(), Step::Finished(Err(Error::NoCard)));
    assert_eq!(sim.run(&mut host), Err(Error::NoCard));
    assert!(sim.log.is_empty());
}

#[test]
fn no_card_after_a_failed_init() {
    let mut sim = Sim::new();
    sim.busy_polls = u32::MAX;
    let (mut host, result) = bring_up(four_lines(), &mut sim);
    assert_eq!(result, Err(Error::SoftwareTimeout));
    sim.log.clear();
    host.read_sd_status();
    assert_eq!(sim.run(&mut host), Err(Error::NoCard));
    assert!(sim.log.is_empty());
}

#[test]
fn no_card_while_init_is_under_way() {
    let mut sim = Sim::new();
    let mut host = set_up(four_lines(), &mut sim);
    host.init(ClockFreq::Freq24MHz);
    for _ in 0..20 {
        match host.pending() {
            Step::Perform(effect) => {
                let reply = sim.perform(effect);
                host.advance(reply);
            },
            Step::Finished(_) => panic!("init ended too early"),
        }
        assert_eq!(host.card().err(), Some(Error::NoCard));
    }
}

#[test]
fn second_init_replaces_every_register() {
    let mut sim = Sim::new();
    let (mut host, result) = bring_up(four_lines(), &mut sim);
    assert_eq!(result, Ok(Output::Nothing));
    let first = *host.card().unwrap();

    let mut other = Sim::new();
    other.ocr = 0x8030_0000;
    other.cid = [0xA1, 0xA2, 0xA3, 0xA4];
    other.rca = 0x0007_0000;
    other.csd = [0xB1, 0xB2, 0xB3, 0xB4];
    other.scr_wire = [0x0100_0000, 0x0200_0000];
    host.init(ClockFreq::Freq12MHz);
    assert_eq!(host.card().err(), Some(Error::NoCard));
    assert_eq!(other.run(&mut host), Ok(Output::Nothing));

    let second = *host.card().unwrap();
    assert_eq!(
        second,
        SdCard {
            capacity: CardCapacity::StandardCapacity,
            ocr: 0x8030_0000,
            cid: [0xA4, 0xA3, 0xA2, 0xA1],
            rca: 0x0007_0000,
            csd: [0xB4, 0xB3, 0xB2, 0xB1],
            scr: [2, 1],
        }
    );
    assert_ne!(second.capacity, first.capacity);
    assert_ne!(second.ocr, first.ocr);
    assert_ne!(second.cid, first.cid);
    assert_ne!(second.rca, first.rca);
    assert_ne!(second.csd, first.csd);
    assert_ne!(second.scr, first.scr);
    // The second negotiation did not address the first card.
    assert_eq!(&other.sent()[2..4], &[(55, 0), (41, 0x4010_0000)]);
    assert_eq!(other.sent().last(), Some(&(6, 0)));
    assert_eq!(other.log.last(), Some(&Effect::SetBus { clkdiv: 2, widbus: 0, clken: true }));
}

#[test]
fn second_init_behaves_like_the_first() {
    let mut fresh = Sim::new();
    let (_, result) = bring_up(four_lines(), &mut fresh);
    assert_eq!(result, Ok(Output::Nothing));

    let mut before = Sim::new();
    before.rca = 0x1234_0000;
    let (mut host, result) = bring_up(four_lines(), &mut before);
    assert_eq!(result, Ok(Output::Nothing));
    let mut again = Sim::new();
    host.init(ClockFreq::Freq24MHz);
    assert_eq!(again.run(&mut host), Ok(Output::Nothing));
    assert_eq!(again.log, fresh.log);
}

#[test]
fn failed_second_init_leaves_no_card() {
    let mut sim = Sim::new();
    let (mut host, result) = bring_up(four_lines(), &mut sim);
    assert_eq!(result, Ok(Output::Nothing));
    let mut dead = Sim::new();
    dead.if_cond_answer = Answer::Timeout;
    host.init(ClockFreq::Freq24MHz);
    assert_eq!(dead.run(&mut host), Err(Error::Timeout));
    assert_eq!(host.card().err(), Some(Error::NoCard));
}

#[test]
fn sd_status_is_read_in_two_bursts() {
    let mut sim = Sim::new();
    for i in 0..16 {
        sim.sd_status_wire[i] = ((i as u32) << 24) | 0x00AB_CD00 | (0xF0 + i as u32);
    }
    let (mut host, result) = bring_up(four_lines(), &mut sim);
    assert_eq!(result, Ok(Output::Nothing));
    sim.log.clear();
    sim.commands.clear();
    host.read_sd_status();
    let result = sim.run(&mut host);
    let mut expected = [0u32; 16];
    for i in 0..16 {
        expected[15 - i] = sim.sd_status_wire[i].swap_bytes();
    }
    assert_eq!(result, Ok(Output::SdStatus(expected)));
    assert_eq!(expected[15], 0xF0CD_AB00);
    assert_eq!(expected[0], 0xFFCD_AB0F);
    assert_eq!(sim.sent(), vec![(16, 64), (55, 0xB368_0000), (13, 0)]);
    let writes: Vec<Effect> = sim
        .log
        .iter()
        .copied()
        .filter(|e| !matches!(e, Effect::ReadStatus | Effect::ClearInterrupts(_) | Effect::ReadFifo))
        .collect();
    assert_eq!(
        writes,
        vec![
            Effect::WriteArgument(64),
            Effect::WriteCommand { cmdindex: 16, waitresp: 1, waitint: false, cpsmen: true },
            Effect::WriteDataTimer(0xFFFF_FFFF),
            Effect::WriteDataLength(64),
            Effect::WriteDataControl { dblocksize: 6, dtdir: true, dtmode: false, dten: true },
            Effect::WriteArgument(0xB368_0000),
            Effect::WriteCommand { cmdindex: 55, waitresp: 1, waitint: false, cpsmen: true },
            Effect::WriteArgument(0),
            Effect::WriteCommand { cmdindex: 13, waitresp: 1, waitint: false, cpsmen: true },
        ]
    );
    assert_eq!(sim.log.iter().filter(|e| **e == Effect::ReadFifo).count(), 16);
}

#[test]
fn sd_status_fails_on_a_data_fault() {
    let mut sim = Sim::new();
    let (mut host, result) = bring_up(four_lines(), &mut sim);
    assert_eq!(result, Ok(Output::Nothing));
    sim.data_fault = Some(Status { rxoverr: true, ..quiet() });
    host.read_sd_status();
    assert_eq!(sim.run(&mut host), Err(Error::RxOverFlow));
    sim.data_fault = Some(Status { dtimeout: true, ..quiet() });
    host.read_sd_status();
    assert_eq!(sim.run(&mut host), Err(Error::Timeout));
    assert!(host.card().is_ok());
}

#[test]
fn raw_command_is_sent_as_given() {
    let mut sim = Sim::new();
    let mut host = set_up(four_lines(), &mut sim);
    host.cmd(Command { index: 17, arg: 0x0000_0200, response_len: ResponseLen::R48 });
    assert_eq!(sim.run(&mut host), Ok(Output::Nothing));
    assert_eq!(sim.commands, vec![(17, 0x200, 1, false)]);

    sim.commands.clear();
    sim.select_answer = Answer::Crc;
    host.cmd(Command { index: 7, arg: 0, response_len: ResponseLen::R48 });
    assert_eq!(sim.run(&mut host), Err(Error::Crc));
    sim.select_answer = Answer::Timeout;
    host.cmd(Command { index: 7, arg: 0, response_len: ResponseLen::R48 });
    assert_eq!(sim.run(&mut host), Err(Error::Timeout));
}

#[test]
fn application_command_goes_to_address_zero_without_a_card() {
    let mut sim = Sim::new();
    let mut host = set_up(four_lines(), &mut sim);
    host.app_cmd(Command { index: 42, arg: 1, response_len: ResponseLen::R48 });
    assert_eq!(sim.run(&mut host), Ok(Output::Nothing));
    assert_eq!(sim.commands, vec![(55, 0, 1, false), (42, 1, 1, true)]);
}

#[test]
fn application_command_goes_to_the_card_on_record() {
    let mut sim = Sim::new();
    let (mut host, result) = bring_up(four_lines(), &mut sim);
    assert_eq!(result, Ok(Output::Nothing));
    sim.commands.clear();
    host.app_cmd(Command { index: 42, arg: 1, response_len: ResponseLen::R48 });
    assert_eq!(sim.run(&mut host), Ok(Output::Nothing));
    assert_eq!(sim.commands, vec![(55, 0xB368_0000, 1, false), (42, 1, 1, true)]);
}

#[test]
fn application_command_stops_when_the_prefix_fails() {
    let mut sim = Sim::new();
    let mut host = set_up(four_lines(), &mut sim);
    sim.first_prefix_answers = vec![Answer::Crc];
    host.app_cmd(Command { index: 42, arg: 1, response_len: ResponseLen::R48 });
    assert_eq!(sim.run(&mut host), Err(Error::Crc));
    assert_eq!(sim.sent(), vec![(55, 0)]);
}

#[test]
fn new_script_takes_the_place_of_the_old() {
    let mut sim = Sim::new();
    let mut host = set_up(four_lines(), &mut sim);
    host.init(ClockFreq::Freq24MHz);
    host.advance(Reply::Done);
    host.power_card(false);
    assert_eq!(host.pending(), Step::Perform(Effect::SetPower { pwrctrl: 0 }));
    assert_eq!(sim.run(&mut host), Ok(Output::Nothing));
}
