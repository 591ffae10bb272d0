use crate::dut::{I2C_AddressNAK, I2C_DEFAULT_ADDRESS, SIMPLE_PAYLOAD};
use crate::protocol::{FPToHost, HostToFP, HostToFPCommand};
use crate::selector::TestSelector;
use vstd::prelude::*;

verus! {

/// The shield side of a test.
#[allow(non_camel_case_types)]
#[derive(Debug, Clone, Copy, PartialEq, Eq, Structural)]
pub enum ShieldTest {
    /// Waits for any edge on the input pin.
    PinEdge,
    /// A state machine acting as I2C target answers a one-byte read.
    I2C_SimpleRead_PIO,
    /// A state machine acting as I2C target receives a one-byte write.
    I2C_SimpleWrite_PIO,
    /// A state machine acting as I2C target receives a four-byte write.
    I2C_MultiWrite_PIO,
    /// A state machine refuses the address of a read.
    I2C_AddressNAK,
}

/// The shield test that the shield runs for `t`; none exists for data NACKs.
pub open spec fn spec_shield_test(t: TestSelector) -> Option<ShieldTest> {
    match t {
        TestSelector::Sanity_Pin => Some(ShieldTest::PinEdge),
        TestSelector::I2C_SimpleRead => Some(ShieldTest::I2C_SimpleRead_PIO),
        TestSelector::I2C_SimpleWrite => Some(ShieldTest::I2C_SimpleWrite_PIO),
        TestSelector::I2C_MultiWrite => Some(ShieldTest::I2C_MultiWrite_PIO),
        TestSelector::I2C_AddressNAK => Some(ShieldTest::I2C_AddressNAK),
        TestSelector::I2C_DataNAK => None,
    }
}

/// The shield test that the shield runs for `t`.
pub fn shield_test(t: TestSelector) -> (res: Option<ShieldTest>)
    ensures
        res == spec_shield_test(t),
{
    match t {
        TestSelector::Sanity_Pin => Some(ShieldTest::PinEdge),
        TestSelector::I2C_SimpleRead => Some(ShieldTest::I2C_SimpleRead_PIO),
        TestSelector::I2C_SimpleWrite => Some(ShieldTest::I2C_SimpleWrite_PIO),
        TestSelector::I2C_MultiWrite => Some(ShieldTest::I2C_MultiWrite_PIO),
        TestSelector::I2C_AddressNAK => Some(ShieldTest::I2C_AddressNAK),
        TestSelector::I2C_DataNAK => None,
    }
}

/// The acknowledgement the shield sends for a command, and the test to run, if any.
pub fn on_command(cmd: HostToFP) -> (res: (FPToHost, Option<TestSelector>))
    ensures
        res.0 == FPToHost::Ack(cmd.id),
        res.1 == match cmd.command {
            HostToFPCommand::Init => None,
            HostToFPCommand::Run(t) => Some(t),
        },
{
    let t = match cmd.command {
        HostToFPCommand::Init => None,
        HostToFPCommand::Run(t) => Some(t),
    };
    (FPToHost::Ack(cmd.id), t)
}

/// Where the shield is in running a test.
#[derive(Debug, Clone, Copy, PartialEq, Eq, Structural)]
pub enum FpPhase {
    Setup,
    Run,
    Teardown,
    Finished,
}

/// A test the shield is running.
#[derive(Debug, Clone, Copy, PartialEq, Eq, Structural)]
pub struct FpRun {
    pub test: TestSelector,
    pub phase: FpPhase,
}

/// What the shield does after a phase: the report to send, whether to go
/// on to another phase, and whether it stops altogether.
#[derive(Debug, Clone, Copy, PartialEq, Eq, Structural)]
pub struct FpStep {
    pub report: Option<FPToHost>,
    pub halt: bool,
}

impl FpRun {
    /// Starts the shield side of `t` with its setup phase.
    pub fn start(t: TestSelector) -> (res: FpRun)
        ensures
            res == (FpRun { test: t, phase: FpPhase::Setup }),
    {
        FpRun { test: t, phase: FpPhase::Setup }
    }

    /// Moves on after the current phase ended (`passed` tells how). A failed
    /// setup or run is reported and ends the test without teardown; a passed
    /// run is reported and followed by the teardown; a failed teardown stops
    /// the shield.
    pub fn advance(&mut self, passed: bool) -> (res: FpStep)
        requires
            old(self).phase != FpPhase::Finished,
        ensures
            final(self).test == old(self).test,
            match old(self).phase {
                FpPhase::Setup => if passed {
                    final(self).phase == FpPhase::Run && res == (FpStep { report: None, halt: false })
                } else {
                    final(self).phase == FpPhase::Finished
                        && res == (FpStep { report: Some(FPToHost::TestFailure(old(self).test)), halt: false })
                },
                FpPhase::Run => if passed {
                    final(self).phase == FpPhase::Teardown
                        && res == (FpStep { report: Some(FPToHost::Success(old(self).test)), halt: false })
                } else {
                    final(self).phase == FpPhase::Finished
                        && res == (FpStep { report: Some(FPToHost::TestFailure(old(self).test)), halt: false })
                },
                _ => final(self).phase == FpPhase::Finished && res == (FpStep { report: None, halt: !passed }),
            },
    {
        let t = self.test;
        match self.phase {
            FpPhase::Setup => {
                if passed {
                    self.phase = FpPhase::Run;
                    FpStep { report: None, halt: false }
                } else {
                    self.phase = FpPhase::Finished;
                    FpStep { report: Some(FPToHost::TestFailure(t)), halt: false }
                }
            },
            FpPhase::Run => {
                if passed {
                    self.phase = FpPhase::Teardown;
                    FpStep { report: Some(FPToHost::Success(t)), halt: false }
                } else {
                    self.phase = FpPhase::Finished;
                    FpStep { report: Some(FPToHost::TestFailure(t)), halt: false }
                }
            },
            _ => {
                self.phase = FpPhase::Finished;
                FpStep { report: None, halt: !passed }
            },
        }
    }
}

/// The report for a test the shield has no side for.
pub fn no_shield_test_report(t: TestSelector) -> (res: FPToHost)
    ensures
        res == FPToHost::TestFailure(t),
{
    FPToHost::TestFailure(t)
}

/// The state-machine program a shield test loads.
#[derive(Debug, Clone, Copy, PartialEq, Eq, Structural)]
pub enum PioProgram {
    /// An I2C target that reports the address byte, answers reads with the
    /// reply word and reports written bytes.
    SimpleTarget,
    /// An I2C target that reports the address byte and refuses it.
    AddressNak,
}

/// How a shield test prepares the state machine.
#[derive(Debug, Clone, Copy, PartialEq, Eq, Structural)]
pub struct PioSetup {
    pub program: PioProgram,
    /// Bits shifted out before the output register is refilled.
    pub tx_threshold: u8,
    /// The word pushed for the state machine to answer a read with.
    pub reply: Option<u32>,
}

/// One thing a shield test waits for or checks, in order.
#[derive(Debug, Clone, Copy, PartialEq, Eq, Structural)]
pub enum PioStep {
    /// Clear the interrupt flags of this mask before the state machine starts.
    ClearIrqs(u8),
    /// Wait for the state machine to raise this interrupt flag.
    WaitIrq(u8),
    /// Take the address byte (waiting for it when `blocking`) and check the
    /// address and the direction.
    PullAddress { read: bool, blocking: bool },
    /// Wait for a written byte and check it.
    PullData(u8),
}

/// The word whose first byte shifted out (the most significant) is `byte`.
pub open spec fn spec_reply_word(byte: u8) -> u32 {
    (byte as u32 * 0x0100_0000u32) as u32
}

/// The word a state machine shifts out to answer a read with `byte`.
pub fn reply_word(byte: u8) -> (res: u32)
    ensures
        res == spec_reply_word(byte),
{
    (byte as u32) * 0x0100_0000u32
}

/// How the shield test prepares the state machine, if it uses one.
pub open spec fn spec_pio_setup(test: ShieldTest) -> Option<PioSetup> {
    match test {
        ShieldTest::PinEdge => None,
        ShieldTest::I2C_SimpleRead_PIO => Some(PioSetup {
            program: PioProgram::SimpleTarget,
            tx_threshold: 8,
            reply: Some(spec_reply_word(SIMPLE_PAYLOAD)),
        }),
        ShieldTest::I2C_SimpleWrite_PIO => Some(PioSetup { program: PioProgram::SimpleTarget, tx_threshold: 8, reply: Some(0) }),
        ShieldTest::I2C_MultiWrite_PIO => Some(PioSetup { program: PioProgram::SimpleTarget, tx_threshold: 32, reply: Some(0) }),
        ShieldTest::I2C_AddressNAK => Some(PioSetup { program: PioProgram::AddressNak, tx_threshold: 8, reply: None }),
    }
}

/// How the shield test prepares the state machine, if it uses one.
pub fn pio_setup(test: ShieldTest) -> (res: Option<PioSetup>)
    ensures
        res == spec_pio_setup(test),
{
    match test {
        ShieldTest::PinEdge => None,
        ShieldTest::I2C_SimpleRead_PIO => Some(I2C_SimpleRead_PIO::setup()),
        ShieldTest::I2C_SimpleWrite_PIO => Some(I2C_SimpleWrite_PIO::setup()),
        ShieldTest::I2C_MultiWrite_PIO => Some(I2C_MultiWrite_PIO::setup()),
        ShieldTest::I2C_AddressNAK => Some(I2C_AddressNAK::shield_setup()),
    }
}

/// What the shield test waits for and checks, in order.
pub open spec fn spec_pio_script(test: ShieldTest) -> Seq<PioStep> {
    match test {
        ShieldTest::PinEdge => seq![],
        ShieldTest::I2C_SimpleRead_PIO => seq![
            PioStep::PullAddress { read: true, blocking: true },
            PioStep::WaitIrq(3),
        ],
        ShieldTest::I2C_SimpleWrite_PIO => seq![
            PioStep::PullAddress { read: false, blocking: true },
            PioStep::PullData(SIMPLE_PAYLOAD),
            PioStep::WaitIrq(3),
        ],
        ShieldTest::I2C_MultiWrite_PIO => seq![
            PioStep::ClearIrqs(0xF),
            PioStep::PullAddress { read: false, blocking: true },
            PioStep::PullData(56),
            PioStep::PullData(12),
            PioStep::PullData(42),
            PioStep::PullData(18),
        ],
        ShieldTest::I2C_AddressNAK => seq![
            PioStep::WaitIrq(0),
            PioStep::PullAddress { read: true, blocking: false },
        ],
    }
}

/// What the shield test waits for and checks, in order.
pub fn pio_script(test: ShieldTest) -> (res: Vec<PioStep>)
    ensures
        res@ == spec_pio_script(test),
{
    match test {
        ShieldTest::PinEdge => {
            let res: Vec<PioStep> = Vec::new();
            assert(res@ =~= spec_pio_script(test));
            res
        },
        ShieldTest::I2C_SimpleRead_PIO => I2C_SimpleRead_PIO::script(),
        ShieldTest::I2C_SimpleWrite_PIO => I2C_SimpleWrite_PIO::script(),
        ShieldTest::I2C_MultiWrite_PIO => I2C_MultiWrite_PIO::script(),
        ShieldTest::I2C_AddressNAK => I2C_AddressNAK::shield_script(),
    }
}

/// The shield side of the one-byte read, with a state machine as target.
#[allow(non_camel_case_types)]
pub struct I2C_SimpleRead_PIO;

/// The shield side of the one-byte write, with a state machine as target.
#[allow(non_camel_case_types)]
pub struct I2C_SimpleWrite_PIO;

/// The shield side of the four-byte write, with a state machine as target.
#[allow(non_camel_case_types)]
pub struct I2C_MultiWrite_PIO;

impl I2C_SimpleRead_PIO {
    /// Loads the target program; the reply is the payload byte.
    pub fn setup() -> (res: PioSetup)
        ensures
            Some(res) == spec_pio_setup(ShieldTest::I2C_SimpleRead_PIO),
    {
        PioSetup { program: PioProgram::SimpleTarget, tx_threshold: 8, reply: Some(reply_word(SIMPLE_PAYLOAD)) }
    }

    /// A read of the default address, then the end of the program.
    pub fn script() -> (res: Vec<PioStep>)
        ensures
            res@ == spec_pio_script(ShieldTest::I2C_SimpleRead_PIO),
    {
        let res = vec![PioStep::PullAddress { read: true, blocking: true }, PioStep::WaitIrq(3)];
        assert(res@ =~= spec_pio_script(ShieldTest::I2C_SimpleRead_PIO));
        res
    }
}

impl I2C_SimpleWrite_PIO {
    /// Loads the target program; there is nothing to reply.
    pub fn setup() -> (res: PioSetup)
        ensures
            Some(res) == spec_pio_setup(ShieldTest::I2C_SimpleWrite_PIO),
    {
        PioSetup { program: PioProgram::SimpleTarget, tx_threshold: 8, reply: Some(0) }
    }

    /// A write to the default address, the payload byte, then the end of
    /// the program.
    pub fn script() -> (res: Vec<PioStep>)
        ensures
            res@ == spec_pio_script(ShieldTest::I2C_SimpleWrite_PIO),
    {
        let res = vec![
            PioStep::PullAddress { read: false, blocking: true },
            PioStep::PullData(SIMPLE_PAYLOAD),
            PioStep::WaitIrq(3),
        ];
        assert(res@ =~= spec_pio_script(ShieldTest::I2C_SimpleWrite_PIO));
        res
    }
}

impl I2C_MultiWrite_PIO {
    /// Loads the target program with a 32-bit output threshold; there is
    /// nothing to reply.
    pub fn setup() -> (res: PioSetup)
        ensures
            Some(res) == spec_pio_setup(ShieldTest::I2C_MultiWrite_PIO),
    {
        PioSetup { program: PioProgram::SimpleTarget, tx_threshold: 32, reply: Some(0) }
    }

    /// Clearing interrupt flags 0 to 3, a write to the default address,
    /// then the four payload bytes.
    pub fn script() -> (res: Vec<PioStep>)
        ensures
            res@ == spec_pio_script(ShieldTest::I2C_MultiWrite_PIO),
    {
        let res = vec![
            PioStep::ClearIrqs(0xF),
            PioStep::PullAddress { read: false, blocking: true },
            PioStep::PullData(56),
            PioStep::PullData(12),
            PioStep::PullData(42),
            PioStep::PullData(18),
        ];
        assert(res@ =~= spec_pio_script(ShieldTest::I2C_MultiWrite_PIO));
        res
    }
}

impl I2C_AddressNAK {
    /// Loads the program that refuses the address.
    pub fn shield_setup() -> (res: PioSetup)
        ensures
            Some(res) == spec_pio_setup(ShieldTest::I2C_AddressNAK),
    {
        PioSetup { program: PioProgram::AddressNak, tx_threshold: 8, reply: None }
    }

    /// The refusal, then a read of the default address.
    pub fn shield_script() -> (res: Vec<PioStep>)
        ensures
            res@ == spec_pio_script(ShieldTest::I2C_AddressNAK),
    {
        let res = vec![PioStep::WaitIrq(0), PioStep::PullAddress { read: true, blocking: false }];
        assert(res@ =~= spec_pio_script(ShieldTest::I2C_AddressNAK));
        res
    }
}

/// What a monitored state machine signals with its interrupt flags.
#[derive(Debug, Clone, Copy, PartialEq, Eq, Structural)]
pub enum MonitorEvent {
    /// A start condition and an address byte, waiting in the FIFO.
    Start,
    /// A read by the controller.
    Read,
    /// A write by the controller.
    Write,
    /// The end of the program: monitoring stops.
    End,
}

/// The event behind interrupt flag `irq` of the monitoring program.
pub fn monitor_event(irq: u8) -> (res: MonitorEvent)
    requires
        irq < 4,
    ensures
        res == match irq {
            0 => MonitorEvent::Start,
            1 => MonitorEvent::Read,
            2 => MonitorEvent::Write,
            _ => MonitorEvent::End,
        },
{
    match irq {
        0 => MonitorEvent::Start,
        1 => MonitorEvent::Read,
        2 => MonitorEvent::Write,
        _ => MonitorEvent::End,
    }
}

/// The byte a state machine pushed: the least significant byte of the word.
pub open spec fn spec_low_byte(word: u32) -> u8 {
    (word % 256) as u8
}

/// The address and the direction (`true` for a read) of an address byte
/// pushed by the state machine.
pub open spec fn spec_address_of(word: u32) -> (u8, bool) {
    (spec_low_byte(word) / 2, spec_low_byte(word) % 2 == 1)
}

/// The address and the direction (`true` for a read) of an address byte
/// pushed by the state machine.
pub fn decode_address_word(word: u32) -> (res: (u8, bool))
    ensures
        res == spec_address_of(word),
{
    let byte = (word & 0xff) as u8;
    assert(word & 0xff == word % 256) by (bit_vector);
    assert((byte >> 1u8) == byte / 2) by (bit_vector);
    assert(((byte & 1u8) == 1u8) == (byte % 2 == 1)) by (bit_vector);
    (byte >> 1u8, byte & 1u8 == 1u8)
}

/// Checks a word the state machine pushed against the step that expects
/// it; the error says what did not match.
pub open spec fn spec_check_word(step: PioStep, word: u32) -> Result<(), &'static str> {
    match step {
        PioStep::PullAddress { read, .. } => {
            if spec_address_of(word).1 != read {
                Err("unexpected transfer direction")
            } else if spec_address_of(word).0 != I2C_DEFAULT_ADDRESS {
                Err("unexpected address")
            } else {
                Ok(())
            }
        },
        PioStep::PullData(b) => if spec_low_byte(word) == b {
            Ok(())
        } else {
            Err("unexpected data byte")
        },
        PioStep::WaitIrq(_) | PioStep::ClearIrqs(_) => Ok(()),
    }
}

/// Checks a word the state machine pushed against the step that expects it;
/// on an error the shield stops (see `FpRun::on_word`).
pub fn check_pio_word(step: PioStep, word: u32) -> (res: Result<(), &'static str>)
    ensures
        res == spec_check_word(step, word),
{
    match step {
        PioStep::PullAddress { read, .. } => {
            let (address, is_read) = decode_address_word(word);
            if is_read != read {
                Err("unexpected transfer direction")
            } else if address != I2C_DEFAULT_ADDRESS {
                Err("unexpected address")
            } else {
                Ok(())
            }
        },
        PioStep::PullData(b) => {
            let byte = (word & 0xff) as u8;
            assert(word & 0xff == word % 256) by (bit_vector);
            if byte == b {
                Ok(())
            } else {
                Err("unexpected data byte")
            }
        },
        PioStep::WaitIrq(_) | PioStep::ClearIrqs(_) => Ok(()),
    }
}

/// Everything the shield reports for a test whose setup passed or not and
/// whose run, if it came to that, passed or not.
pub open spec fn spec_fp_reports(t: TestSelector, setup_passed: bool, run_passed: bool) -> Seq<FPToHost> {
    if !setup_passed || !run_passed {
        seq![FPToHost::TestFailure(t)]
    } else {
        seq![FPToHost::Success(t)]
    }
}


impl FpRun {
    /// Handles a word the state machine pushed during the run: a word that
    /// passes its check leaves the run going; any other stops the shield,
    /// without a report, as a failed assertion does.
    pub fn on_word(&mut self, step: PioStep, word: u32) -> (res: FpStep)
        requires
            old(self).phase == FpPhase::Run,
        ensures
            final(self).test == old(self).test,
            spec_check_word(step, word) is Ok ==> {
                &&& final(self).phase == FpPhase::Run
                &&& res == (FpStep { report: None, halt: false })
            },
            spec_check_word(step, word) is Err ==> {
                &&& final(self).phase == FpPhase::Finished
                &&& res == (FpStep { report: None, halt: true })
            },
    {
        match check_pio_word(step, word) {
            Ok(()) => FpStep { report: None, halt: false },
            Err(_) => {
                self.phase = FpPhase::Finished;
                FpStep { report: None, halt: true }
            },
        }
    }
}


/// A pushed word passes an address step, blocking or not, exactly when its
/// low byte is the default address 0x55 shifted left with the direction
/// bit of the step (1 for a read); it passes a data step exactly when its
/// low byte is the expected byte; waiting and clearing check nothing.
pub proof fn law_word_checks(step: PioStep, word: u32)
    ensures
        step matches PioStep::PullAddress { read, .. } ==> (spec_check_word(step, word) is Ok <==> {
            &&& (word % 256) / 2 == 0x55
            &&& ((word % 256) % 2 == 1) == read
        }),
        step matches PioStep::PullAddress { read, .. } ==> (((word % 256) % 2 == 1) != read
            ==> spec_check_word(step, word) == Err::<(), &'static str>("unexpected transfer direction")),
        step matches PioStep::PullData(b) ==> (spec_check_word(step, word) is Ok <==> word % 256 == b),
        step is WaitIrq || step is ClearIrqs ==> spec_check_word(step, word) is Ok,
{
    assert(spec_low_byte(word) == word % 256);
}

/// The shield side of each test: the pin test waits for an edge and uses no
/// state machine; the read test answers a read of 0x55 with 13 (shifted out
/// first); the write tests take a write of 0x55 and the bytes 13, or 56,
/// 12, 42, 18; the address NACK test refuses a read of 0x55; the data NACK
/// test has no shield side.
pub proof fn law_shield_sides()
    ensures
        spec_shield_test(TestSelector::Sanity_Pin) == Some(ShieldTest::PinEdge),
        spec_shield_test(TestSelector::I2C_SimpleRead) == Some(ShieldTest::I2C_SimpleRead_PIO),
        spec_shield_test(TestSelector::I2C_SimpleWrite) == Some(ShieldTest::I2C_SimpleWrite_PIO),
        spec_shield_test(TestSelector::I2C_MultiWrite) == Some(ShieldTest::I2C_MultiWrite_PIO),
        spec_shield_test(TestSelector::I2C_AddressNAK) == Some(ShieldTest::I2C_AddressNAK),
        spec_shield_test(TestSelector::I2C_DataNAK) is None,
        spec_pio_setup(ShieldTest::PinEdge) is None,
        spec_pio_script(ShieldTest::PinEdge).len() == 0,
        spec_pio_setup(ShieldTest::I2C_SimpleRead_PIO) == Some(PioSetup {
            program: PioProgram::SimpleTarget,
            tx_threshold: 8,
            reply: Some(0x0D00_0000u32),
        }),
        spec_pio_script(ShieldTest::I2C_SimpleRead_PIO) == seq![
            PioStep::PullAddress { read: true, blocking: true },
            PioStep::WaitIrq(3),
        ],
        spec_pio_setup(ShieldTest::I2C_SimpleWrite_PIO) == Some(PioSetup {
            program: PioProgram::SimpleTarget,
            tx_threshold: 8,
            reply: Some(0u32),
        }),
        spec_pio_script(ShieldTest::I2C_SimpleWrite_PIO) == seq![
            PioStep::PullAddress { read: false, blocking: true },
            PioStep::PullData(13),
            PioStep::WaitIrq(3),
        ],
        spec_pio_setup(ShieldTest::I2C_MultiWrite_PIO) == Some(PioSetup {
            program: PioProgram::SimpleTarget,
            tx_threshold: 32,
            reply: Some(0u32),
        }),
        spec_pio_script(ShieldTest::I2C_MultiWrite_PIO) == seq![
            PioStep::ClearIrqs(0xF),
            PioStep::PullAddress { read: false, blocking: true },
            PioStep::PullData(56),
            PioStep::PullData(12),
            PioStep::PullData(42),
            PioStep::PullData(18),
        ],
        spec_pio_setup(ShieldTest::I2C_AddressNAK) == Some(PioSetup {
            program: PioProgram::AddressNak,
            tx_threshold: 8,
            reply: None,
        }),
        spec_pio_script(ShieldTest::I2C_AddressNAK) == seq![
            PioStep::WaitIrq(0),
            PioStep::PullAddress { read: true, blocking: false },
        ],
{
}

/// The reply word carries its byte in the most significant position, which
/// the state machine shifts out first, and zeros elsewhere.
pub proof fn law_reply_word(byte: u8)
    ensures
        spec_reply_word(byte) / 0x0100_0000 == byte,
        spec_reply_word(byte) % 0x0100_0000 == 0,
{
    assert(byte as u32 * 0x0100_0000u32 <= 0xFF00_0000u32) by (nonlinear_arith)
        requires byte <= 0xFF;
}

/// The shield reports the success of a test exactly when its setup and run
/// passed, and its failure otherwise, once; a failed setup or run ends the
/// shield side without teardown.
pub proof fn law_shield_reports(t: TestSelector, setup_passed: bool, run_passed: bool)
    ensures
        spec_fp_reports(t, setup_passed, run_passed) == if setup_passed && run_passed {
            seq![FPToHost::Success(t)]
        } else {
            seq![FPToHost::TestFailure(t)]
        },
{
}

} // verus!
