use crate::protocol::{DUTToHost, DUTToHostModel, HostToDUT, HostToDUTCommand};
use crate::selector::TestSelector;
use vstd::prelude::*;

verus! {

/// The address the shield answers on.
pub const I2C_DEFAULT_ADDRESS: u8 = 0x55;

/// Why a test did not fully pass.
#[derive(Debug, Clone, Copy, PartialEq, Eq)]
pub enum TestError {
    Failure(&'static str),
    PartialSuccess(&'static str),
}

/// Who did not acknowledge an I2C transfer.
#[derive(Debug, Clone, Copy, PartialEq, Eq, Structural)]
pub enum NoAcknowledgeSource {
    Address,
    Data,
    Unknown,
}

/// The kind of an I2C error, as the driver under test reports it.
#[derive(Debug, Clone, Copy, PartialEq, Eq, Structural)]
pub enum I2cErrorKind {
    Bus,
    ArbitrationLoss,
    NoAcknowledge(NoAcknowledgeSource),
    Overrun,
    Other,
}

/// A hardware operation the device under test performs for a test.
#[derive(Debug, Clone, PartialEq, Eq)]
pub enum HalOp {
    /// Nothing to do.
    Idle,
    /// Drive the test pin low.
    PinLow,
    /// Drive the test pin high.
    PinHigh,
    /// Read `len` bytes from the device at `address`.
    I2cRead { address: u8, len: usize },
    /// Write `data` to the device at `address`.
    I2cWrite { address: u8, data: Vec<u8> },
}

/// The mathematical value of a hardware operation.
pub enum OpModel {
    Idle,
    PinLow,
    PinHigh,
    I2cRead(u8, nat),
    I2cWrite(u8, Seq<u8>),
}

impl View for HalOp {
    type V = OpModel;

    open spec fn view(&self) -> OpModel {
        match self {
            HalOp::Idle => OpModel::Idle,
            HalOp::PinLow => OpModel::PinLow,
            HalOp::PinHigh => OpModel::PinHigh,
            HalOp::I2cRead { address, len } => OpModel::I2cRead(*address, *len as nat),
            HalOp::I2cWrite { address, data } => OpModel::I2cWrite(*address, data@),
        }
    }
}

/// How a hardware operation went.
#[derive(Debug, Clone, PartialEq, Eq)]
pub enum HalOutcome {
    /// The operation succeeded (and read nothing).
    Done,
    /// Driving the pin failed.
    PinError,
    /// The read succeeded with these bytes.
    ReadData(Vec<u8>),
    /// The I2C transfer failed with an error of this kind.
    I2cFailed(I2cErrorKind),
}

/// Whether `outcome` is one that operation `op` can have.
pub open spec fn fits(op: OpModel, outcome: HalOutcome) -> bool {
    match op {
        OpModel::Idle => outcome is Done,
        OpModel::PinLow | OpModel::PinHigh => outcome is Done || outcome is PinError,
        OpModel::I2cRead(_, len) => (outcome matches HalOutcome::ReadData(d) && d@.len() == len)
            || outcome is I2cFailed,
        OpModel::I2cWrite(_, _) => outcome is Done || outcome is I2cFailed,
    }
}

/// The judgement of one phase of a test.
#[derive(Debug, Clone, Copy, PartialEq, Eq)]
pub enum Verdict {
    /// The phase passed.
    Pass,
    /// The phase failed; the failure is reported.
    Fail(TestError),
    /// The device stops: the system is in a state nothing more can be said of.
    Halt(&'static str),
}

/// The operation of the setup phase.
pub open spec fn spec_setup_op(t: TestSelector) -> OpModel {
    match t {
        TestSelector::Sanity_Pin => OpModel::PinLow,
        _ => OpModel::Idle,
    }
}

/// The operation of the run phase.
pub open spec fn spec_run_op(t: TestSelector) -> OpModel {
    match t {
        TestSelector::Sanity_Pin => OpModel::PinHigh,
        TestSelector::I2C_SimpleRead => OpModel::I2cRead(I2C_DEFAULT_ADDRESS, 1),
        TestSelector::I2C_SimpleWrite => OpModel::I2cWrite(I2C_DEFAULT_ADDRESS, seq![SIMPLE_PAYLOAD]),
        TestSelector::I2C_MultiWrite => OpModel::I2cWrite(I2C_DEFAULT_ADDRESS, seq![56u8, 12u8, 42u8, 18u8]),
        TestSelector::I2C_AddressNAK => OpModel::I2cRead(I2C_DEFAULT_ADDRESS, 1),
        TestSelector::I2C_DataNAK => OpModel::I2cWrite(I2C_DEFAULT_ADDRESS, seq![SIMPLE_PAYLOAD]),
    }
}

/// The operation of the teardown phase.
pub open spec fn spec_teardown_op(t: TestSelector) -> OpModel {
    match t {
        TestSelector::Sanity_Pin => OpModel::PinLow,
        _ => OpModel::Idle,
    }
}

/// The byte of the single-byte transfers.
pub const SIMPLE_PAYLOAD: u8 = 13;

/// The judgement of the setup phase.
pub open spec fn spec_judge_setup(t: TestSelector, outcome: HalOutcome) -> Verdict {
    match outcome {
        HalOutcome::PinError => Verdict::Fail(TestError::Failure("pin could not be set low")),
        _ => Verdict::Pass,
    }
}

/// How a NACK test judges the result of its transfer: the expected source is
/// a pass, an unknown source a partial success, anything else a failure.
pub open spec fn spec_judge_nack(
    outcome: HalOutcome,
    expected: NoAcknowledgeSource,
    unknown: &'static str,
    wrong: &'static str,
    missing: &'static str,
) -> Verdict {
    match outcome {
        HalOutcome::I2cFailed(I2cErrorKind::NoAcknowledge(src)) => {
            if src == expected {
                Verdict::Pass
            } else if src == NoAcknowledgeSource::Unknown {
                Verdict::Fail(TestError::PartialSuccess(unknown))
            } else {
                Verdict::Fail(TestError::Failure(wrong))
            }
        },
        HalOutcome::I2cFailed(_) => Verdict::Fail(TestError::Failure(wrong)),
        _ => Verdict::Fail(TestError::Failure(missing)),
    }
}

/// The judgement of the run phase.
pub open spec fn spec_judge_run(t: TestSelector, outcome: HalOutcome) -> Verdict {
    match t {
        TestSelector::Sanity_Pin => match outcome {
            HalOutcome::PinError => Verdict::Fail(TestError::Failure("pin could not be set high")),
            _ => Verdict::Pass,
        },
        TestSelector::I2C_SimpleRead => match outcome {
            HalOutcome::ReadData(d) => if d@.len() > 0 && d@[0] == SIMPLE_PAYLOAD {
                Verdict::Pass
            } else {
                Verdict::Fail(TestError::Failure("i2c payload mismatch"))
            },
            _ => Verdict::Fail(TestError::Failure("i2c read failed")),
        },
        TestSelector::I2C_SimpleWrite | TestSelector::I2C_MultiWrite => match outcome {
            HalOutcome::I2cFailed(_) => Verdict::Fail(TestError::Failure("i2c failed to write")),
            _ => Verdict::Pass,
        },
        TestSelector::I2C_AddressNAK => spec_judge_nack(
            outcome,
            NoAcknowledgeSource::Address,
            "I2C Unknown NACK Source for Address NACK",
            "Wrong error for address nack",
            "missing address nack did not error",
        ),
        TestSelector::I2C_DataNAK => spec_judge_nack(
            outcome,
            NoAcknowledgeSource::Data,
            "I2C Unknown NACK Source for Data NACK",
            "Wrong error for data nack",
            "missing data nack did not error",
        ),
    }
}

/// The judgement of the teardown phase: any failure stops the device.
pub open spec fn spec_judge_teardown(t: TestSelector, outcome: HalOutcome) -> Verdict {
    match outcome {
        HalOutcome::PinError => Verdict::Halt("teardown failed"),
        _ => Verdict::Pass,
    }
}

/// The operation of the setup phase of `t`.
pub fn setup_op(t: TestSelector) -> (res: HalOp)
    ensures
        res@ == spec_setup_op(t),
{
    match t {
        TestSelector::Sanity_Pin => HalOp::PinLow,
        _ => HalOp::Idle,
    }
}

/// The operation of the run phase of `t`.
pub fn run_op(t: TestSelector) -> (res: HalOp)
    ensures
        res@ == spec_run_op(t),
{
    match t {
        TestSelector::Sanity_Pin => HalOp::PinHigh,
        TestSelector::I2C_SimpleRead => I2C_SimpleRead::operation(),
        TestSelector::I2C_SimpleWrite => I2C_SimpleWrite::operation(),
        TestSelector::I2C_MultiWrite => I2C_MultiWrite::operation(),
        TestSelector::I2C_AddressNAK => I2C_AddressNAK::operation(),
        TestSelector::I2C_DataNAK => I2C_DataNAK::operation(),
    }
}

/// The operation of the teardown phase of `t`.
pub fn teardown_op(t: TestSelector) -> (res: HalOp)
    ensures
        res@ == spec_teardown_op(t),
{
    match t {
        TestSelector::Sanity_Pin => HalOp::PinLow,
        _ => HalOp::Idle,
    }
}

/// A test that drives the pin low, then high for the shield to see an
/// edge, then low again.
pub struct PinTest;

/// Reads one byte from the shield, which must answer with the payload.
#[allow(non_camel_case_types)]
pub struct I2C_SimpleRead;

/// Writes the payload byte to the shield.
#[allow(non_camel_case_types)]
pub struct I2C_SimpleWrite;

/// Writes a four-byte payload to the shield in one transfer.
#[allow(non_camel_case_types)]
pub struct I2C_MultiWrite;

/// Reads from an address the shield does not acknowledge.
#[allow(non_camel_case_types)]
pub struct I2C_AddressNAK;

/// Writes data the shield does not acknowledge.
#[allow(non_camel_case_types)]
pub struct I2C_DataNAK;

impl I2C_SimpleRead {
    pub fn operation() -> (res: HalOp)
        ensures
            res@ == spec_run_op(TestSelector::I2C_SimpleRead),
    {
        HalOp::I2cRead { address: I2C_DEFAULT_ADDRESS, len: 1 }
    }

    /// Judges what the read gave; a failed read is reported as a failure.
    pub fn judge(outcome: &HalOutcome) -> (res: Verdict)
        ensures
            res == spec_judge_run(TestSelector::I2C_SimpleRead, *outcome),
    {
        match outcome {
            HalOutcome::ReadData(d) => {
                if d.len() > 0 && d[0] == SIMPLE_PAYLOAD {
                    Verdict::Pass
                } else {
                    Verdict::Fail(TestError::Failure("i2c payload mismatch"))
                }
            },
            _ => Verdict::Fail(TestError::Failure("i2c read failed")),
        }
    }
}

impl I2C_SimpleWrite {
    pub fn operation() -> (res: HalOp)
        ensures
            res@ == spec_run_op(TestSelector::I2C_SimpleWrite),
    {
        let data = vec![SIMPLE_PAYLOAD];
        assert(data@ =~= seq![SIMPLE_PAYLOAD]);
        let res = HalOp::I2cWrite { address: I2C_DEFAULT_ADDRESS, data };
        assert(res@ == spec_run_op(TestSelector::I2C_SimpleWrite));
        res
    }
}

impl I2C_MultiWrite {
    pub fn operation() -> (res: HalOp)
        ensures
            res@ == spec_run_op(TestSelector::I2C_MultiWrite),
    {
        let res = HalOp::I2cWrite { address: I2C_DEFAULT_ADDRESS, data: vec![56u8, 12u8, 42u8, 18u8] };
        assert(res@ == spec_run_op(TestSelector::I2C_MultiWrite));
        res
    }
}

/// Judges the result of a transfer meant to be refused with `expected`.
fn judge_nack(
    outcome: &HalOutcome,
    expected: NoAcknowledgeSource,
    unknown: &'static str,
    wrong: &'static str,
    missing: &'static str,
) -> (res: Verdict)
    ensures
        res == spec_judge_nack(*outcome, expected, unknown, wrong, missing),
{
    match outcome {
        HalOutcome::I2cFailed(I2cErrorKind::NoAcknowledge(src)) => {
            if *src == expected {
                Verdict::Pass
            } else if *src == NoAcknowledgeSource::Unknown {
                Verdict::Fail(TestError::PartialSuccess(unknown))
            } else {
                Verdict::Fail(TestError::Failure(wrong))
            }
        },
        HalOutcome::I2cFailed(_) => Verdict::Fail(TestError::Failure(wrong)),
        _ => Verdict::Fail(TestError::Failure(missing)),
    }
}

impl I2C_AddressNAK {
    pub fn operation() -> (res: HalOp)
        ensures
            res@ == spec_run_op(TestSelector::I2C_AddressNAK),
    {
        HalOp::I2cRead { address: I2C_DEFAULT_ADDRESS, len: 1 }
    }

    /// Judges the read: it must fail with an address NACK.
    pub fn judge(outcome: &HalOutcome) -> (res: Verdict)
        ensures
            res == spec_judge_run(TestSelector::I2C_AddressNAK, *outcome),
    {
        judge_nack(
            outcome,
            NoAcknowledgeSource::Address,
            "I2C Unknown NACK Source for Address NACK",
            "Wrong error for address nack",
            "missing address nack did not error",
        )
    }
}

impl I2C_DataNAK {
    pub fn operation() -> (res: HalOp)
        ensures
            res@ == spec_run_op(TestSelector::I2C_DataNAK),
    {
        let data = vec![SIMPLE_PAYLOAD];
        assert(data@ =~= seq![SIMPLE_PAYLOAD]);
        let res = HalOp::I2cWrite { address: I2C_DEFAULT_ADDRESS, data };
        assert(res@ == spec_run_op(TestSelector::I2C_DataNAK));
        res
    }

    /// Judges the write: it must fail with a data NACK.
    pub fn judge(outcome: &HalOutcome) -> (res: Verdict)
        ensures
            res == spec_judge_run(TestSelector::I2C_DataNAK, *outcome),
    {
        judge_nack(
            outcome,
            NoAcknowledgeSource::Data,
            "I2C Unknown NACK Source for Data NACK",
            "Wrong error for data nack",
            "missing data nack did not error",
        )
    }
}

/// Judges the setup phase of `t`.
pub fn judge_setup(t: TestSelector, outcome: &HalOutcome) -> (res: Verdict)
    ensures
        res == spec_judge_setup(t, *outcome),
{
    match outcome {
        HalOutcome::PinError => Verdict::Fail(TestError::Failure("pin could not be set low")),
        _ => Verdict::Pass,
    }
}

/// Judges the run phase of `t`.
pub fn judge_run(t: TestSelector, outcome: &HalOutcome) -> (res: Verdict)
    ensures
        res == spec_judge_run(t, *outcome),
{
    match t {
        TestSelector::Sanity_Pin => match outcome {
            HalOutcome::PinError => Verdict::Fail(TestError::Failure("pin could not be set high")),
            _ => Verdict::Pass,
        },
        TestSelector::I2C_SimpleRead => I2C_SimpleRead::judge(outcome),
        TestSelector::I2C_SimpleWrite | TestSelector::I2C_MultiWrite => match outcome {
            HalOutcome::I2cFailed(_) => Verdict::Fail(TestError::Failure("i2c failed to write")),
            _ => Verdict::Pass,
        },
        TestSelector::I2C_AddressNAK => I2C_AddressNAK::judge(outcome),
        TestSelector::I2C_DataNAK => I2C_DataNAK::judge(outcome),
    }
}

/// Judges the teardown phase of `t`.
pub fn judge_teardown(t: TestSelector, outcome: &HalOutcome) -> (res: Verdict)
    ensures
        res == spec_judge_teardown(t, *outcome),
{
    match outcome {
        HalOutcome::PinError => Verdict::Halt("teardown failed"),
        _ => Verdict::Pass,
    }
}

/// Where the device under test is in running a test.
#[derive(Debug, Clone, Copy, PartialEq, Eq, Structural)]
pub enum DutPhase {
    Setup,
    Run,
    Teardown,
    Finished,
}

/// A test the device under test is running.
#[derive(Debug, Clone, Copy, PartialEq, Eq, Structural)]
pub struct DutRun {
    pub test: TestSelector,
    pub phase: DutPhase,
}

/// What the device does after a phase: the reports to send to the host, in
/// order, the next operation, if any, and whether it stops altogether.
pub struct DutStep {
    pub reports: Vec<DUTToHost>,
    pub next: Option<HalOp>,
    pub halt: Option<&'static str>,
}

/// The report of a failed phase.
pub open spec fn spec_report(t: TestSelector, e: TestError) -> DUTToHostModel {
    match e {
        TestError::Failure(msg) => DUTToHostModel::TestFailure(t, msg@),
        TestError::PartialSuccess(msg) => DUTToHostModel::PartialSuccess(t, msg@),
    }
}

/// The reports of a step, as values.
pub open spec fn report_values(reports: Seq<DUTToHost>) -> Seq<DUTToHostModel> {
    reports.map_values(|r: DUTToHost| r@)
}

/// The report of a failed phase.
pub fn report(t: TestSelector, e: TestError) -> (res: DUTToHost)
    ensures
        res@ == spec_report(t, e),
{
    match e {
        TestError::Failure(msg) => DUTToHost::TestFailure(t, msg.to_owned()),
        TestError::PartialSuccess(msg) => DUTToHost::PartialSuccess(t, msg.to_owned()),
    }
}

/// The operation a phase performs, if it performs one.
pub open spec fn spec_phase_op(t: TestSelector, phase: DutPhase) -> Option<OpModel> {
    match phase {
        DutPhase::Setup => Some(spec_setup_op(t)),
        DutPhase::Run => Some(spec_run_op(t)),
        DutPhase::Teardown => Some(spec_teardown_op(t)),
        DutPhase::Finished => None,
    }
}

/// The acknowledgement the device sends for a command, and the test to run, if any.
pub fn on_command(cmd: HostToDUT) -> (res: (DUTToHost, Option<TestSelector>))
    ensures
        res.0@ == DUTToHostModel::Ack(cmd.id),
        res.1 == match cmd.command {
            HostToDUTCommand::Init => None,
            HostToDUTCommand::Run(t) => Some(t),
        },
{
    let t = match cmd.command {
        HostToDUTCommand::Init => None,
        HostToDUTCommand::Run(t) => Some(t),
    };
    (DUTToHost::Ack(cmd.id), t)
}

impl DutRun {
    /// Starts running `t`: its setup operation comes first.
    pub fn start(t: TestSelector) -> (res: (DutRun, HalOp))
        ensures
            res.0 == (DutRun { test: t, phase: DutPhase::Setup }),
            res.1@ == spec_setup_op(t),
    {
        (DutRun { test: t, phase: DutPhase::Setup }, setup_op(t))
    }

    /// Moves on after the operation of the current phase ended with `outcome`.
    /// A failed setup is reported and ends the test without running it; a
    /// failed run is reported, followed by the success report, and the
    /// teardown still follows; a failed teardown stops the device.
    pub fn advance(&mut self, outcome: &HalOutcome) -> (res: DutStep)
        requires
            old(self).phase != DutPhase::Finished,
            fits(spec_phase_op(old(self).test, old(self).phase)->0, *outcome),
        ensures
            final(self).test == old(self).test,
            ({
                let t = old(self).test;
                match old(self).phase {
                    DutPhase::Setup => match spec_judge_setup(t, *outcome) {
                        Verdict::Pass => {
                            &&& final(self).phase == DutPhase::Run
                            &&& report_values(res.reports@) == Seq::<DUTToHostModel>::empty()
                            &&& res.next matches Some(op) && op@ == spec_run_op(t)
                            &&& res.halt is None
                        },
                        Verdict::Fail(e) => {
                            &&& final(self).phase == DutPhase::Finished
                            &&& report_values(res.reports@) == seq![spec_report(t, e)]
                            &&& res.next is None
                            &&& res.halt is None
                        },
                        Verdict::Halt(why) => {
                            &&& final(self).phase == DutPhase::Finished
                            &&& report_values(res.reports@) == Seq::<DUTToHostModel>::empty()
                            &&& res.next is None
                            &&& res.halt == Some(why)
                        },
                    },
                    DutPhase::Run => match spec_judge_run(t, *outcome) {
                        Verdict::Pass => {
                            &&& final(self).phase == DutPhase::Teardown
                            &&& report_values(res.reports@) == seq![DUTToHostModel::Success(t)]
                            &&& res.next matches Some(op) && op@ == spec_teardown_op(t)
                            &&& res.halt is None
                        },
                        Verdict::Fail(e) => {
                            &&& final(self).phase == DutPhase::Teardown
                            &&& report_values(res.reports@) == seq![spec_report(t, e), DUTToHostModel::Success(t)]
                            &&& res.next matches Some(op) && op@ == spec_teardown_op(t)
                            &&& res.halt is None
                        },
                        Verdict::Halt(why) => {
                            &&& final(self).phase == DutPhase::Finished
                            &&& report_values(res.reports@) == Seq::<DUTToHostModel>::empty()
                            &&& res.next is None
                            &&& res.halt == Some(why)
                        },
                    },
                    _ => {
                        &&& final(self).phase == DutPhase::Finished
                        &&& report_values(res.reports@) == Seq::<DUTToHostModel>::empty()
                        &&& res.next is None
                        &&& res.halt == match spec_judge_teardown(t, *outcome) {
                            Verdict::Pass => None,
                            _ => Some("teardown failed"),
                        }
                    },
                }
            }),
    {
        let t = self.test;
        match self.phase {
            DutPhase::Setup => match judge_setup(t, outcome) {
                Verdict::Pass => {
                    self.phase = DutPhase::Run;
                    let reports: Vec<DUTToHost> = Vec::new();
                    assert(report_values(reports@) =~= Seq::<DUTToHostModel>::empty());
                    DutStep { reports, next: Some(run_op(t)), halt: None }
                },
                Verdict::Fail(e) => {
                    self.phase = DutPhase::Finished;
                    let reports = vec![report(t, e)];
                    assert(report_values(reports@) =~= seq![spec_report(t, e)]);
                    DutStep { reports, next: None, halt: None }
                },
                Verdict::Halt(why) => {
                    self.phase = DutPhase::Finished;
                    let reports: Vec<DUTToHost> = Vec::new();
                    assert(report_values(reports@) =~= Seq::<DUTToHostModel>::empty());
                    DutStep { reports, next: None, halt: Some(why) }
                },
            },
            DutPhase::Run => match judge_run(t, outcome) {
                Verdict::Pass => {
                    self.phase = DutPhase::Teardown;
                    let reports = vec![DUTToHost::Success(t)];
                    assert(report_values(reports@) =~= seq![DUTToHostModel::Success(t)]);
                    DutStep { reports, next: Some(teardown_op(t)), halt: None }
                },
                Verdict::Fail(e) => {
                    self.phase = DutPhase::Teardown;
                    let reports = vec![report(t, e), DUTToHost::Success(t)];
                    assert(report_values(reports@) =~= seq![spec_report(t, e), DUTToHostModel::Success(t)]);
                    DutStep { reports, next: Some(teardown_op(t)), halt: None }
                },
                Verdict::Halt(why) => {
                    self.phase = DutPhase::Finished;
                    let reports: Vec<DUTToHost> = Vec::new();
                    assert(report_values(reports@) =~= Seq::<DUTToHostModel>::empty());
                    DutStep { reports, next: None, halt: Some(why) }
                },
            },
            _ => {
                self.phase = DutPhase::Finished;
                let reports: Vec<DUTToHost> = Vec::new();
                assert(report_values(reports@) =~= Seq::<DUTToHostModel>::empty());
                let halt = match judge_teardown(t, outcome) {
                    Verdict::Pass => None,
                    _ => Some("teardown failed"),
                };
                DutStep { reports, next: None, halt }
            },
        }
    }
}

/// Everything the device reports for a test whose setup ended with
/// `setup` and whose run, if it came to that, ended with `run`.
pub open spec fn spec_dut_reports(t: TestSelector, setup: HalOutcome, run: HalOutcome) -> Seq<DUTToHostModel> {
    match spec_judge_setup(t, setup) {
        Verdict::Fail(e) => seq![spec_report(t, e)],
        Verdict::Halt(_) => Seq::empty(),
        Verdict::Pass => match spec_judge_run(t, run) {
            Verdict::Pass => seq![DUTToHostModel::Success(t)],
            Verdict::Fail(e) => seq![spec_report(t, e), DUTToHostModel::Success(t)],
            Verdict::Halt(_) => Seq::empty(),
        },
    }
}

/// Whether the device reaches the teardown of a test.
pub open spec fn spec_reaches_teardown(t: TestSelector, setup: HalOutcome, run: HalOutcome) -> bool {
    spec_judge_setup(t, setup) is Pass && !(spec_judge_run(t, run) is Halt)
}

/// The device reports the success of a test exactly when it reaches its
/// teardown, and then as its last report; every report names the test, so
/// a device that does not stop always says something about the test.
pub proof fn law_dut_reports(t: TestSelector, setup: HalOutcome, run: HalOutcome)
    ensures
        spec_dut_reports(t, setup, run).contains(DUTToHostModel::Success(t))
            <==> spec_reaches_teardown(t, setup, run),
        spec_reaches_teardown(t, setup, run) ==> spec_dut_reports(t, setup, run).last() == DUTToHostModel::Success(t),
        forall|i: int| 0 <= i < spec_dut_reports(t, setup, run).len() ==> report_names(#[trigger] spec_dut_reports(t, setup, run)[i], t),
        spec_dut_reports(t, setup, run).len() == 0 <==> (spec_judge_setup(t, setup) is Halt
            || (spec_judge_setup(t, setup) is Pass && spec_judge_run(t, run) is Halt)),
{
    let r = spec_dut_reports(t, setup, run);
    match spec_judge_setup(t, setup) {
        Verdict::Fail(e) => {
            assert(r[0] == spec_report(t, e));
            assert(r[0] != DUTToHostModel::Success(t));
            if r.contains(DUTToHostModel::Success(t)) {
                let i = choose|i: int| 0 <= i < r.len() && r[i] == DUTToHostModel::Success(t);
                assert(i == 0);
            }
        },
        Verdict::Halt(_) => {},
        Verdict::Pass => match spec_judge_run(t, run) {
            Verdict::Pass => { assert(r[0] == DUTToHostModel::Success(t)); },
            Verdict::Fail(e) => { assert(r[1] == DUTToHostModel::Success(t)); },
            Verdict::Halt(_) => {},
        },
    }
}

/// Whether a report is about test `t`.
pub open spec fn report_names(r: DUTToHostModel, t: TestSelector) -> bool {
    match r {
        DUTToHostModel::Ack(_) => false,
        DUTToHostModel::TestFailure(a, _) => a == t,
        DUTToHostModel::PartialSuccess(a, _) => a == t,
        DUTToHostModel::Success(a) => a == t,
    }
}


/// The simple-read test passes exactly when the driver's read gave the
/// payload byte 13 first; another byte is a payload mismatch and a failed
/// read a reported failure, for every outcome of the read.
pub proof fn law_simple_read_judged_by_payload(outcome: HalOutcome)
    ensures
        outcome matches HalOutcome::ReadData(d) ==> {
            &&& (spec_judge_run(TestSelector::I2C_SimpleRead, outcome) is Pass <==> d@.len() > 0 && d@[0] == 13u8)
            &&& !(d@.len() > 0 && d@[0] == 13u8) ==> spec_judge_run(TestSelector::I2C_SimpleRead, outcome)
                == Verdict::Fail(TestError::Failure("i2c payload mismatch"))
        },
        !(outcome is ReadData) ==> spec_judge_run(TestSelector::I2C_SimpleRead, outcome)
            == Verdict::Fail(TestError::Failure("i2c read failed")),
        spec_run_op(TestSelector::I2C_SimpleRead) == OpModel::I2cRead(0x55u8, 1),
{
}

/// The write tests pass exactly when the driver's write succeeded: every
/// failed transfer, whatever its error kind, is the failure "i2c failed to
/// write"; and they write the payload 13, or 56, 12, 42, 18, to address 0x55.
pub proof fn law_write_tests_fail_on_any_error(kind: I2cErrorKind)
    ensures
        spec_judge_run(TestSelector::I2C_SimpleWrite, HalOutcome::I2cFailed(kind))
            == Verdict::Fail(TestError::Failure("i2c failed to write")),
        spec_judge_run(TestSelector::I2C_MultiWrite, HalOutcome::I2cFailed(kind))
            == Verdict::Fail(TestError::Failure("i2c failed to write")),
        spec_judge_run(TestSelector::I2C_SimpleWrite, HalOutcome::Done) == Verdict::Pass,
        spec_judge_run(TestSelector::I2C_MultiWrite, HalOutcome::Done) == Verdict::Pass,
        spec_run_op(TestSelector::I2C_SimpleWrite) == OpModel::I2cWrite(0x55u8, seq![13u8]),
        spec_run_op(TestSelector::I2C_MultiWrite) == OpModel::I2cWrite(0x55u8, seq![56u8, 12u8, 42u8, 18u8]),
{
}

/// The NACK tests pass exactly on a NACK of the expected source (the
/// address for a read of 0x55, the data for a write of 13 to 0x55); a NACK
/// of unknown source is a partial success, any other error a wrong error
/// and a transfer that went through a missing NACK.
pub proof fn law_nack_tests(outcome: HalOutcome)
    ensures
        spec_run_op(TestSelector::I2C_AddressNAK) == OpModel::I2cRead(0x55u8, 1),
        spec_run_op(TestSelector::I2C_DataNAK) == OpModel::I2cWrite(0x55u8, seq![13u8]),
        spec_judge_run(TestSelector::I2C_AddressNAK, outcome) == match outcome {
            HalOutcome::I2cFailed(I2cErrorKind::NoAcknowledge(NoAcknowledgeSource::Address)) => Verdict::Pass,
            HalOutcome::I2cFailed(I2cErrorKind::NoAcknowledge(NoAcknowledgeSource::Unknown)) =>
                Verdict::Fail(TestError::PartialSuccess("I2C Unknown NACK Source for Address NACK")),
            HalOutcome::I2cFailed(_) => Verdict::Fail(TestError::Failure("Wrong error for address nack")),
            _ => Verdict::Fail(TestError::Failure("missing address nack did not error")),
        },
        spec_judge_run(TestSelector::I2C_DataNAK, outcome) == match outcome {
            HalOutcome::I2cFailed(I2cErrorKind::NoAcknowledge(NoAcknowledgeSource::Data)) => Verdict::Pass,
            HalOutcome::I2cFailed(I2cErrorKind::NoAcknowledge(NoAcknowledgeSource::Unknown)) =>
                Verdict::Fail(TestError::PartialSuccess("I2C Unknown NACK Source for Data NACK")),
            HalOutcome::I2cFailed(_) => Verdict::Fail(TestError::Failure("Wrong error for data nack")),
            _ => Verdict::Fail(TestError::Failure("missing data nack did not error")),
        },
{
}

/// The pin test drives the pin low, high, then low again; a pin error fails
/// the setup and the run with the reason, and stops the device in the
/// teardown. The I2C tests have nothing to set up or tear down.
pub proof fn law_pin_test(t: TestSelector, outcome: HalOutcome)
    ensures
        spec_setup_op(TestSelector::Sanity_Pin) == OpModel::PinLow,
        spec_run_op(TestSelector::Sanity_Pin) == OpModel::PinHigh,
        spec_teardown_op(TestSelector::Sanity_Pin) == OpModel::PinLow,
        t != TestSelector::Sanity_Pin ==> spec_setup_op(t) == OpModel::Idle && spec_teardown_op(t) == OpModel::Idle,
        spec_judge_setup(t, outcome) == if outcome is PinError {
            Verdict::Fail(TestError::Failure("pin could not be set low"))
        } else {
            Verdict::Pass
        },
        spec_judge_run(TestSelector::Sanity_Pin, outcome) == if outcome is PinError {
            Verdict::Fail(TestError::Failure("pin could not be set high"))
        } else {
            Verdict::Pass
        },
        spec_judge_teardown(t, outcome) is Pass <==> !(outcome is PinError),
        !(spec_judge_teardown(t, outcome) is Fail),
{
}

/// A failure is reported as a failure of the test with its reason, a
/// partial success as a partial success with its reservation.
pub proof fn law_reports(t: TestSelector, msg: &'static str)
    ensures
        spec_report(t, TestError::Failure(msg)) == DUTToHostModel::TestFailure(t, msg@),
        spec_report(t, TestError::PartialSuccess(msg)) == DUTToHostModel::PartialSuccess(t, msg@),
{
}

} // verus!
