use conformity::dut::{
    judge_run, judge_setup, judge_teardown, on_command, run_op, setup_op, teardown_op, DutPhase, DutRun, HalOp,
    HalOutcome, I2cErrorKind, NoAcknowledgeSource, TestError, Verdict, I2C_AddressNAK, I2C_DataNAK,
    I2C_MultiWrite, I2C_SimpleRead, I2C_SimpleWrite, I2C_DEFAULT_ADDRESS,
};
use conformity::protocol::{DUTToHost, HostToDUT, HostToDUTCommand};
use conformity::selector::TestSelector;

#[test]
fn every_command_is_acknowledged() {
    let (ack, t) = on_command(HostToDUT { id: 77, command: HostToDUTCommand::Init });
    assert_eq!(ack, DUTToHost::Ack(77));
    assert_eq!(t, None);
    let (ack, t) = on_command(HostToDUT { id: 5, command: HostToDUTCommand::Run(TestSelector::I2C_DataNAK) });
    assert_eq!(ack, DUTToHost::Ack(5));
    assert_eq!(t, Some(TestSelector::I2C_DataNAK));
}

#[test]
fn operations_of_the_tests() {
    assert_eq!(I2C_DEFAULT_ADDRESS, 0x55);
    assert_eq!(setup_op(TestSelector::Sanity_Pin), HalOp::PinLow);
    assert_eq!(run_op(TestSelector::Sanity_Pin), HalOp::PinHigh);
    assert_eq!(teardown_op(TestSelector::Sanity_Pin), HalOp::PinLow);
    assert_eq!(I2C_SimpleRead::operation(), HalOp::I2cRead { address: 0x55, len: 1 });
    assert_eq!(I2C_SimpleWrite::operation(), HalOp::I2cWrite { address: 0x55, data: vec![13] });
    assert_eq!(I2C_MultiWrite::operation(), HalOp::I2cWrite { address: 0x55, data: vec![56, 12, 42, 18] });
    assert_eq!(I2C_AddressNAK::operation(), HalOp::I2cRead { address: 0x55, len: 1 });
    assert_eq!(I2C_DataNAK::operation(), HalOp::I2cWrite { address: 0x55, data: vec![13] });
    for t in TestSelector::all() {
        if t != TestSelector::Sanity_Pin {
            assert_eq!(setup_op(t), HalOp::Idle);
            assert_eq!(teardown_op(t), HalOp::Idle);
        }
    }
}

#[test]
fn simple_read_verdicts() {
    assert_eq!(I2C_SimpleRead::judge(&HalOutcome::ReadData(vec![13])), Verdict::Pass);
    assert_eq!(
        I2C_SimpleRead::judge(&HalOutcome::ReadData(vec![14])),
        Verdict::Fail(TestError::Failure("i2c payload mismatch"))
    );
    assert_eq!(
        I2C_SimpleRead::judge(&HalOutcome::I2cFailed(I2cErrorKind::Bus)),
        Verdict::Fail(TestError::Failure("i2c read failed"))
    );
}

#[test]
fn address_nack_verdicts() {
    let nack = |s| HalOutcome::I2cFailed(I2cErrorKind::NoAcknowledge(s));
    assert_eq!(I2C_AddressNAK::judge(&nack(NoAcknowledgeSource::Address)), Verdict::Pass);
    assert_eq!(
        I2C_AddressNAK::judge(&nack(NoAcknowledgeSource::Unknown)),
        Verdict::Fail(TestError::PartialSuccess("I2C Unknown NACK Source for Address NACK"))
    );
    assert_eq!(
        I2C_AddressNAK::judge(&nack(NoAcknowledgeSource::Data)),
        Verdict::Fail(TestError::Failure("Wrong error for address nack"))
    );
    assert_eq!(
        I2C_AddressNAK::judge(&HalOutcome::I2cFailed(I2cErrorKind::Overrun)),
        Verdict::Fail(TestError::Failure("Wrong error for address nack"))
    );
    assert_eq!(
        I2C_AddressNAK::judge(&HalOutcome::ReadData(vec![0])),
        Verdict::Fail(TestError::Failure("missing address nack did not error"))
    );
}

#[test]
fn data_nack_verdicts() {
    let nack = |s| HalOutcome::I2cFailed(I2cErrorKind::NoAcknowledge(s));
    assert_eq!(I2C_DataNAK::judge(&nack(NoAcknowledgeSource::Data)), Verdict::Pass);
    assert_eq!(
        I2C_DataNAK::judge(&nack(NoAcknowledgeSource::Unknown)),
        Verdict::Fail(TestError::PartialSuccess("I2C Unknown NACK Source for Data NACK"))
    );
    assert_eq!(
        I2C_DataNAK::judge(&nack(NoAcknowledgeSource::Address)),
        Verdict::Fail(TestError::Failure("Wrong error for data nack"))
    );
    assert_eq!(I2C_DataNAK::judge(&HalOutcome::Done), Verdict::Fail(TestError::Failure("missing data nack did not error")));
}

#[test]
fn write_and_pin_verdicts() {
    let failed = HalOutcome::I2cFailed(I2cErrorKind::ArbitrationLoss);
    assert_eq!(judge_run(TestSelector::I2C_SimpleWrite, &failed), Verdict::Fail(TestError::Failure("i2c failed to write")));
    assert_eq!(judge_run(TestSelector::I2C_MultiWrite, &failed), Verdict::Fail(TestError::Failure("i2c failed to write")));
    assert_eq!(judge_run(TestSelector::I2C_MultiWrite, &HalOutcome::Done), Verdict::Pass);
    assert_eq!(judge_setup(TestSelector::Sanity_Pin, &HalOutcome::PinError), Verdict::Fail(TestError::Failure("pin could not be set low")));
    assert_eq!(judge_run(TestSelector::Sanity_Pin, &HalOutcome::PinError), Verdict::Fail(TestError::Failure("pin could not be set high")));
    assert_eq!(judge_teardown(TestSelector::Sanity_Pin, &HalOutcome::PinError), Verdict::Halt("teardown failed"));
    assert_eq!(judge_teardown(TestSelector::Sanity_Pin, &HalOutcome::Done), Verdict::Pass);
}

#[test]
fn passing_run_reports_success_then_tears_down() {
    let (mut run, op) = DutRun::start(TestSelector::Sanity_Pin);
    assert_eq!(op, HalOp::PinLow);
    let step = run.advance(&HalOutcome::Done);
    assert!(step.reports.is_empty());
    assert_eq!(step.next, Some(HalOp::PinHigh));
    let step = run.advance(&HalOutcome::Done);
    assert_eq!(step.reports, vec![DUTToHost::Success(TestSelector::Sanity_Pin)]);
    assert_eq!(step.next, Some(HalOp::PinLow));
    assert_eq!(run.phase, DutPhase::Teardown);
    let step = run.advance(&HalOutcome::Done);
    assert!(step.reports.is_empty() && step.next.is_none() && step.halt.is_none());
    assert_eq!(run.phase, DutPhase::Finished);
}

#[test]
fn failed_setup_ends_the_test() {
    let (mut run, _) = DutRun::start(TestSelector::Sanity_Pin);
    let step = run.advance(&HalOutcome::PinError);
    assert_eq!(
        step.reports,
        vec![DUTToHost::TestFailure(TestSelector::Sanity_Pin, "pin could not be set low".to_string())]
    );
    assert_eq!(step.next, None);
    assert_eq!(run.phase, DutPhase::Finished);
}

#[test]
fn failed_run_reports_failure_and_success() {
    let (mut run, _) = DutRun::start(TestSelector::I2C_AddressNAK);
    run.advance(&HalOutcome::Done);
    let step = run.advance(&HalOutcome::I2cFailed(I2cErrorKind::NoAcknowledge(NoAcknowledgeSource::Unknown)));
    assert_eq!(
        step.reports,
        vec![
            DUTToHost::PartialSuccess(TestSelector::I2C_AddressNAK, "I2C Unknown NACK Source for Address NACK".to_string()),
            DUTToHost::Success(TestSelector::I2C_AddressNAK),
        ]
    );
    assert_eq!(step.next, Some(HalOp::Idle));
}

#[test]
fn failed_read_is_reported() {
    let (mut run, _) = DutRun::start(TestSelector::I2C_SimpleRead);
    run.advance(&HalOutcome::Done);
    let step = run.advance(&HalOutcome::I2cFailed(I2cErrorKind::Other));
    assert_eq!(
        step.reports,
        vec![
            DUTToHost::TestFailure(TestSelector::I2C_SimpleRead, "i2c read failed".to_string()),
            DUTToHost::Success(TestSelector::I2C_SimpleRead),
        ]
    );
    assert_eq!(step.halt, None);
    assert_eq!(step.next, Some(HalOp::Idle));
    assert_eq!(run.phase, DutPhase::Teardown);
}

#[test]
fn failed_teardown_stops_the_device() {
    let (mut run, _) = DutRun::start(TestSelector::Sanity_Pin);
    run.advance(&HalOutcome::Done);
    run.advance(&HalOutcome::Done);
    let step = run.advance(&HalOutcome::PinError);
    assert_eq!(step.halt, Some("teardown failed"));
}
