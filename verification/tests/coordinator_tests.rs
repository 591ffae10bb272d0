use std::collections::HashMap;

use conformity::coordinator::{
    check_timeouts, dut_init_acknowledged, fp_init_acknowledged, host_step, tests_to_run, Deadline, Handled, HostAction,
    PendingAcks, TestRun, TIMEOUT_MS,
};
use conformity::logger::Target;
use conformity::protocol::{DUTToHost, FPToHost};
use conformity::selector::TestSelector;

#[test]
fn timeouts_after_ten_seconds() {
    let mut pending = HashMap::new();
    pending.insert(7u32, 1_000u64);
    pending.insert(8u32, 5_000u64);
    assert_eq!(TIMEOUT_MS, 10_000);
    assert!(!check_timeouts(&pending, 11_000));
    assert!(check_timeouts(&pending, 11_001));
    assert!(!check_timeouts(&pending, 500));
    assert!(!check_timeouts(&HashMap::new(), u64::MAX));
}

#[test]
fn test_list_from_selector() {
    assert_eq!(tests_to_run(Some(TestSelector::I2C_DataNAK)), vec![TestSelector::I2C_DataNAK]);
    assert_eq!(tests_to_run(None), TestSelector::all());
}

#[test]
fn init_acknowledgements() {
    assert!(fp_init_acknowledged(42, FPToHost::Ack(42)));
    assert!(!fp_init_acknowledged(42, FPToHost::Ack(41)));
    assert!(!fp_init_acknowledged(42, FPToHost::Success(TestSelector::Sanity_Pin)));
    assert!(dut_init_acknowledged(9, &DUTToHost::Ack(9)));
    assert!(!dut_init_acknowledged(9, &DUTToHost::Success(TestSelector::Sanity_Pin)));
}

#[test]
fn a_test_completes_when_both_sides_succeed() {
    let mut pending = PendingAcks::new();
    let mut run = TestRun::start(&mut pending, TestSelector::I2C_SimpleWrite, 100, 200, 0);
    assert_eq!(pending.fp.get(&100), Some(&0));
    assert_eq!(pending.dut.get(&200), Some(&0));
    assert!(!run.is_complete());

    assert_eq!(run.on_fp_message(&mut pending, FPToHost::Ack(100)), Handled::Acknowledged(Target::FakePeripheral, 100));
    assert_eq!(run.on_dut_message(&mut pending, DUTToHost::Ack(200)), Handled::Acknowledged(Target::DeviceUnderTest, 200));
    assert!(pending.fp.is_empty() && pending.dut.is_empty());

    assert_eq!(run.on_fp_message(&mut pending, FPToHost::Success(TestSelector::I2C_SimpleWrite)), Handled::Passed(Target::FakePeripheral));
    assert!(!run.is_complete());
    assert_eq!(
        run.on_dut_message(&mut pending, DUTToHost::Success(TestSelector::I2C_SimpleWrite)),
        Handled::Passed(Target::DeviceUnderTest)
    );
    assert!(run.is_complete());
    assert_eq!(run.check_deadlines(&pending, 9_000), None);
}

#[test]
fn unknown_acknowledgement_is_a_violation() {
    let mut pending = PendingAcks::new();
    let mut run = TestRun::start(&mut pending, TestSelector::Sanity_Pin, 1, 2, 0);
    assert_eq!(run.on_fp_message(&mut pending, FPToHost::Ack(2)), Handled::UnknownAck(Target::FakePeripheral, 2));
    assert_eq!(run.on_dut_message(&mut pending, DUTToHost::Ack(1)), Handled::UnknownAck(Target::DeviceUnderTest, 1));
    assert_eq!(pending.fp.len(), 1);
    assert_eq!(pending.dut.len(), 1);
}

#[test]
fn success_for_another_test_is_a_violation() {
    let mut pending = PendingAcks::new();
    let mut run = TestRun::start(&mut pending, TestSelector::Sanity_Pin, 1, 2, 0);
    assert_eq!(
        run.on_fp_message(&mut pending, FPToHost::Success(TestSelector::I2C_DataNAK)),
        Handled::WrongTest(Target::FakePeripheral, TestSelector::I2C_DataNAK)
    );
    assert_eq!(
        run.on_dut_message(&mut pending, DUTToHost::Success(TestSelector::I2C_DataNAK)),
        Handled::WrongTest(Target::DeviceUnderTest, TestSelector::I2C_DataNAK)
    );
    assert!(!run.fp_success && !run.dut_success);
}

#[test]
fn failures_are_reported() {
    let mut pending = PendingAcks::new();
    let mut run = TestRun::start(&mut pending, TestSelector::I2C_AddressNAK, 1, 2, 0);
    assert_eq!(
        run.on_fp_message(&mut pending, FPToHost::TestFailure(TestSelector::I2C_AddressNAK)),
        Handled::ShieldFailed(TestSelector::I2C_AddressNAK)
    );
    assert!(!run.fp_success);
    assert_eq!(
        run.on_dut_message(&mut pending, DUTToHost::PartialSuccess(TestSelector::I2C_AddressNAK, "unknown".to_string())),
        Handled::DevicePartial(TestSelector::I2C_AddressNAK, "unknown".to_string())
    );
    assert!(run.dut_success);
    assert_eq!(
        run.on_dut_message(&mut pending, DUTToHost::TestFailure(TestSelector::I2C_AddressNAK, "bad".to_string())),
        Handled::DeviceFailed(TestSelector::I2C_AddressNAK, "bad".to_string())
    );
    assert!(!run.is_complete());
}

#[test]
fn deadlines_in_order() {
    let mut pending = PendingAcks::new();
    let run = TestRun::start(&mut pending, TestSelector::Sanity_Pin, 1, 2, 1_000);
    assert_eq!(run.check_deadlines(&pending, 11_000), None);
    assert_eq!(run.check_deadlines(&pending, 11_001), Some(Deadline::AckTimeout(Target::FakePeripheral)));
    pending.fp.clear();
    assert_eq!(run.check_deadlines(&pending, 11_001), Some(Deadline::AckTimeout(Target::DeviceUnderTest)));
    pending.dut.clear();
    assert_eq!(run.check_deadlines(&pending, 11_001), Some(Deadline::TestTimeout));
}

#[test]
fn host_runs_tests_one_after_the_other() {
    let plan = vec![TestSelector::Sanity_Pin, TestSelector::I2C_SimpleRead];
    assert_eq!(host_step(&plan, 0, None, None), HostAction::StartTest(TestSelector::Sanity_Pin));
    let mut run = TestRun { test: TestSelector::Sanity_Pin, started_at: 0, fp_success: true, dut_success: false };
    assert_eq!(host_step(&plan, 1, Some(run), None), HostAction::Poll);
    assert_eq!(
        host_step(&plan, 1, Some(run), Some(Deadline::TestTimeout)),
        HostAction::GiveUp(Deadline::TestTimeout)
    );
    run.dut_success = true;
    // a completed run makes way, even past its deadline
    assert_eq!(
        host_step(&plan, 1, Some(run), Some(Deadline::TestTimeout)),
        HostAction::StartTest(TestSelector::I2C_SimpleRead)
    );
    let last = TestRun { test: TestSelector::I2C_SimpleRead, started_at: 5, fp_success: true, dut_success: true };
    assert_eq!(host_step(&plan, 2, Some(last), None), HostAction::Finish);
    assert_eq!(host_step(&vec![], 0, None, None), HostAction::Finish);
}
