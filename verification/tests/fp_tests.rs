use conformity::dut::I2C_AddressNAK;
use conformity::fp::{
    check_pio_word, decode_address_word, monitor_event, no_shield_test_report, on_command, pio_script, pio_setup,
    reply_word, shield_test, FpPhase, FpRun, FpStep, I2C_MultiWrite_PIO, I2C_SimpleRead_PIO, I2C_SimpleWrite_PIO,
    MonitorEvent, PioProgram, PioSetup, PioStep, ShieldTest,
};
use conformity::protocol::{FPToHost, HostToFP, HostToFPCommand};
use conformity::selector::TestSelector;

#[test]
fn shield_acknowledges_every_command() {
    assert_eq!(on_command(HostToFP { id: 3, command: HostToFPCommand::Init }), (FPToHost::Ack(3), None));
    assert_eq!(
        on_command(HostToFP { id: 4, command: HostToFPCommand::Run(TestSelector::I2C_SimpleRead) }),
        (FPToHost::Ack(4), Some(TestSelector::I2C_SimpleRead))
    );
}

#[test]
fn shield_tests_for_selectors() {
    assert_eq!(shield_test(TestSelector::Sanity_Pin), Some(ShieldTest::PinEdge));
    assert_eq!(shield_test(TestSelector::I2C_SimpleRead), Some(ShieldTest::I2C_SimpleRead_PIO));
    assert_eq!(shield_test(TestSelector::I2C_SimpleWrite), Some(ShieldTest::I2C_SimpleWrite_PIO));
    assert_eq!(shield_test(TestSelector::I2C_MultiWrite), Some(ShieldTest::I2C_MultiWrite_PIO));
    assert_eq!(shield_test(TestSelector::I2C_AddressNAK), Some(ShieldTest::I2C_AddressNAK));
    assert_eq!(shield_test(TestSelector::I2C_DataNAK), None);
    assert_eq!(no_shield_test_report(TestSelector::I2C_DataNAK), FPToHost::TestFailure(TestSelector::I2C_DataNAK));
}

#[test]
fn shield_run_reports() {
    let mut run = FpRun::start(TestSelector::Sanity_Pin);
    assert_eq!(run.advance(true), FpStep { report: None, halt: false });
    assert_eq!(run.advance(true), FpStep { report: Some(FPToHost::Success(TestSelector::Sanity_Pin)), halt: false });
    assert_eq!(run.phase, FpPhase::Teardown);
    assert_eq!(run.advance(true), FpStep { report: None, halt: false });
    assert_eq!(run.phase, FpPhase::Finished);

    let mut run = FpRun::start(TestSelector::I2C_SimpleRead);
    assert_eq!(run.advance(false), FpStep { report: Some(FPToHost::TestFailure(TestSelector::I2C_SimpleRead)), halt: false });
    assert_eq!(run.phase, FpPhase::Finished);

    let mut run = FpRun::start(TestSelector::I2C_SimpleRead);
    run.advance(true);
    assert_eq!(run.advance(false), FpStep { report: Some(FPToHost::TestFailure(TestSelector::I2C_SimpleRead)), halt: false });
    assert_eq!(run.phase, FpPhase::Finished);

    let mut run = FpRun::start(TestSelector::I2C_SimpleRead);
    run.advance(true);
    run.advance(true);
    assert_eq!(run.advance(false), FpStep { report: None, halt: true });
}

#[test]
fn pio_preparation() {
    assert_eq!(reply_word(13), 0x0D00_0000);
    assert_eq!(
        I2C_SimpleRead_PIO::setup(),
        PioSetup { program: PioProgram::SimpleTarget, tx_threshold: 8, reply: Some(0x0D00_0000) }
    );
    assert_eq!(I2C_SimpleWrite_PIO::setup(), PioSetup { program: PioProgram::SimpleTarget, tx_threshold: 8, reply: Some(0) });
    assert_eq!(I2C_MultiWrite_PIO::setup(), PioSetup { program: PioProgram::SimpleTarget, tx_threshold: 32, reply: Some(0) });
    assert_eq!(I2C_AddressNAK::shield_setup(), PioSetup { program: PioProgram::AddressNak, tx_threshold: 8, reply: None });
    assert_eq!(pio_setup(ShieldTest::PinEdge), None);
    assert_eq!(pio_setup(ShieldTest::I2C_MultiWrite_PIO), Some(I2C_MultiWrite_PIO::setup()));
}

#[test]
fn pio_scripts() {
    assert_eq!(pio_script(ShieldTest::PinEdge), vec![]);
    assert_eq!(
        pio_script(ShieldTest::I2C_SimpleWrite_PIO),
        vec![PioStep::PullAddress { read: false, blocking: true }, PioStep::PullData(13), PioStep::WaitIrq(3)]
    );
    assert_eq!(
        I2C_MultiWrite_PIO::script(),
        vec![
            PioStep::ClearIrqs(0xF),
            PioStep::PullAddress { read: false, blocking: true },
            PioStep::PullData(56),
            PioStep::PullData(12),
            PioStep::PullData(42),
            PioStep::PullData(18),
        ]
    );
    assert_eq!(I2C_SimpleRead_PIO::script(), vec![PioStep::PullAddress { read: true, blocking: true }, PioStep::WaitIrq(3)]);
    assert_eq!(I2C_AddressNAK::shield_script(), vec![PioStep::WaitIrq(0), PioStep::PullAddress { read: true, blocking: false }]);
}

#[test]
fn address_words() {
    // 0x55 shifted left, with the read bit set, in the low byte.
    assert_eq!(decode_address_word(0xAB), (0x55, true));
    assert_eq!(decode_address_word(0xFFFF_FFAA), (0x55, false));
    assert_eq!(check_pio_word(PioStep::PullAddress { read: true, blocking: true }, 0xAB), Ok(()));
    assert_eq!(check_pio_word(PioStep::PullAddress { read: true, blocking: true }, 0xAA), Err("unexpected transfer direction"));
    assert_eq!(check_pio_word(PioStep::PullAddress { read: false, blocking: true }, 0xA8), Err("unexpected address"));
    assert_eq!(check_pio_word(PioStep::PullData(13), 0x1234_560D), Ok(()));
    assert_eq!(check_pio_word(PioStep::PullData(13), 0x0E), Err("unexpected data byte"));
    assert_eq!(check_pio_word(PioStep::WaitIrq(3), 0), Ok(()));
}

#[test]
fn monitor_events() {
    assert_eq!(monitor_event(0), MonitorEvent::Start);
    assert_eq!(monitor_event(1), MonitorEvent::Read);
    assert_eq!(monitor_event(2), MonitorEvent::Write);
    assert_eq!(monitor_event(3), MonitorEvent::End);
}

#[test]
fn a_wrong_word_stops_the_shield() {
    let mut run = FpRun::start(TestSelector::I2C_MultiWrite);
    run.advance(true);
    let ok = FpStep { report: None, halt: false };
    // 0x55 with the write bit, then the payload
    assert_eq!(run.on_word(PioStep::PullAddress { read: false, blocking: true }, 0xAA), ok);
    assert_eq!(run.on_word(PioStep::PullData(56), 56), ok);
    assert_eq!(run.phase, FpPhase::Run);
    assert_eq!(run.on_word(PioStep::PullData(12), 13), FpStep { report: None, halt: true });
    assert_eq!(run.phase, FpPhase::Finished);

    let mut run = FpRun::start(TestSelector::I2C_SimpleWrite);
    run.advance(true);
    assert_eq!(run.on_word(PioStep::PullAddress { read: false, blocking: true }, 0xAB), FpStep { report: None, halt: true });
}
