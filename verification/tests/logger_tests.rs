use conformity::logger::{
    host_level, locations_complete, logger_setup, logger_step, target_name, DecodeOutcome, DeviceLevel, HostLevel,
    LoggerAction, Target,
};

#[test]
fn levels_map_one_to_one() {
    assert_eq!(host_level(Some(DeviceLevel::Trace)), HostLevel::Trace);
    assert_eq!(host_level(Some(DeviceLevel::Debug)), HostLevel::Debug);
    assert_eq!(host_level(Some(DeviceLevel::Info)), HostLevel::Info);
    assert_eq!(host_level(Some(DeviceLevel::Warn)), HostLevel::Warn);
    assert_eq!(host_level(Some(DeviceLevel::Error)), HostLevel::Error);
}

#[test]
fn lines_without_level_are_warnings() {
    assert_eq!(host_level(None), HostLevel::Warn);
}

#[test]
fn target_names() {
    assert_eq!(target_name(Target::FakePeripheral), "fp");
    assert_eq!(target_name(Target::DeviceUnderTest), "dut");
}

#[test]
fn logger_steps() {
    assert_eq!(logger_step(DecodeOutcome::Frame(Some(DeviceLevel::Info)), false), LoggerAction::Log(HostLevel::Info));
    assert_eq!(logger_step(DecodeOutcome::Frame(None), true), LoggerAction::Log(HostLevel::Warn));
    assert_eq!(logger_step(DecodeOutcome::NeedMore, false), LoggerAction::Wait);
    assert_eq!(logger_step(DecodeOutcome::Malformed, true), LoggerAction::ReportMalformed);
    assert_eq!(logger_step(DecodeOutcome::Malformed, false), LoggerAction::Stop);
}

#[test]
fn locations_must_cover_every_index() {
    assert!(locations_complete(&vec![], &vec![]));
    assert!(locations_complete(&vec![1, 3], &vec![1, 2, 3]));
    assert!(!locations_complete(&vec![1, 4], &vec![1, 2, 3]));
    assert!(!locations_complete(&vec![0], &vec![]));
}

#[test]
fn no_defmt_table_in_garbage() {
    assert_eq!(logger_setup(&[]), None);
    assert_eq!(logger_setup(b"not an elf file"), None);
}
