use conformity::protocol::{HostToDUT, HostToDUTCommand, HostToFP, HostToFPCommand};
use conformity::selector::TestSelector;

#[test]
fn host_to_dut_new_keeps_command() {
    let m = HostToDUT::new(HostToDUTCommand::Run(TestSelector::I2C_MultiWrite));
    assert_eq!(m.command, HostToDUTCommand::Run(TestSelector::I2C_MultiWrite));
    let init = HostToDUT::new(HostToDUTCommand::Init);
    assert_eq!(init.command, HostToDUTCommand::Init);
}

#[test]
fn host_to_fp_new_keeps_command() {
    let m = HostToFP::new(HostToFPCommand::Run(TestSelector::Sanity_Pin));
    assert_eq!(m.command, HostToFPCommand::Run(TestSelector::Sanity_Pin));
}

#[test]
fn new_ids_are_drawn_at_random() {
    // Forty draws of a 32-bit id are not all equal unless the generator is broken.
    let first = HostToDUT::new(HostToDUTCommand::Init).id;
    let differs = (0..40).any(|_| HostToDUT::new(HostToDUTCommand::Init).id != first);
    assert!(differs);
}
