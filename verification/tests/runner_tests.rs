use conformity::runner::{find_probe, rtt_channel_choice, rtt_control_block, RttChannels};

#[test]
fn probe_found_by_serial() {
    let serials = vec![None, Some("AAA".to_string()), Some("E6614103E78B5024".to_string()), Some("AAA".to_string())];
    assert_eq!(find_probe(&serials, &"E6614103E78B5024".to_string()), Some(2));
    assert_eq!(find_probe(&serials, &"AAA".to_string()), Some(1));
    assert_eq!(find_probe(&serials, &"001050295885".to_string()), None);
    assert_eq!(find_probe(&Vec::new(), &"AAA".to_string()), None);
}

#[test]
fn rtt_channels_chosen_from_the_end() {
    assert_eq!(rtt_channel_choice(2, 1), Some(RttChannels { up_control: 1, down_control: 0, defmt: 0 }));
    assert_eq!(rtt_channel_choice(3, 2), Some(RttChannels { up_control: 2, down_control: 1, defmt: 1 }));
    assert_eq!(rtt_channel_choice(1, 1), None);
    assert_eq!(rtt_channel_choice(2, 0), None);
}

#[test]
fn control_block_of_unreadable_image() {
    assert_eq!(rtt_control_block(&[]), None);
    assert_eq!(rtt_control_block(b"\x7fELF but not really"), None);
}
