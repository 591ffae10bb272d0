use conformity::tester::{
    check_read_status, Command, I2cError, I2cSlaveTestError, I2cSlaveTester, Reaction, ReadStatus, SlaveError,
    BUFFER_SIZE, NUM_RESPONSE,
};

#[test]
fn limits() {
    assert_eq!(NUM_RESPONSE, 8);
    assert_eq!(BUFFER_SIZE, 32);
}

#[test]
fn writes_checked_in_given_order() {
    let mut t = I2cSlaveTester::new().expect_write(&[1, 2]).expect_write(&[3]);
    assert!(!t.is_done());
    assert_eq!(t.on_write(&[1, 2]), Ok(()));
    assert_eq!(t.on_write(&[3]), Ok(()));
    assert!(t.is_done());
}

#[test]
fn writes_out_of_order_fail() {
    let mut t = I2cSlaveTester::new().expect_write(&[1, 2]).expect_write(&[3]);
    assert_eq!(t.on_write(&[3]), Err(I2cSlaveTestError::ExpectationFailure("Data Received did not match expectations")));
}

#[test]
fn unexpected_commands_fail() {
    let mut t = I2cSlaveTester::new();
    assert!(t.is_done());
    assert_eq!(t.on_write(&[1]), Err(I2cSlaveTestError::ExpectationFailure("Unexpected write command")));
    assert_eq!(t.next_read(), Err(I2cSlaveTestError::ExpectationFailure("Unexpected read command")));
}

#[test]
fn reads_answered_in_order() {
    let mut t = I2cSlaveTester::new().expect_read(&[42]).expect_read(&[7, 8]);
    assert_eq!(t.on_command(Command::Read, &[]), Reaction::Respond(&[42]));
    assert_eq!(t.next_read(), Ok(&[7u8, 8][..]));
    assert!(t.is_done());
}

#[test]
fn commands() {
    let mut t = I2cSlaveTester::new().expect_write_read(&[5, 6], &[9]);
    let buffer = [5u8, 6, 0, 0];
    assert_eq!(t.on_command(Command::WriteRead(2), &buffer), Reaction::Respond(&[9]));
    assert!(t.is_done());

    let mut t = I2cSlaveTester::new().expect_write(&[6]);
    assert_eq!(t.on_command(Command::Write(1), &buffer), Reaction::Fail(I2cSlaveTestError::ExpectationFailure("Data Received did not match expectations")));

    let mut t = I2cSlaveTester::new().expect_write(&[5, 6]);
    assert_eq!(t.on_command(Command::Write(2), &buffer), Reaction::Listen);
    assert_eq!(t.on_command(Command::GeneralCall(0), &buffer), Reaction::Unsupported);
    assert_eq!(t.on_command(Command::Read, &buffer), Reaction::Fail(I2cSlaveTestError::ExpectationFailure("Unexpected read command")));
}

#[test]
fn write_read_takes_the_oldest_pair() {
    let mut t = I2cSlaveTester::new().expect_write_read(&[1], &[2]).expect_write_read(&[3, 4], &[5, 6]);
    assert!(!t.is_done());
    assert_eq!(t.on_command(Command::WriteRead(1), &[1]), Reaction::Respond(&[2]));
    assert!(!t.is_done());
    assert_eq!(t.on_command(Command::WriteRead(2), &[3, 4]), Reaction::Respond(&[5, 6]));
    assert!(t.is_done());
}

#[test]
fn write_read_failures() {
    let mut t = I2cSlaveTester::new().expect_write(&[1]).expect_read(&[2]);
    assert_eq!(
        t.on_command(Command::WriteRead(1), &[1]),
        Reaction::Fail(I2cSlaveTestError::ExpectationFailure("Unexpected write-read command"))
    );
    // Plain write and read expectations are left alone.
    assert_eq!(t.on_write(&[1]), Ok(()));
    assert_eq!(t.next_read(), Ok(&[2u8][..]));

    let mut t = I2cSlaveTester::new().expect_write_read(&[1], &[2]);
    assert_eq!(
        t.on_write_read(&[7]),
        Reaction::Fail(I2cSlaveTestError::ExpectationFailure("Data Received did not match expectations"))
    );
    assert!(t.is_done());
}

#[test]
fn read_statuses() {
    assert_eq!(check_read_status(ReadStatus::Done), Ok(()));
    assert_eq!(check_read_status(ReadStatus::NeedMoreBytes), Err(I2cSlaveTestError::ExpectationFailure("NeedMoreBytes: provided buffer exceeded")));
    assert_eq!(check_read_status(ReadStatus::LeftoverBytes(3)), Err(I2cSlaveTestError::ExpectationFailure("LeftoverBytes: provided buffer too large")));
}

#[test]
fn prepared_testers() {
    let mut t = I2cSlaveTester::for_simple_write();
    assert_eq!(t.on_write(&[13]), Ok(()));
    assert!(t.is_done());
    let mut t = I2cSlaveTester::for_multi_write();
    assert_eq!(t.on_write(&[56, 12, 42, 18]), Ok(()));
    let mut t = I2cSlaveTester::for_simple_read();
    assert_eq!(t.next_read(), Ok(&[13u8][..]));
}

#[test]
fn errors_convert() {
    assert_eq!(
        I2cError::from(I2cSlaveTestError::ExpectationFailure("x")),
        I2cError::TestFailure("x")
    );
    let internal = I2cSlaveTestError::InternalError(SlaveError::PartialWrite(3));
    assert_eq!(I2cError::from(internal), I2cError::InternalError(internal));
}

#[test]
fn full_queue_accepts_eight() {
    let mut t = I2cSlaveTester::new();
    for _ in 0..8 {
        t = t.expect_write(&[1]);
    }
    for _ in 0..8 {
        assert_eq!(t.on_write(&[1]), Ok(()));
    }
    assert!(t.is_done());
}
