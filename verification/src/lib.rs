//! Decision logic of a hardware-in-the-loop conformity suite for `embedded-hal`
//! drivers: the registry of tests, the host/device message types and their
//! byte framing, the host coordinator, the device-under-test and shield test
//! procedures, and the shield's I2C expectation checker.
pub mod selector;
pub mod coordinator;
pub mod logger;
pub mod protocol;
pub mod tester;
pub mod dut;
pub mod framing;
pub mod fp;
pub mod runner;
