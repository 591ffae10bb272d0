use crate::selector::TestSelector;
use vstd::prelude::*;

verus! {

/// A command from the host to the device under test, tagged with an id
/// that the device echoes back in its acknowledgement.
#[derive(Debug, Clone, Copy, PartialEq, Eq, Structural)]
pub struct HostToDUT {
    pub id: u32,
    pub command: HostToDUTCommand,
}

/// What the host asks the device under test to do.
#[derive(Debug, Clone, Copy, PartialEq, Eq, Structural)]
pub enum HostToDUTCommand {
    /// Only acknowledge.
    Init,
    /// Run a specific test.
    Run(TestSelector),
}

/// A report from the device under test to the host.
#[derive(Debug, Clone, PartialEq, Eq)]
pub enum DUTToHost {
    /// The command with this id was received.
    Ack(u32),
    /// The test failed, with a reason.
    TestFailure(TestSelector, String),
    /// The test passed with a reservation, given as text.
    PartialSuccess(TestSelector, String),
    /// The test ran to its end.
    Success(TestSelector),
}

/// The mathematical value of a report from the device under test, its
/// texts as sequences of characters.
pub enum DUTToHostModel {
    Ack(u32),
    TestFailure(TestSelector, Seq<char>),
    PartialSuccess(TestSelector, Seq<char>),
    Success(TestSelector),
}

impl View for DUTToHost {
    type V = DUTToHostModel;

    open spec fn view(&self) -> DUTToHostModel {
        match self {
            DUTToHost::Ack(id) => DUTToHostModel::Ack(*id),
            DUTToHost::TestFailure(t, why) => DUTToHostModel::TestFailure(*t, why@),
            DUTToHost::PartialSuccess(t, why) => DUTToHostModel::PartialSuccess(*t, why@),
            DUTToHost::Success(t) => DUTToHostModel::Success(*t),
        }
    }
}

/// A command from the host to the shield, tagged with an id that the shield
/// echoes back in its acknowledgement.
#[derive(Debug, Clone, Copy, PartialEq, Eq, Structural)]
pub struct HostToFP {
    pub id: u32,
    pub command: HostToFPCommand,
}

/// What the host asks the shield to do.
#[derive(Debug, Clone, Copy, PartialEq, Eq, Structural)]
pub enum HostToFPCommand {
    /// Only acknowledge.
    Init,
    /// Run the shield side of a specific test.
    Run(TestSelector),
}

/// A report from the shield to the host.
#[derive(Debug, Clone, Copy, PartialEq, Eq, Structural)]
pub enum FPToHost {
    /// The command with this id was received.
    Ack(u32),
    /// The shield side of the test failed.
    TestFailure(TestSelector),
    /// The shield side of the test passed.
    Success(TestSelector),
}

/// Draws a fresh message id from the thread-local generator of `rand`
/// (`rand::rng()` and `RngCore::next_u32`). Nothing is claimed of the value.
#[verifier::external_body]
fn random_id() -> (id: u32) {
    rand::RngCore::next_u32(&mut rand::rng())
}

impl HostToDUT {
    /// A command with a freshly drawn random id.
    pub fn new(command: HostToDUTCommand) -> (res: HostToDUT)
        ensures
            res.command == command,
    {
        HostToDUT { id: random_id(), command }
    }
}

impl HostToFP {
    /// A command with a freshly drawn random id.
    pub fn new(command: HostToFPCommand) -> (res: HostToFP)
        ensures
            res.command == command,
    {
        HostToFP { id: random_id(), command }
    }
}

} // verus!
