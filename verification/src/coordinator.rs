use std::collections::HashMap;
use crate::logger::Target;
use crate::dut::{spec_dut_reports, spec_reaches_teardown, HalOutcome};
use crate::fp::spec_fp_reports;
use crate::protocol::{DUTToHost, DUTToHostModel, FPToHost};
use crate::selector::{all_tests, TestSelector};
use vstd::prelude::*;
use vstd::std_specs::hash::*;
use vstd::std_specs::iter::IteratorSpec;

verus! {

broadcast use {
    vstd::std_specs::hash::group_hash_axioms,
    vstd::std_specs::hash::axiom_u32_obeys_hash_table_key_model,
    vstd::std_specs::hash::axiom_random_state_builds_valid_hashers,
};

/// How long, in milliseconds, a message may stay unacknowledged and a test
/// may run before the host gives up.
pub const TIMEOUT_MS: u64 = 10_000;

/// Whether a message sent at `sent` (milliseconds) is overdue at `now`.
/// Elapsed time saturates at zero for clocks read out of order.
pub open spec fn overdue(sent: u64, now: u64) -> bool {
    now > sent && now - sent > TIMEOUT_MS
}

/// Whether some pending acknowledgement is overdue at `now`.
pub open spec fn any_overdue(pending: Map<u32, u64>, now: u64) -> bool {
    exists|id: u32| #[trigger] pending.contains_key(id) && overdue(pending[id], now)
}

/// Whether an acknowledgement of a message in `pending` (id to time sent)
/// is overdue at `now`.
pub fn check_timeouts(pending: &HashMap<u32, u64>, now: u64) -> (res: bool)
    ensures
        res == any_overdue(pending@, now),
{
    let mut found = false;
    for entry in it: pending.iter()
        invariant
            it.seq() == spec_hash_map_iter(pending).remaining(),
            found == exists|i: int| 0 <= i < it.index() && #[trigger] overdue(*it.seq()[i].1, now),
    {
        let ghost k = it.index();
        assert(entry == it.seq()[k]);
        let (_, sent) = entry;
        if now > *sent && now - *sent > TIMEOUT_MS {
            found = true;
            assert(overdue(*it.seq()[k].1, now));
        } else {
            assert(!overdue(*it.seq()[k].1, now));
        }
        assert(found == exists|i: int| 0 <= i < k + 1 && #[trigger] overdue(*it.seq()[i].1, now));
    }
    proof {
        let s = spec_hash_map_iter(pending).remaining();
        if found {
            let i = choose|i: int| 0 <= i < s.len() && #[trigger] overdue(*s[i].1, now);
            assert(pending@.contains_key(*s[i].0));
        } else {
            assert forall|id: u32| #[trigger] pending@.contains_key(id) implies !overdue(pending@[id], now) by {
                assert(s.contains((&id, &pending@[id])));
                let i = choose|i: int| 0 <= i < s.len() && s[i] == (&id, &pending@[id]);
                assert(!overdue(*s[i].1, now));
            }
        }
    }
    found
}

/// The messages sent to each device that it has not acknowledged yet:
/// message id to the time it was sent, in milliseconds.
pub struct PendingAcks {
    pub fp: HashMap<u32, u64>,
    pub dut: HashMap<u32, u64>,
}

impl PendingAcks {
    /// Nothing pending.
    pub fn new() -> (res: PendingAcks)
        ensures
            res.fp@ == Map::<u32, u64>::empty(),
            res.dut@ == Map::<u32, u64>::empty(),
    {
        PendingAcks { fp: HashMap::new(), dut: HashMap::new() }
    }
}

/// Why the host gives up on a run.
#[derive(Debug, Clone, Copy, PartialEq, Eq, Structural)]
pub enum Deadline {
    /// A device did not acknowledge a command in time.
    AckTimeout(Target),
    /// The test did not finish in time.
    TestTimeout,
}

/// What the host makes of one message from a device.
#[derive(Debug, Clone, PartialEq, Eq)]
pub enum Handled {
    /// A pending command was acknowledged.
    Acknowledged(Target, u32),
    /// The shield reported a failure of this test.
    ShieldFailed(TestSelector),
    /// The device under test reported a failure, with its reason.
    DeviceFailed(TestSelector, String),
    /// The device under test reported a partial success, with its reservation.
    DevicePartial(TestSelector, String),
    /// A device reported the success of the running test.
    Passed(Target),
    /// An acknowledgement for an id that was not pending: a protocol violation.
    UnknownAck(Target, u32),
    /// A success report for another test than the running one: a protocol violation.
    WrongTest(Target, TestSelector),
}

/// Whether the outcome breaks the protocol, upon which the host stops.
pub open spec fn is_violation(h: Handled) -> bool {
    h is UnknownAck || h is WrongTest
}

/// The progress of the test that the host is running.
#[derive(Debug, Clone, Copy, PartialEq, Eq, Structural)]
pub struct TestRun {
    pub test: TestSelector,
    /// When the run commands were sent, in milliseconds.
    pub started_at: u64,
    pub fp_success: bool,
    pub dut_success: bool,
}

/// The deadline the host reports at `now`, checked in this order: shield
/// acknowledgements, device acknowledgements, the test itself.
pub open spec fn spec_deadline(fp: Map<u32, u64>, dut: Map<u32, u64>, started_at: u64, now: u64) -> Option<Deadline> {
    if any_overdue(fp, now) {
        Some(Deadline::AckTimeout(Target::FakePeripheral))
    } else if any_overdue(dut, now) {
        Some(Deadline::AckTimeout(Target::DeviceUnderTest))
    } else if overdue(started_at, now) {
        Some(Deadline::TestTimeout)
    } else {
        None
    }
}

/// Whether the host counts the shield side of `test` as done after `msg`.
pub open spec fn spec_fp_done_after(done: bool, test: TestSelector, msg: FPToHost) -> bool {
    match msg {
        FPToHost::Success(a) => done || a == test,
        _ => done,
    }
}

/// Whether the host counts the device side of `test` as done after `msg`.
pub open spec fn spec_dut_done_after(done: bool, test: TestSelector, msg: DUTToHostModel) -> bool {
    match msg {
        DUTToHostModel::Ack(_) => done,
        DUTToHostModel::Success(a) => done || a == test,
        _ => true,
    }
}

/// The shield side after a sequence of messages.
pub open spec fn spec_fp_done_after_all(done: bool, test: TestSelector, msgs: Seq<FPToHost>) -> bool
    decreases msgs.len(),
{
    if msgs.len() == 0 {
        done
    } else {
        spec_fp_done_after_all(spec_fp_done_after(done, test, msgs[0]), test, msgs.drop_first())
    }
}

/// The device side after a sequence of messages.
pub open spec fn spec_dut_done_after_all(done: bool, test: TestSelector, msgs: Seq<DUTToHostModel>) -> bool
    decreases msgs.len(),
{
    if msgs.len() == 0 {
        done
    } else {
        spec_dut_done_after_all(spec_dut_done_after(done, test, msgs[0]), test, msgs.drop_first())
    }
}

/// The tests a run covers: the selected one, or all of them in order.
pub open spec fn spec_tests_to_run(selector: Option<TestSelector>) -> Seq<TestSelector> {
    match selector {
        Some(t) => seq![t],
        None => all_tests(),
    }
}

/// The tests a run covers: the selected one, or all of them in order.
pub fn tests_to_run(selector: Option<TestSelector>) -> (res: Vec<TestSelector>)
    ensures
        res@ == spec_tests_to_run(selector),
{
    match selector {
        Some(t) => vec![t],
        None => TestSelector::all(),
    }
}

/// Whether the reply to the initial command with id `id` is its acknowledgement.
pub fn fp_init_acknowledged(id: u32, reply: FPToHost) -> (res: bool)
    ensures
        res == (reply == FPToHost::Ack(id)),
{
    match reply {
        FPToHost::Ack(got) => got == id,
        _ => false,
    }
}

/// Whether the reply to the initial command with id `id` is its acknowledgement.
pub fn dut_init_acknowledged(id: u32, reply: &DUTToHost) -> (res: bool)
    ensures
        res == (*reply == DUTToHost::Ack(id)),
{
    match reply {
        DUTToHost::Ack(got) => *got == id,
        _ => false,
    }
}

/// Removes `id` from the pending acknowledgements of one side.
fn take_ack(pending: &mut HashMap<u32, u64>, id: u32) -> (res: bool)
    ensures
        final(pending)@ == old(pending)@.remove(id),
        res == old(pending)@.contains_key(id),
{
    pending.remove(&id).is_some()
}

impl TestRun {
    /// Starts `test`: the run commands with ids `fp_id` and `dut_id` were
    /// sent at `now` and now wait for their acknowledgement.
    pub fn start(pending: &mut PendingAcks, test: TestSelector, fp_id: u32, dut_id: u32, now: u64) -> (res: TestRun)
        ensures
            final(pending).fp@ == old(pending).fp@.insert(fp_id, now),
            final(pending).dut@ == old(pending).dut@.insert(dut_id, now),
            res == (TestRun { test, started_at: now, fp_success: false, dut_success: false }),
    {
        pending.fp.insert(fp_id, now);
        pending.dut.insert(dut_id, now);
        TestRun { test, started_at: now, fp_success: false, dut_success: false }
    }

    /// Whether both devices have reported the end of the test.
    pub fn is_complete(&self) -> (res: bool)
        ensures
            res == (self.fp_success && self.dut_success),
    {
        self.fp_success && self.dut_success
    }

    /// The reason to give up at `now`, if any.
    pub fn check_deadlines(&self, pending: &PendingAcks, now: u64) -> (res: Option<Deadline>)
        ensures
            res == spec_deadline(pending.fp@, pending.dut@, self.started_at, now),
    {
        if check_timeouts(&pending.fp, now) {
            Some(Deadline::AckTimeout(Target::FakePeripheral))
        } else if check_timeouts(&pending.dut, now) {
            Some(Deadline::AckTimeout(Target::DeviceUnderTest))
        } else if now > self.started_at && now - self.started_at > TIMEOUT_MS {
            Some(Deadline::TestTimeout)
        } else {
            None
        }
    }

    /// Handles a message from the shield.
    pub fn on_fp_message(&mut self, pending: &mut PendingAcks, msg: FPToHost) -> (res: Handled)
        ensures
            final(pending).dut@ == old(pending).dut@,
            final(self).test == old(self).test,
            final(self).started_at == old(self).started_at,
            final(self).dut_success == old(self).dut_success,
            final(self).fp_success == spec_fp_done_after(old(self).fp_success, old(self).test, msg),
            match msg {
                FPToHost::Ack(id) => {
                    &&& final(pending).fp@ == old(pending).fp@.remove(id)
                    &&& final(self).fp_success == old(self).fp_success
                    &&& res == if old(pending).fp@.contains_key(id) {
                        Handled::Acknowledged(Target::FakePeripheral, id)
                    } else {
                        Handled::UnknownAck(Target::FakePeripheral, id)
                    }
                },
                FPToHost::TestFailure(a) => {
                    &&& final(pending).fp@ == old(pending).fp@
                    &&& final(self).fp_success == old(self).fp_success
                    &&& res == Handled::ShieldFailed(a)
                },
                FPToHost::Success(a) => {
                    &&& final(pending).fp@ == old(pending).fp@
                    &&& final(self).fp_success == (old(self).fp_success || a == old(self).test)
                    &&& res == if a == old(self).test {
                        Handled::Passed(Target::FakePeripheral)
                    } else {
                        Handled::WrongTest(Target::FakePeripheral, a)
                    }
                },
            },
    {
        match msg {
            FPToHost::Ack(id) => {
                if take_ack(&mut pending.fp, id) {
                    Handled::Acknowledged(Target::FakePeripheral, id)
                } else {
                    Handled::UnknownAck(Target::FakePeripheral, id)
                }
            },
            FPToHost::TestFailure(a) => Handled::ShieldFailed(a),
            FPToHost::Success(a) => {
                if a == self.test {
                    self.fp_success = true;
                    Handled::Passed(Target::FakePeripheral)
                } else {
                    Handled::WrongTest(Target::FakePeripheral, a)
                }
            },
        }
    }

    /// Handles a message from the device under test. Failure and partial
    /// success reports also end the device's part of the test.
    pub fn on_dut_message(&mut self, pending: &mut PendingAcks, msg: DUTToHost) -> (res: Handled)
        ensures
            final(pending).fp@ == old(pending).fp@,
            final(self).test == old(self).test,
            final(self).started_at == old(self).started_at,
            final(self).fp_success == old(self).fp_success,
            final(self).dut_success == spec_dut_done_after(old(self).dut_success, old(self).test, msg@),
            match msg {
                DUTToHost::Ack(id) => {
                    &&& final(pending).dut@ == old(pending).dut@.remove(id)
                    &&& final(self).dut_success == old(self).dut_success
                    &&& res == if old(pending).dut@.contains_key(id) {
                        Handled::Acknowledged(Target::DeviceUnderTest, id)
                    } else {
                        Handled::UnknownAck(Target::DeviceUnderTest, id)
                    }
                },
                DUTToHost::TestFailure(a, why) => {
                    &&& final(pending).dut@ == old(pending).dut@
                    &&& final(self).dut_success
                    &&& res == Handled::DeviceFailed(a, why)
                },
                DUTToHost::PartialSuccess(a, why) => {
                    &&& final(pending).dut@ == old(pending).dut@
                    &&& final(self).dut_success
                    &&& res == Handled::DevicePartial(a, why)
                },
                DUTToHost::Success(a) => {
                    &&& final(pending).dut@ == old(pending).dut@
                    &&& final(self).dut_success == (old(self).dut_success || a == old(self).test)
                    &&& res == if a == old(self).test {
                        Handled::Passed(Target::DeviceUnderTest)
                    } else {
                        Handled::WrongTest(Target::DeviceUnderTest, a)
                    }
                },
            },
    {
        match msg {
            DUTToHost::Ack(id) => {
                if take_ack(&mut pending.dut, id) {
                    Handled::Acknowledged(Target::DeviceUnderTest, id)
                } else {
                    Handled::UnknownAck(Target::DeviceUnderTest, id)
                }
            },
            DUTToHost::TestFailure(a, why) => {
                self.dut_success = true;
                Handled::DeviceFailed(a, why)
            },
            DUTToHost::PartialSuccess(a, why) => {
                self.dut_success = true;
                Handled::DevicePartial(a, why)
            },
            DUTToHost::Success(a) => {
                if a == self.test {
                    self.dut_success = true;
                    Handled::Passed(Target::DeviceUnderTest)
                } else {
                    Handled::WrongTest(Target::DeviceUnderTest, a)
                }
            },
        }
    }
}

/// What the host does next in a run of tests.
#[derive(Debug, Clone, Copy, PartialEq, Eq, Structural)]
pub enum HostAction {
    /// Send the run commands of this test.
    StartTest(TestSelector),
    /// Keep reading the devices' messages.
    Poll,
    /// Every test completed: end with success.
    Finish,
    /// End with failure, for this reason.
    GiveUp(Deadline),
}

/// The host's next action, when `started` tests of `plan` have been started,
/// `current` is the run of the last one started (if any) and `deadline` the
/// reason to give up found for it: a completed run (or none yet) makes way
/// for the next test, or for the end when none is left; an incomplete run
/// is given up on its deadline and polled otherwise.
pub open spec fn spec_host_step(
    plan: Seq<TestSelector>,
    started: int,
    current: Option<TestRun>,
    deadline: Option<Deadline>,
) -> HostAction {
    if current matches Some(r) && !(r.fp_success && r.dut_success) {
        match deadline {
            Some(d) => HostAction::GiveUp(d),
            None => HostAction::Poll,
        }
    } else if started < plan.len() {
        HostAction::StartTest(plan[started])
    } else {
        HostAction::Finish
    }
}

/// The host's next action in a run of tests.
pub fn host_step(
    plan: &Vec<TestSelector>,
    started: usize,
    current: Option<TestRun>,
    deadline: Option<Deadline>,
) -> (res: HostAction)
    ensures
        res == spec_host_step(plan@, started as int, current, deadline),
{
    let running = match current {
        Some(r) => !r.is_complete(),
        None => false,
    };
    if running {
        match deadline {
            Some(d) => HostAction::GiveUp(d),
            None => HostAction::Poll,
        }
    } else if started < plan.len() {
        HostAction::StartTest(plan[started])
    } else {
        HostAction::Finish
    }
}

/// The host runs the tests one after the other, in the order of the plan:
/// the run commands of a test go out only when no run is under way or both
/// devices completed the one under way, and always for the first test not
/// yet started; the host ends with success only when every test of the
/// plan was started and the last run completed, and gives up only on the
/// deadline of a run that has not completed.
pub proof fn law_host_sequencing(
    plan: Seq<TestSelector>,
    started: int,
    current: Option<TestRun>,
    deadline: Option<Deadline>,
)
    requires
        0 <= started,
    ensures
        spec_host_step(plan, started, current, deadline) matches HostAction::StartTest(t) ==> {
            &&& started < plan.len()
            &&& t == plan[started]
            &&& current matches Some(r) ==> r.fp_success && r.dut_success
        },
        spec_host_step(plan, started, current, deadline) is Finish ==> {
            &&& started >= plan.len()
            &&& current matches Some(r) ==> r.fp_success && r.dut_success
        },
        spec_host_step(plan, started, current, deadline) matches HostAction::GiveUp(d) ==> {
            &&& deadline == Some(d)
            &&& current matches Some(r) && !(r.fp_success && r.dut_success)
        },
        spec_host_step(plan, started, current, deadline) is Poll ==> {
            &&& deadline is None
            &&& current matches Some(r) && !(r.fp_success && r.dut_success)
        },
{
}

/// A test that neither completes nor is abandoned before its deadline is
/// abandoned after it: once the timeout has passed since the start, the
/// host always has a reason to give up.
pub proof fn law_unfinished_test_times_out(fp: Map<u32, u64>, dut: Map<u32, u64>, started_at: u64, now: u64)
    requires
        now > started_at,
        now - started_at > TIMEOUT_MS,
    ensures
        spec_deadline(fp, dut, started_at, now) is Some,
{
}

/// Acknowledging a command undoes its registration: the pending commands
/// are those before the command was sent, when its id was not pending.
pub proof fn law_ack_undoes_send(pending: Map<u32, u64>, id: u32, sent: u64)
    requires
        !pending.contains_key(id),
    ensures
        pending.insert(id, sent).remove(id) == pending,
{
    assert(pending.insert(id, sent).remove(id) =~= pending);
}

/// The host counts the device side of a test as done exactly when the
/// device reported anything about it, that is unless the device stopped
/// during the setup or the run.
pub proof fn law_device_reports_complete_device_side(t: TestSelector, setup: HalOutcome, run: HalOutcome)
    ensures
        spec_dut_done_after_all(false, t, spec_dut_reports(t, setup, run))
            == (spec_dut_reports(t, setup, run).len() > 0),
{
    let r = spec_dut_reports(t, setup, run);
    if r.len() > 0 {
        assert(spec_dut_done_after(false, t, r[0]));
        lemma_dut_done_stays(t, r.drop_first());
    }
}

/// Once the device side is done, later messages leave it done.
proof fn lemma_dut_done_stays(t: TestSelector, msgs: Seq<DUTToHostModel>)
    ensures
        spec_dut_done_after_all(true, t, msgs),
    decreases msgs.len(),
{
    if msgs.len() > 0 {
        lemma_dut_done_stays(t, msgs.drop_first());
    }
}

/// The host counts the shield side of a test as done exactly when the
/// shield's setup and run both passed; a shield failure leaves the test to
/// its deadline.
pub proof fn law_shield_reports_complete_shield_side(t: TestSelector, setup_passed: bool, run_passed: bool)
    ensures
        spec_fp_done_after_all(false, t, spec_fp_reports(t, setup_passed, run_passed)) == (setup_passed && run_passed),
{
    let r = spec_fp_reports(t, setup_passed, run_passed);
    assert(r.drop_first().len() == 0);
    reveal_with_fuel(spec_fp_done_after_all, 2);
}

/// A test completes on the host exactly when the shield passes its setup
/// and run and the device reaches the teardown of the test.
pub proof fn law_test_completes(t: TestSelector, setup_passed: bool, run_passed: bool, setup: HalOutcome, run: HalOutcome)
    ensures
        (spec_fp_done_after_all(false, t, spec_fp_reports(t, setup_passed, run_passed))
            && spec_dut_done_after_all(false, t, spec_dut_reports(t, setup, run)))
            == (setup_passed && run_passed && (spec_dut_reports(t, setup, run).len() > 0)),
{
    law_device_reports_complete_device_side(t, setup, run);
    law_shield_reports_complete_shield_side(t, setup_passed, run_passed);
}


/// A run with a selected test covers exactly that test; without one it
/// covers every test once, in the registry's order.
pub proof fn law_tests_to_run(t: TestSelector)
    ensures
        spec_tests_to_run(Some(t)) == seq![t],
        spec_tests_to_run(None) == seq![
            TestSelector::Sanity_Pin,
            TestSelector::I2C_SimpleRead,
            TestSelector::I2C_SimpleWrite,
            TestSelector::I2C_MultiWrite,
            TestSelector::I2C_AddressNAK,
            TestSelector::I2C_DataNAK,
        ],
{
}

/// An acknowledgement is overdue exactly when more than ten seconds passed
/// since its command was sent; a time read before the sending is never late.
pub proof fn law_overdue(pending: Map<u32, u64>, id: u32, now: u64)
    ensures
        overdue(pending[id], now) <==> now > pending[id] + 10_000,
        any_overdue(pending, now) <==> exists|k: u32| pending.contains_key(k) && now > #[trigger] pending[k] + 10_000,
{
}

/// The host gives up for the first reason in this order: a shield
/// acknowledgement more than ten seconds late, then one of the device under
/// test, then a test running for more than ten seconds; and only then.
pub proof fn law_deadline_order(fp: Map<u32, u64>, dut: Map<u32, u64>, started_at: u64, now: u64)
    ensures
        spec_deadline(fp, dut, started_at, now) == Some(Deadline::AckTimeout(Target::FakePeripheral))
            <==> exists|k: u32| fp.contains_key(k) && now > #[trigger] fp[k] + 10_000,
        spec_deadline(fp, dut, started_at, now) == Some(Deadline::AckTimeout(Target::DeviceUnderTest))
            <==> (!exists|k: u32| fp.contains_key(k) && now > #[trigger] fp[k] + 10_000)
                && exists|k: u32| dut.contains_key(k) && now > #[trigger] dut[k] + 10_000,
        spec_deadline(fp, dut, started_at, now) is None ==> now <= started_at + 10_000,
        spec_deadline(fp, dut, started_at, now) == Some(Deadline::TestTimeout) ==> now > started_at + 10_000,
{
    law_overdue(fp, 0, now);
    law_overdue(dut, 0, now);
}

} // verus!
