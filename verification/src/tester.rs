use vstd::prelude::*;

verus! {

/// How many expectations of each kind the tester can queue.
pub const NUM_RESPONSE: usize = 8;
/// The largest transfer, in bytes, that an expectation may describe.
pub const BUFFER_SIZE: usize = 32;

#[verifier::external_type_specification]
#[verifier::external_body]
#[verifier::reject_recursive_types(T)]
pub struct ExDeque<T, const N: usize>(heapless::Deque<T, N>);

/// The contents, front to back, of a queue of byte patterns.
pub uninterp spec fn pattern_queue(q: heapless::Deque<&[u8], 8>) -> Seq<Seq<u8>>;

/// Creates an empty queue of byte patterns (`heapless::Deque::new`).
#[verifier::external_body]
fn pattern_queue_new<'b>() -> (q: heapless::Deque<&'b [u8], NUM_RESPONSE>)
    ensures
        pattern_queue(q) == Seq::<Seq<u8>>::empty(),
{
    heapless::Deque::new()
}

/// `heapless::Deque::push_front`: when the queue holds fewer than its
/// capacity of 8 items, the item goes to the front; otherwise the queue is
/// left as it was and the item handed back.
#[verifier::external_body]
fn pattern_queue_push_front<'b>(q: &mut heapless::Deque<&'b [u8], NUM_RESPONSE>, item: &'b [u8]) -> (res: bool)
    ensures
        res == (pattern_queue(*old(q)).len() < 8),
        res ==> pattern_queue(*final(q)) == seq![item@] + pattern_queue(*old(q)),
        !res ==> pattern_queue(*final(q)) == pattern_queue(*old(q)),
{
    q.push_front(item).is_ok()
}

/// `heapless::Deque::pop_back`: removes and returns the item at the back,
/// `None` when the queue is empty.
#[verifier::external_body]
fn pattern_queue_pop_back<'b>(q: &mut heapless::Deque<&'b [u8], NUM_RESPONSE>) -> (res: Option<&'b [u8]>)
    ensures
        pattern_queue(*old(q)).len() == 0 ==> res is None && pattern_queue(*final(q)) == pattern_queue(*old(q)),
        pattern_queue(*old(q)).len() > 0 ==> res is Some
            && res->0@ == pattern_queue(*old(q)).last()
            && pattern_queue(*final(q)) == pattern_queue(*old(q)).drop_last(),
{
    q.pop_back()
}

/// `heapless::Deque::len`.
#[verifier::external_body]
fn pattern_queue_len<'b>(q: &heapless::Deque<&'b [u8], NUM_RESPONSE>) -> (res: usize)
    ensures
        res == pattern_queue(*q).len(),
{
    q.len()
}

/// The contents, front to back, of a queue of (write, read) pattern pairs.
pub uninterp spec fn pair_queue(q: heapless::Deque<(&[u8], &[u8]), 8>) -> Seq<(Seq<u8>, Seq<u8>)>;

/// Creates an empty queue of pattern pairs (`heapless::Deque::new`).
#[verifier::external_body]
fn pair_queue_new<'b>() -> (q: heapless::Deque<(&'b [u8], &'b [u8]), NUM_RESPONSE>)
    ensures
        pair_queue(q) == Seq::<(Seq<u8>, Seq<u8>)>::empty(),
{
    heapless::Deque::new()
}

/// `heapless::Deque::push_front` on a queue of pairs, as for patterns.
#[verifier::external_body]
fn pair_queue_push_front<'b>(
    q: &mut heapless::Deque<(&'b [u8], &'b [u8]), NUM_RESPONSE>,
    item: (&'b [u8], &'b [u8]),
) -> (res: bool)
    ensures
        res == (pair_queue(*old(q)).len() < 8),
        res ==> pair_queue(*final(q)) == seq![(item.0@, item.1@)] + pair_queue(*old(q)),
        !res ==> pair_queue(*final(q)) == pair_queue(*old(q)),
{
    q.push_front(item).is_ok()
}

/// `heapless::Deque::pop_back` on a queue of pairs: removes and returns the
/// pair at the back, `None` when the queue is empty.
#[verifier::external_body]
fn pair_queue_pop_back<'b>(q: &mut heapless::Deque<(&'b [u8], &'b [u8]), NUM_RESPONSE>) -> (res: Option<(&'b [u8], &'b [u8])>)
    ensures
        pair_queue(*old(q)).len() == 0 ==> res is None && pair_queue(*final(q)) == pair_queue(*old(q)),
        pair_queue(*old(q)).len() > 0 ==> (res matches Some(p)
            && (p.0@, p.1@) == pair_queue(*old(q)).last()
            && pair_queue(*final(q)) == pair_queue(*old(q)).drop_last()),
{
    q.pop_back()
}

/// `heapless::Deque::len` on a queue of pairs.
#[verifier::external_body]
fn pair_queue_len<'b>(q: &heapless::Deque<(&'b [u8], &'b [u8]), NUM_RESPONSE>) -> (res: usize)
    ensures
        res == pair_queue(*q).len(),
{
    q.len()
}

/// An error of the shield's I2C target peripheral, as the peripheral reports it.
#[derive(Debug, Clone, Copy, PartialEq, Eq, Structural)]
pub enum SlaveError {
    /// The transfer was aborted.
    Abort,
    /// The response buffer was empty.
    InvalidResponseBufferLength,
    /// The controller wrote more than the buffer holds; bytes received.
    PartialWrite(usize),
    /// A general call overflowed the buffer; bytes received.
    PartialGeneralCall(usize),
}

/// What the I2C target peripheral saw the controller do.
#[derive(Debug, Clone, Copy, PartialEq, Eq, Structural)]
pub enum Command {
    /// A general call with this many bytes.
    GeneralCall(usize),
    /// A read.
    Read,
    /// A write of this many bytes followed by a repeated-start read.
    WriteRead(usize),
    /// A write of this many bytes.
    Write(usize),
}

/// How a response to a read went.
#[derive(Debug, Clone, Copy, PartialEq, Eq, Structural)]
pub enum ReadStatus {
    /// The controller read exactly the response.
    Done,
    /// The controller wanted more bytes than the response.
    NeedMoreBytes,
    /// The controller stopped before the end of the response.
    LeftoverBytes(u16),
}

/// Why the shield-side I2C check failed.
#[derive(Debug, Clone, Copy, PartialEq, Eq)]
pub enum I2cSlaveTestError {
    /// The controller did something the test did not expect.
    ExpectationFailure(&'static str),
    /// The peripheral reported an error.
    InternalError(SlaveError),
}

/// Why a shield-side I2C test failed: an error of the underlying check, or
/// a failed expectation with its reason.
#[derive(Debug, Clone, Copy, PartialEq, Eq)]
pub enum I2cError<T> {
    InternalError(T),
    TestFailure(&'static str),
}

/// A failed expectation becomes a test failure with the same reason; a
/// peripheral error stays an internal error.
pub open spec fn spec_i2c_error_from(value: I2cSlaveTestError) -> I2cError<I2cSlaveTestError> {
    match value {
        I2cSlaveTestError::ExpectationFailure(msg) => I2cError::TestFailure(msg),
        I2cSlaveTestError::InternalError(_) => I2cError::InternalError(value),
    }
}

impl From<I2cSlaveTestError> for I2cError<I2cSlaveTestError> {
    fn from(value: I2cSlaveTestError) -> (res: Self) {
        match value {
            I2cSlaveTestError::ExpectationFailure(msg) => I2cError::TestFailure(msg),
            I2cSlaveTestError::InternalError(_) => I2cError::InternalError(value),
        }
    }
}

impl vstd::std_specs::convert::FromSpecImpl<I2cSlaveTestError> for I2cError<I2cSlaveTestError> {
    open spec fn obeys_from_spec() -> bool {
        true
    }

    open spec fn from_spec(value: I2cSlaveTestError) -> Self {
        spec_i2c_error_from(value)
    }
}

/// The next step of the shield after a command from the controller.
#[derive(Debug, Clone, Copy, PartialEq, Eq)]
pub enum Reaction<'b> {
    /// Answer the read with these bytes, then check the status.
    Respond(&'b [u8]),
    /// Listen for the next command.
    Listen,
    /// Stop: the check failed.
    Fail(I2cSlaveTestError),
    /// Stop: general calls are not supported.
    Unsupported,
}

/// The shield-side checker of I2C transactions: queues of expected writes,
/// of responses to reads and of write-read pairs. Expectations are met in
/// the order they were given.
pub struct I2cSlaveTester<'b> {
    read: heapless::Deque<&'b [u8], NUM_RESPONSE>,
    write: heapless::Deque<&'b [u8], NUM_RESPONSE>,
    /// Expectations for the WriteRead call in the form of (Write, Read).
    write_read: heapless::Deque<(&'b [u8], &'b [u8]), NUM_RESPONSE>,
}

impl<'b> I2cSlaveTester<'b> {
    /// Responses still to give, the oldest expectation last.
    pub closed spec fn reads(&self) -> Seq<Seq<u8>> {
        pattern_queue(self.read)
    }

    /// Writes still expected, the oldest expectation last.
    pub closed spec fn writes(&self) -> Seq<Seq<u8>> {
        pattern_queue(self.write)
    }

    /// Write-read pairs still expected, the oldest expectation last.
    pub closed spec fn write_reads(&self) -> Seq<(Seq<u8>, Seq<u8>)> {
        pair_queue(self.write_read)
    }

    /// Whether nothing is expected any more.
    pub open spec fn spec_done(&self) -> bool {
        self.reads().len() == 0 && self.writes().len() == 0 && self.write_reads().len() == 0
    }

    /// A tester expecting nothing.
    pub fn new() -> (res: I2cSlaveTester<'b>)
        ensures
            res.reads() == Seq::<Seq<u8>>::empty(),
            res.writes() == Seq::<Seq<u8>>::empty(),
            res.write_reads() == Seq::<(Seq<u8>, Seq<u8>)>::empty(),
    {
        I2cSlaveTester { read: pattern_queue_new(), write: pattern_queue_new(), write_read: pair_queue_new() }
    }

    /// Expects a read, to be answered with `respond_with`.
    pub fn expect_read<const N: usize>(self, respond_with: &'b [u8; N]) -> (res: I2cSlaveTester<'b>)
        requires
            N <= BUFFER_SIZE,
            self.reads().len() < NUM_RESPONSE,
        ensures
            res.reads() == seq![respond_with@] + self.reads(),
            res.writes() == self.writes(),
            res.write_reads() == self.write_reads(),
    {
        let mut this = self;
        pattern_queue_push_front(&mut this.read, respond_with.as_slice());
        this
    }

    /// Expects a write of exactly `pattern`.
    pub fn expect_write<const N: usize>(self, pattern: &'b [u8; N]) -> (res: I2cSlaveTester<'b>)
        requires
            N <= BUFFER_SIZE,
            self.writes().len() < NUM_RESPONSE,
        ensures
            res.writes() == seq![pattern@] + self.writes(),
            res.reads() == self.reads(),
            res.write_reads() == self.write_reads(),
    {
        let mut this = self;
        pattern_queue_push_front(&mut this.write, pattern.as_slice());
        this
    }

    /// Expects a write of `write` followed by a read answered with `read`.
    pub fn expect_write_read<const W: usize, const R: usize>(
        self,
        write: &'b [u8; W],
        read: &'b [u8; R],
    ) -> (res: I2cSlaveTester<'b>)
        requires
            W <= BUFFER_SIZE && R <= BUFFER_SIZE,
            self.write_reads().len() < NUM_RESPONSE,
        ensures
            res.write_reads() == seq![(write@, read@)] + self.write_reads(),
            res.reads() == self.reads(),
            res.writes() == self.writes(),
    {
        let mut this = self;
        pair_queue_push_front(&mut this.write_read, (write.as_slice(), read.as_slice()));
        this
    }

    /// Whether nothing is expected any more; the shield listens until then.
    pub fn is_done(&self) -> (res: bool)
        ensures
            res == self.spec_done(),
    {
        pattern_queue_len(&self.read) == 0 && pattern_queue_len(&self.write) == 0
            && pair_queue_len(&self.write_read) == 0
    }

    /// Checks bytes written by the controller against the oldest expected write.
    pub fn on_write(&mut self, written: &[u8]) -> (res: Result<(), I2cSlaveTestError>)
        ensures
            final(self).reads() == old(self).reads(),
            final(self).write_reads() == old(self).write_reads(),
            old(self).writes().len() == 0 ==> final(self).writes() == old(self).writes(),
            old(self).writes().len() > 0 ==> final(self).writes() == old(self).writes().drop_last(),
            res == spec_write_outcome(old(self).writes(), written@),
    {
        match pattern_queue_pop_back(&mut self.write) {
            None => Err(I2cSlaveTestError::ExpectationFailure("Unexpected write command")),
            Some(expected) => {
                if bytes_equal(written, expected) {
                    Ok(())
                } else {
                    Err(I2cSlaveTestError::ExpectationFailure("Data Received did not match expectations"))
                }
            },
        }
    }

    /// Checks the write part of a write-read against the oldest expected
    /// (write, read) pair, which it takes, and answers with the read part.
    pub fn on_write_read(&mut self, written: &[u8]) -> (res: Reaction<'b>)
        ensures
            final(self).reads() == old(self).reads(),
            final(self).writes() == old(self).writes(),
            spec_write_read_reaction(old(self).write_reads(), final(self).write_reads(), written@, res),
    {
        match pair_queue_pop_back(&mut self.write_read) {
            None => Reaction::Fail(I2cSlaveTestError::ExpectationFailure("Unexpected write-read command")),
            Some((expected, resp)) => {
                if bytes_equal(written, expected) {
                    Reaction::Respond(resp)
                } else {
                    Reaction::Fail(I2cSlaveTestError::ExpectationFailure("Data Received did not match expectations"))
                }
            },
        }
    }

    /// Takes the response to the next read: the oldest expected one.
    pub fn next_read(&mut self) -> (res: Result<&'b [u8], I2cSlaveTestError>)
        ensures
            final(self).writes() == old(self).writes(),
            final(self).write_reads() == old(self).write_reads(),
            old(self).reads().len() == 0 ==> {
                &&& final(self).reads() == old(self).reads()
                &&& res == Err::<&'b [u8], I2cSlaveTestError>(I2cSlaveTestError::ExpectationFailure("Unexpected read command"))
            },
            old(self).reads().len() > 0 ==> {
                &&& final(self).reads() == old(self).reads().drop_last()
                &&& res is Ok
                &&& res->Ok_0@ == old(self).reads().last()
            },
    {
        match pattern_queue_pop_back(&mut self.read) {
            None => Err(I2cSlaveTestError::ExpectationFailure("Unexpected read command")),
            Some(resp) => Ok(resp),
        }
    }

    /// Reacts to a command of the controller; `received` is what the
    /// peripheral's buffer holds (the written bytes are its first ones).
    pub fn on_command(&mut self, command: Command, received: &[u8]) -> (res: Reaction<'b>)
        requires
            command matches Command::WriteRead(n) ==> n <= received.len(),
            command matches Command::Write(n) ==> n <= received.len(),
        ensures
            !(command is WriteRead) ==> final(self).write_reads() == old(self).write_reads(),
            match command {
                Command::GeneralCall(_) => res == Reaction::Unsupported && *final(self) == *old(self),
                Command::Read => final(self).writes() == old(self).writes() && spec_read_reaction(*old(self), *final(self), res),
                Command::Write(n) => {
                    &&& final(self).reads() == old(self).reads()
                    &&& old(self).writes().len() > 0 ==> final(self).writes() == old(self).writes().drop_last()
                    &&& old(self).writes().len() == 0 ==> final(self).writes() == old(self).writes()
                    &&& spec_write_outcome(old(self).writes(), received@.take(n as int)) matches Ok(())
                        ==> res == Reaction::Listen
                    &&& spec_write_outcome(old(self).writes(), received@.take(n as int)) matches Err(e)
                        ==> res == Reaction::Fail(e)
                },
                Command::WriteRead(n) => {
                    &&& final(self).reads() == old(self).reads()
                    &&& final(self).writes() == old(self).writes()
                    &&& spec_write_read_reaction(old(self).write_reads(), final(self).write_reads(), received@.take(n as int), res)
                },
            },
    {
        match command {
            Command::GeneralCall(_) => Reaction::Unsupported,
            Command::Read => match self.next_read() {
                Ok(resp) => Reaction::Respond(resp),
                Err(e) => Reaction::Fail(e),
            },
            Command::WriteRead(n) => self.on_write_read(received.split_at(n).0),
            Command::Write(n) => match self.on_write(received.split_at(n).0) {
                Err(e) => Reaction::Fail(e),
                Ok(()) => Reaction::Listen,
            },
        }
    }
}

/// How a read command is answered: with the oldest expected response, or a
/// failure when none is expected.
pub open spec fn spec_read_reaction<'b>(before: I2cSlaveTester<'b>, after: I2cSlaveTester<'b>, res: Reaction<'b>) -> bool {
    &&& before.reads().len() == 0 ==> {
        &&& after.reads() == before.reads()
        &&& res == Reaction::Fail(I2cSlaveTestError::ExpectationFailure("Unexpected read command"))
    }
    &&& before.reads().len() > 0 ==> {
        &&& after.reads() == before.reads().drop_last()
        &&& res is Respond
        &&& res->Respond_0@ == before.reads().last()
    }
}

/// How a write-read with write part `written` is answered: the oldest
/// (write, read) pair is taken; when its write part is what was written, the
/// read part is the answer, otherwise the check fails.
pub open spec fn spec_write_read_reaction<'b>(
    before: Seq<(Seq<u8>, Seq<u8>)>,
    after: Seq<(Seq<u8>, Seq<u8>)>,
    written: Seq<u8>,
    res: Reaction<'b>,
) -> bool {
    &&& before.len() == 0 ==> {
        &&& after == before
        &&& res == Reaction::Fail(I2cSlaveTestError::ExpectationFailure("Unexpected write-read command"))
    }
    &&& before.len() > 0 ==> {
        &&& after == before.drop_last()
        &&& written == before.last().0 ==> res is Respond && res->Respond_0@ == before.last().1
        &&& written != before.last().0 ==> res == Reaction::Fail(
            I2cSlaveTestError::ExpectationFailure("Data Received did not match expectations"),
        )
    }
}

/// The outcome of checking `written` against the oldest of the expected `writes`.
pub open spec fn spec_write_outcome(writes: Seq<Seq<u8>>, written: Seq<u8>) -> Result<(), I2cSlaveTestError> {
    if writes.len() == 0 {
        Err(I2cSlaveTestError::ExpectationFailure("Unexpected write command"))
    } else if written == writes.last() {
        Ok(())
    } else {
        Err(I2cSlaveTestError::ExpectationFailure("Data Received did not match expectations"))
    }
}

/// Whether a response went as expected.
pub fn check_read_status(status: ReadStatus) -> (res: Result<(), I2cSlaveTestError>)
    ensures
        res == match status {
            ReadStatus::Done => Ok(()),
            ReadStatus::NeedMoreBytes => Err(I2cSlaveTestError::ExpectationFailure("NeedMoreBytes: provided buffer exceeded")),
            ReadStatus::LeftoverBytes(_) => Err(I2cSlaveTestError::ExpectationFailure("LeftoverBytes: provided buffer too large")),
        },
{
    match status {
        ReadStatus::Done => Ok(()),
        ReadStatus::NeedMoreBytes => Err(I2cSlaveTestError::ExpectationFailure("NeedMoreBytes: provided buffer exceeded")),
        ReadStatus::LeftoverBytes(_) => Err(I2cSlaveTestError::ExpectationFailure("LeftoverBytes: provided buffer too large")),
    }
}

/// The queue of expected writes after expecting `patterns`, in this order,
/// on an empty tester: each one went to the front.
pub open spec fn spec_queued(patterns: Seq<Seq<u8>>) -> Seq<Seq<u8>>
    decreases patterns.len(),
{
    if patterns.len() == 0 {
        Seq::empty()
    } else {
        seq![patterns.last()] + spec_queued(patterns.drop_last())
    }
}

/// Whether the writes `written`, checked one after the other against the
/// expected `queue`, all pass.
pub open spec fn spec_all_writes_pass(queue: Seq<Seq<u8>>, written: Seq<Seq<u8>>) -> bool
    decreases written.len(),
{
    if written.len() == 0 {
        true
    } else {
        spec_write_outcome(queue, written[0]) is Ok
            && spec_all_writes_pass(queue.drop_last(), written.drop_first())
    }
}

/// Expectations are met in the order they were given: after expecting the
/// patterns one by one, a series of as many writes passes exactly when the
/// writes are the patterns, in the same order.
pub proof fn law_writes_checked_in_order(patterns: Seq<Seq<u8>>, written: Seq<Seq<u8>>)
    requires
        written.len() == patterns.len(),
    ensures
        spec_all_writes_pass(spec_queued(patterns), written) <==> written == patterns,
    decreases patterns.len(),
{
    if patterns.len() > 0 {
        lemma_queued_oldest(patterns);
        let q = spec_queued(patterns);
        law_writes_checked_in_order(patterns.drop_first(), written.drop_first());
        if written == patterns {
            assert(written.drop_first() == patterns.drop_first());
        }
        if spec_all_writes_pass(q, written) {
            assert(written[0] == patterns[0]);
            assert(written =~= seq![written[0]] + written.drop_first());
            assert(patterns =~= seq![patterns[0]] + patterns.drop_first());
        }
    } else {
        assert(written =~= patterns);
    }
}

/// The oldest queued pattern is the first one given, and after it come
/// the others.
proof fn lemma_queued_oldest(patterns: Seq<Seq<u8>>)
    requires
        patterns.len() > 0,
    ensures
        spec_queued(patterns).len() == patterns.len(),
        spec_queued(patterns).last() == patterns[0],
        spec_queued(patterns).drop_last() == spec_queued(patterns.drop_first()),
    decreases patterns.len(),
{
    if patterns.len() == 1 {
        assert(patterns.drop_last().len() == 0);
        assert(patterns.drop_first().len() == 0);
        assert(spec_queued(patterns.drop_last()) == Seq::<Seq<u8>>::empty());
        assert(spec_queued(patterns.drop_first()) == Seq::<Seq<u8>>::empty());
        assert(spec_queued(patterns) == seq![patterns.last()] + Seq::<Seq<u8>>::empty());
        assert(spec_queued(patterns).drop_last() =~= spec_queued(patterns.drop_first()));
    } else {
        lemma_queued_oldest(patterns.drop_last());
        assert(patterns.drop_last().drop_first() =~= patterns.drop_first().drop_last());
        assert(patterns.drop_first().last() == patterns.last());
        assert(spec_queued(patterns).drop_last() =~= seq![patterns.last()] + spec_queued(patterns.drop_last()).drop_last());
    }
}

/// The byte the shield answers a one-byte read with, and expects in a
/// one-byte write.
pub const SINGLE_PATTERN: [u8; 1] = [13];
/// The four bytes the shield expects in a multi-byte write.
pub const MULTI_PATTERN: [u8; 4] = [56, 12, 42, 18];

impl I2cSlaveTester<'static> {
    /// The shield side of the one-byte read through the I2C target peripheral.
    pub fn for_simple_read() -> (res: I2cSlaveTester<'static>)
        ensures
            res.reads() == seq![seq![13u8]],
            res.writes().len() == 0,
            res.write_reads().len() == 0,
    {
        let res = I2cSlaveTester::new().expect_read(&SINGLE_PATTERN);
        assert(SINGLE_PATTERN@ =~= seq![13u8]);
        res
    }

    /// The shield side of the one-byte write through the I2C target peripheral.
    pub fn for_simple_write() -> (res: I2cSlaveTester<'static>)
        ensures
            res.writes() == seq![seq![13u8]],
            res.reads().len() == 0,
            res.write_reads().len() == 0,
    {
        let res = I2cSlaveTester::new().expect_write(&SINGLE_PATTERN);
        assert(SINGLE_PATTERN@ =~= seq![13u8]);
        res
    }

    /// The shield side of the four-byte write through the I2C target peripheral.
    pub fn for_multi_write() -> (res: I2cSlaveTester<'static>)
        ensures
            res.writes() == seq![seq![56u8, 12u8, 42u8, 18u8]],
            res.reads().len() == 0,
            res.write_reads().len() == 0,
    {
        let res = I2cSlaveTester::new().expect_write(&MULTI_PATTERN);
        assert(MULTI_PATTERN@ =~= seq![56u8, 12u8, 42u8, 18u8]);
        res
    }
}

/// Whether two byte strings are equal.
pub fn bytes_equal(a: &[u8], b: &[u8]) -> (res: bool)
    ensures
        res == (a@ == b@),
{
    if a.len() != b.len() {
        return false;
    }
    let mut i: usize = 0;
    while i < a.len()
        invariant
            a@.len() == b@.len(),
            i <= a@.len(),
            forall|j: int| 0 <= j < i ==> a@[j] == b@[j],
        decreases a@.len() - i,
    {
        if a[i] != b[i] {
            return false;
        }
        i = i + 1;
    }
    assert(a@ =~= b@);
    true
}



/// How the shield meets each command of the controller: a write passes
/// exactly when it repeats the oldest expected write; a read is answered
/// with the oldest expected response; a write-read passes exactly when its
/// write part repeats the oldest pair's write part, and is answered with
/// that pair's read part. Each takes its expectation off the queue, and
/// one that finds none fails.
pub proof fn law_tester_reactions<'b>(
    writes: Seq<Seq<u8>>,
    written: Seq<u8>,
    before: I2cSlaveTester<'b>,
    after: I2cSlaveTester<'b>,
    pairs_before: Seq<(Seq<u8>, Seq<u8>)>,
    pairs_after: Seq<(Seq<u8>, Seq<u8>)>,
    res: Reaction<'b>,
)
    ensures
        spec_write_outcome(writes, written) is Ok <==> writes.len() > 0 && written == writes[writes.len() - 1],
        writes.len() == 0 ==> spec_write_outcome(writes, written)
            == Err::<(), I2cSlaveTestError>(I2cSlaveTestError::ExpectationFailure("Unexpected write command")),
        writes.len() > 0 && written != writes[writes.len() - 1] ==> spec_write_outcome(writes, written)
            == Err::<(), I2cSlaveTestError>(I2cSlaveTestError::ExpectationFailure("Data Received did not match expectations")),
        spec_read_reaction(before, after, res) && before.reads().len() > 0 ==> {
            &&& res matches Reaction::Respond(r) && r@ == before.reads()[before.reads().len() - 1]
            &&& after.reads() == before.reads().subrange(0, before.reads().len() - 1)
        },
        spec_read_reaction(before, after, res) && before.reads().len() == 0 ==>
            res == Reaction::Fail(I2cSlaveTestError::ExpectationFailure("Unexpected read command")),
        spec_write_read_reaction(pairs_before, pairs_after, written, res) && pairs_before.len() > 0 ==> {
            &&& pairs_after == pairs_before.subrange(0, pairs_before.len() - 1)
            &&& (res is Respond <==> written == pairs_before[pairs_before.len() - 1].0)
            &&& res matches Reaction::Respond(r) ==> r@ == pairs_before[pairs_before.len() - 1].1
        },
        spec_write_read_reaction(pairs_before, pairs_after, written, res) && pairs_before.len() == 0 ==>
            res == Reaction::Fail(I2cSlaveTestError::ExpectationFailure("Unexpected write-read command")),
{
}

} // verus!
