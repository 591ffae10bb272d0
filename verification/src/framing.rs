use vstd::prelude::*;
use vstd::slice::slice_subrange;

verus! {

/// The largest frame, sentinel included, that a device sends in one piece.
pub const MAX_FRAME: usize = 128;
/// How many bytes of an unfinished frame a receiver buffers.
pub const ACCUMULATOR_SIZE: usize = 256;

#[verifier::external_type_specification]
#[verifier::external_body]
#[verifier::reject_recursive_types(T)]
pub struct ExHeaplessVec<T, const N: usize>(heapless::Vec<T, N>);

/// The bytes held by a fixed-capacity frame buffer.
pub uninterp spec fn frame_bytes(v: heapless::Vec<u8, 128>) -> Seq<u8>;

/// The COBS frame that postcard's `Cobs` serialization flavor makes of
/// `payload`: the COBS encoding followed by a zero sentinel.
pub uninterp spec fn cobs_frame(payload: Seq<u8>) -> Seq<u8>;

/// What `cobs::decode_in_place` makes of `frame`: the decoded bytes, or
/// `None` when the frame is malformed.
pub uninterp spec fn cobs_unframe(frame: Seq<u8>) -> Option<Seq<u8>>;

/// The most bytes the COBS frame of a payload of `n` bytes takes: a code
/// byte at the start and one more per 254 bytes, and the sentinel.
pub open spec fn max_frame_len(n: nat) -> nat {
    n + n / 254 + 2
}

/// Whether `frame` has the shape of a COBS frame: a zero sentinel at the
/// end and no zero before it.
pub open spec fn sentinel_terminated(frame: Seq<u8>) -> bool {
    &&& frame.len() >= 1
    &&& frame.last() == 0
    &&& forall|i: int| 0 <= i < frame.len() - 1 ==> frame[i] != 0
}

/// Frames `payload` into a buffer of 128 bytes with postcard's `Cobs` flavor
/// over `HVec` (`Cobs::try_new`, `Flavor::try_extend`, `Flavor::finalize`).
/// The flavor pushes every byte of the frame into the buffer and fails when
/// the buffer is full, so it succeeds exactly when the frame fits. A COBS
/// frame has no zero but its final sentinel, adds one code byte per run of
/// 254 non-zero bytes (and one at the start) plus the sentinel, and
/// `cobs::decode_in_place` gives the payload back from it.
#[verifier::external_body]
fn cobs_frame_bounded(payload: &[u8]) -> (res: Option<heapless::Vec<u8, 128>>)
    ensures
        res is Some <==> cobs_frame(payload@).len() <= MAX_FRAME,
        max_frame_len(payload@.len()) <= MAX_FRAME ==> res is Some,
        res matches Some(v) ==> frame_bytes(v) == cobs_frame(payload@) && sentinel_terminated(frame_bytes(v)),
        res matches Some(v) ==> frame_bytes(v).len() <= max_frame_len(payload@.len()),
        res matches Some(v) ==> cobs_unframe(frame_bytes(v)) == Some(payload@),
{
    let hvec = postcard::ser_flavors::HVec::<128>::new();
    let mut flavor = match postcard::ser_flavors::Cobs::try_new(hvec) {
        Ok(f) => f,
        Err(_) => return None,
    };
    if postcard::ser_flavors::Flavor::try_extend(&mut flavor, payload).is_err() {
        return None;
    }
    postcard::ser_flavors::Flavor::finalize(flavor).ok()
}

/// Frames `payload` into a growable buffer with postcard's `Cobs` flavor over
/// `AllocVec`, which never runs out of room; the frame is as for the bounded
/// buffer.
#[verifier::external_body]
fn cobs_frame_unbounded(payload: &[u8]) -> (res: Vec<u8>)
    ensures
        res@ == cobs_frame(payload@),
        sentinel_terminated(res@),
        res@.len() <= max_frame_len(payload@.len()),
        cobs_unframe(res@) == Some(payload@),
{
    let alloc = postcard::ser_flavors::AllocVec::new();
    let mut flavor = postcard::ser_flavors::Cobs::try_new(alloc).unwrap();
    postcard::ser_flavors::Flavor::try_extend(&mut flavor, payload).unwrap();
    postcard::ser_flavors::Flavor::finalize(flavor).unwrap()
}

/// Decodes a COBS frame with `cobs::decode_in_place`, on a copy, keeping the
/// decoded prefix. A frame made by the encoder from some payload decodes to
/// that payload.
#[verifier::external_body]
fn cobs_decode(frame: &[u8]) -> (res: Option<Vec<u8>>)
    ensures
        res is Some <==> cobs_unframe(frame@) is Some,
        res matches Some(v) ==> cobs_unframe(frame@) == Some(v@),
        res is None ==> forall|p: Seq<u8>| frame@ != #[trigger] cobs_frame(p),
        res matches Some(v) ==> forall|p: Seq<u8>| frame@ == #[trigger] cobs_frame(p) ==> v@ == p,
{
    let mut buf = frame.to_vec();
    match cobs::decode_in_place(&mut buf) {
        Ok(n) => {
            buf.truncate(n);
            Some(buf)
        },
        Err(_) => None,
    }
}

/// Frames `payload` for a device's output channel: the COBS frame, which
/// must fit in 128 bytes.
pub fn to_bytes(payload: &[u8]) -> (res: heapless::Vec<u8, 128>)
    requires
        cobs_frame(payload@).len() <= MAX_FRAME,
    ensures
        frame_bytes(res) == cobs_frame(payload@),
        sentinel_terminated(frame_bytes(res)),
        frame_bytes(res).len() <= max_frame_len(payload@.len()),
        cobs_unframe(frame_bytes(res)) == Some(payload@),
{
    let framed = cobs_frame_bounded(payload);
    framed.unwrap()
}

/// Whether the frame of `payload` fits in 128 bytes.
pub fn frame_fits(payload: &[u8]) -> (res: bool)
    ensures
        res == (cobs_frame(payload@).len() <= MAX_FRAME),
        max_frame_len(payload@.len()) <= MAX_FRAME ==> res,
{
    cobs_frame_bounded(payload).is_some()
}

/// Frames `payload` when the frame fits in 128 bytes, `None` otherwise.
pub fn try_to_bytes(payload: &[u8]) -> (res: Option<heapless::Vec<u8, 128>>)
    ensures
        res is Some <==> cobs_frame(payload@).len() <= MAX_FRAME,
        max_frame_len(payload@.len()) <= MAX_FRAME ==> res is Some,
        res matches Some(v) ==> frame_bytes(v) == cobs_frame(payload@) && sentinel_terminated(frame_bytes(v)),
        res matches Some(v) ==> cobs_unframe(frame_bytes(v)) == Some(payload@),
{
    if frame_fits(payload) {
        Some(to_bytes(payload))
    } else {
        None
    }
}

/// Frames `payload` for the host's output channel, of any length.
pub fn to_bytes_alloc(payload: &[u8]) -> (res: Vec<u8>)
    ensures
        res@ == cobs_frame(payload@),
        sentinel_terminated(res@),
        res@.len() <= max_frame_len(payload@.len()),
        cobs_unframe(res@) == Some(payload@),
{
    cobs_frame_unbounded(payload)
}

/// The position of the first zero byte of `s`, if any.
pub open spec fn first_zero(s: Seq<u8>) -> Option<int>
    decreases s.len(),
{
    if s.len() == 0 {
        None
    } else if s[0] == 0 {
        Some(0)
    } else {
        match first_zero(s.drop_first()) {
            Some(i) => Some(i + 1),
            None => None,
        }
    }
}

/// What feeding a chunk to the accumulator gives.
pub enum FeedModel {
    /// The chunk was buffered whole.
    Consumed,
    /// The frame did not fit; the rest of the chunk starts at this offset.
    OverFull(nat),
    /// A frame ended but did not decode; the rest starts at this offset.
    DecodeError(nat),
    /// A frame ended and decoded to these bytes; the rest starts at this offset.
    Success(Seq<u8>, nat),
}

/// Feeding `input` to an accumulator holding `pending`: the result and the
/// bytes held afterwards.
pub open spec fn spec_feed(pending: Seq<u8>, input: Seq<u8>) -> (FeedModel, Seq<u8>) {
    if input.len() == 0 {
        (FeedModel::Consumed, pending)
    } else {
        match first_zero(input) {
            Some(n) => {
                if pending.len() + n + 1 <= ACCUMULATOR_SIZE {
                    match cobs_unframe(pending + input.take(n + 1)) {
                        Some(d) => (FeedModel::Success(d, (n + 1) as nat), Seq::empty()),
                        None => (FeedModel::DecodeError((n + 1) as nat), Seq::empty()),
                    }
                } else {
                    (FeedModel::OverFull((n + 1) as nat), Seq::empty())
                }
            },
            None => {
                if pending.len() + input.len() > ACCUMULATOR_SIZE {
                    (FeedModel::OverFull((ACCUMULATOR_SIZE - pending.len()) as nat), Seq::empty())
                } else {
                    (FeedModel::Consumed, pending + input)
                }
            },
        }
    }
}

/// Feeding every byte of `window` to an accumulator holding `pending`: the
/// decoded frames, in order, and the bytes held afterwards. Frames that do
/// not fit or do not decode are dropped.
pub open spec fn spec_drain(pending: Seq<u8>, window: Seq<u8>) -> (Seq<Seq<u8>>, Seq<u8>)
    decreases window.len(), pending.len(),
{
    if window.len() == 0 {
        (Seq::empty(), pending)
    } else {
        let (r, held) = spec_feed(pending, window);
        match r {
            FeedModel::Consumed => (Seq::empty(), held),
            FeedModel::OverFull(k) => {
                if k <= window.len() && (k > 0 || pending.len() > 0) {
                    spec_drain(held, window.skip(k as int))
                } else {
                    (Seq::empty(), held)
                }
            },
            FeedModel::DecodeError(k) => {
                if 0 < k <= window.len() {
                    spec_drain(held, window.skip(k as int))
                } else {
                    (Seq::empty(), held)
                }
            },
            FeedModel::Success(d, k) => {
                if 0 < k <= window.len() {
                    let (rest, held2) = spec_drain(held, window.skip(k as int));
                    (seq![d] + rest, held2)
                } else {
                    (seq![d], held)
                }
            },
        }
    }
}

/// What feeding a chunk to the accumulator gave.
#[derive(Debug, Clone, PartialEq, Eq)]
pub enum FeedResult {
    /// The chunk was buffered whole.
    Consumed,
    /// The frame did not fit; the rest of the chunk starts at this offset.
    OverFull(usize),
    /// A frame ended but did not decode; the rest starts at this offset.
    DecodeError(usize),
    /// A frame ended and decoded to `data`; the rest starts at `remaining`.
    Success { data: Vec<u8>, remaining: usize },
}

impl View for FeedResult {
    type V = FeedModel;

    open spec fn view(&self) -> FeedModel {
        match self {
            FeedResult::Consumed => FeedModel::Consumed,
            FeedResult::OverFull(k) => FeedModel::OverFull(*k as nat),
            FeedResult::DecodeError(k) => FeedModel::DecodeError(*k as nat),
            FeedResult::Success { data, remaining } => FeedModel::Success(data@, *remaining as nat),
        }
    }
}

/// Collects the bytes of COBS frames that arrive in arbitrary chunks and
/// hands out each frame, decoded, once its sentinel arrives.
pub struct FrameAccumulator {
    buf: Vec<u8>,
}

impl View for FrameAccumulator {
    type V = Seq<u8>;

    /// The bytes of the unfinished frame.
    closed spec fn view(&self) -> Seq<u8> {
        self.buf@
    }
}

impl FrameAccumulator {
    /// The accumulator holds at most its capacity, and no sentinel.
    pub closed spec fn wf(&self) -> bool {
        &&& self.buf@.len() <= ACCUMULATOR_SIZE
        &&& first_zero(self.buf@) is None
    }

    /// An empty accumulator.
    pub fn new() -> (res: FrameAccumulator)
        ensures
            res.wf(),
            res@ == Seq::<u8>::empty(),
    {
        FrameAccumulator { buf: Vec::new() }
    }

    /// Feeds a chunk of received bytes. When the chunk holds a sentinel,
    /// the frame up to it is decoded, if it fits, and the accumulator
    /// empties; the offset of the rest of the chunk is returned.
    pub fn feed(&mut self, input: &[u8]) -> (res: FeedResult)
        requires
            old(self).wf(),
        ensures
            final(self).wf(),
            (res@, final(self)@) == spec_feed(old(self)@, input@),
    {
        if input.len() == 0 {
            return FeedResult::Consumed;
        }
        let room = ACCUMULATOR_SIZE - self.buf.len();
        match find_zero(input) {
            Some(n) => {
                if n < room {
                    append(&mut self.buf, input, n + 1);
                    let decoded = cobs_decode(self.buf.as_slice());
                    self.buf = Vec::new();
                    proof { lemma_first_zero_none_iff(Seq::<u8>::empty()); }
                    match decoded {
                        Some(data) => FeedResult::Success { data, remaining: n + 1 },
                        None => FeedResult::DecodeError(n + 1),
                    }
                } else {
                    self.buf = Vec::new();
                    proof { lemma_first_zero_none_iff(Seq::<u8>::empty()); }
                    FeedResult::OverFull(n + 1)
                }
            },
            None => {
                if input.len() > room {
                    self.buf = Vec::new();
                    proof { lemma_first_zero_none_iff(Seq::<u8>::empty()); }
                    FeedResult::OverFull(room)
                } else {
                    let ghost before = self.buf@;
                    append(&mut self.buf, input, input.len());
                    proof {
                        assert(input@.take(input@.len() as int) =~= input@);
                        lemma_first_zero_none_iff(before);
                        lemma_first_zero_none_iff(input@);
                        lemma_first_zero_none_iff(self.buf@);
                    }
                    FeedResult::Consumed
                }
            },
        }
    }
}

/// The byte strings held by a list of buffers.
pub open spec fn frames_of(v: Seq<Vec<u8>>) -> Seq<Seq<u8>> {
    v.map_values(|f: Vec<u8>| f@)
}

impl FrameAccumulator {
    /// Feeds every byte of a received chunk, returning the frames that
    /// completed and decoded, in order. Frames that do not fit or do not
    /// decode are dropped; bytes of an unfinished frame stay buffered.
    pub fn feed_all(&mut self, chunk: &[u8]) -> (res: Vec<Vec<u8>>)
        requires
            old(self).wf(),
        ensures
            final(self).wf(),
            (frames_of(res@), final(self)@) == spec_drain(old(self)@, chunk@),
    {
        let mut out: Vec<Vec<u8>> = Vec::new();
        let mut pos: usize = 0;
        assert(chunk@.skip(0) =~= chunk@);
        while pos < chunk.len()
            invariant
                self.wf(),
                pos <= chunk@.len(),
                spec_drain(old(self)@, chunk@) == (
                    frames_of(out@) + spec_drain(self@, chunk@.skip(pos as int)).0,
                    spec_drain(self@, chunk@.skip(pos as int)).1,
                ),
            decreases chunk@.len() - pos, self@.len(),
        {
            let window = slice_subrange(chunk, pos, chunk.len());
            assert(window@ =~= chunk@.skip(pos as int));
            let ghost held = self@;
            proof { lemma_feed_offsets(held, window@); }
            let r = self.feed(window);
            match r {
                FeedResult::Consumed => {
                    assert(frames_of(out@) + Seq::<Seq<u8>>::empty() =~= frames_of(out@));
                    return out;
                },
                FeedResult::OverFull(k) => {
                    assert(chunk@.skip(pos as int).skip(k as int) =~= chunk@.skip(pos + k));
                    pos = pos + k;
                },
                FeedResult::DecodeError(k) => {
                    assert(chunk@.skip(pos as int).skip(k as int) =~= chunk@.skip(pos + k));
                    pos = pos + k;
                },
                FeedResult::Success { data, remaining } => {
                    assert(chunk@.skip(pos as int).skip(remaining as int) =~= chunk@.skip(pos + remaining));
                    let ghost d = data@;
                    let ghost before = frames_of(out@);
                    out.push(data);
                    assert(frames_of(out@) =~= before.push(d));
                    let ghost tail = spec_drain(self@, chunk@.skip(pos + remaining));
                    assert(before + (seq![d] + tail.0) =~= before.push(d) + tail.0);
                    pos = pos + remaining;
                },
            }
        }
        assert(chunk@.skip(pos as int) =~= Seq::<u8>::empty());
        assert(frames_of(out@) + Seq::<Seq<u8>>::empty() =~= frames_of(out@));
        out
    }
}

/// Appends the first `n` bytes of `src` to `dst`.
fn append(dst: &mut Vec<u8>, src: &[u8], n: usize)
    requires
        n <= src@.len(),
    ensures
        final(dst)@ == old(dst)@ + src@.take(n as int),
{
    let mut i: usize = 0;
    while i < n
        invariant
            n <= src@.len(),
            i <= n,
            dst@ == old(dst)@ + src@.take(i as int),
        decreases n - i,
    {
        dst.push(src[i]);
        i = i + 1;
        assert(dst@ =~= old(dst)@ + src@.take(i as int));
    }
}

/// The position of the first zero byte of `s`, if any.
fn find_zero(s: &[u8]) -> (res: Option<usize>)
    ensures
        res matches Some(i) ==> first_zero(s@) == Some(i as int) && i < s@.len(),
        res is None ==> first_zero(s@) is None,
{
    let mut i: usize = 0;
    while i < s.len()
        invariant
            i <= s@.len(),
            forall|j: int| 0 <= j < i ==> s@[j] != 0,
        decreases s@.len() - i,
    {
        if s[i] == 0 {
            proof { lemma_first_zero_at(s@, i as int); }
            return Some(i);
        }
        i = i + 1;
    }
    proof { lemma_first_zero_none_iff(s@); }
    None
}

/// The first zero is at `i` when `s[i]` is zero and no byte before it is.
pub proof fn lemma_first_zero_at(s: Seq<u8>, i: int)
    requires
        0 <= i < s.len(),
        s[i] == 0,
        forall|j: int| 0 <= j < i ==> s[j] != 0,
    ensures
        first_zero(s) == Some(i),
    decreases i,
{
    if i > 0 {
        lemma_first_zero_at(s.drop_first(), i - 1);
    }
}

/// The bytes of `frames` sent one after the other.
pub open spec fn concat_frames(frames: Seq<Seq<u8>>) -> Seq<u8>
    decreases frames.len(),
{
    if frames.len() == 0 {
        Seq::empty()
    } else {
        frames[0] + concat_frames(frames.drop_first())
    }
}

/// Whether each of `frames` is sentinel-terminated, fits the accumulator
/// and decodes to the payload at the same position.
pub open spec fn frames_decode_to(frames: Seq<Seq<u8>>, payloads: Seq<Seq<u8>>) -> bool {
    &&& frames.len() == payloads.len()
    &&& forall|i: int| 0 <= i < frames.len() ==> {
        &&& sentinel_terminated(#[trigger] frames[i])
        &&& frames[i].len() <= ACCUMULATOR_SIZE
        &&& cobs_unframe(frames[i]) == Some(payloads[i])
    }
}

/// The frames after the first still decode to the payloads after the first.
proof fn lemma_frames_rest(frames: Seq<Seq<u8>>, payloads: Seq<Seq<u8>>)
    requires
        frames_decode_to(frames, payloads),
        frames.len() > 0,
    ensures
        frames_decode_to(frames.drop_first(), payloads.drop_first()),
        seq![payloads[0]] + payloads.drop_first() == payloads,
        concat_frames(frames) == frames[0] + concat_frames(frames.drop_first()),
{
    let rest = frames.drop_first();
    assert forall|i: int| 0 <= i < rest.len() implies {
        &&& sentinel_terminated(#[trigger] rest[i])
        &&& rest[i].len() <= ACCUMULATOR_SIZE
        &&& cobs_unframe(rest[i]) == Some(payloads.drop_first()[i])
    } by {
        assert(rest[i] == frames[i + 1]);
    }
    assert(seq![payloads[0]] + payloads.drop_first() =~= payloads);
}

/// With the start `held` of a frame buffered, feeding the rest `r` of the
/// frame followed by anything completes exactly that frame.
proof fn lemma_feed_completes_frame(held: Seq<u8>, r: Seq<u8>, after: Seq<u8>, d: Seq<u8>)
    requires
        sentinel_terminated(held + r),
        r.len() > 0,
        (held + r).len() <= ACCUMULATOR_SIZE,
        cobs_unframe(held + r) == Some(d),
    ensures
        spec_feed(held, r + after) == (FeedModel::Success(d, r.len()), Seq::<u8>::empty()),
        (r + after).skip(r.len() as int) == after,
{
    let f = held + r;
    let window = r + after;
    let n = r.len() - 1;
    assert forall|j: int| 0 <= j < n implies window[j] != 0 by {
        assert(window[j] == f[held.len() + j]);
    }
    assert(window[n] == f[f.len() - 1]);
    lemma_first_zero_at(window, n);
    assert(held + window.take(n + 1) =~= f);
    assert(window.skip(r.len() as int) =~= after);
}

/// A stream made of whole frames, each one sentinel-terminated, fitting the
/// accumulator and decoding to its payload, is split by an empty
/// accumulator into exactly those payloads, in order, and nothing stays
/// buffered, however many frames one chunk holds.
pub proof fn law_stream_of_frames(frames: Seq<Seq<u8>>, payloads: Seq<Seq<u8>>)
    requires
        frames_decode_to(frames, payloads),
    ensures
        spec_drain(Seq::empty(), concat_frames(frames)) == (payloads, Seq::<u8>::empty()),
    decreases frames.len(),
{
    if frames.len() > 0 {
        lemma_frames_rest(frames, payloads);
        assert(Seq::<u8>::empty() + frames[0] =~= frames[0]);
        lemma_feed_completes_frame(Seq::empty(), frames[0], concat_frames(frames.drop_first()), payloads[0]);
        law_stream_of_frames(frames.drop_first(), payloads.drop_first());
    } else {
        assert(payloads =~= Seq::<Seq<u8>>::empty());
    }
}

/// The first zero lies inside the sequence.
pub proof fn lemma_first_zero_bound(s: Seq<u8>)
    ensures
        first_zero(s) matches Some(i) ==> 0 <= i < s.len() && s[i] == 0,
    decreases s.len(),
{
    if s.len() > 0 {
        lemma_first_zero_bound(s.drop_first());
    }
}

/// The offsets that feeding returns stay inside the chunk, and one that
/// does not advance only comes with emptying a non-empty accumulator.
pub proof fn lemma_feed_offsets(pending: Seq<u8>, input: Seq<u8>)
    requires
        pending.len() <= ACCUMULATOR_SIZE,
        input.len() > 0,
    ensures
        spec_feed(pending, input).0 matches FeedModel::OverFull(k) ==> k <= input.len() && (k > 0 || pending.len() > 0),
        spec_feed(pending, input).0 matches FeedModel::DecodeError(k) ==> 0 < k <= input.len(),
        spec_feed(pending, input).0 matches FeedModel::Success(_, k) ==> 0 < k <= input.len(),
        !(spec_feed(pending, input).0 is Consumed) ==> spec_feed(pending, input).1.len() == 0,
{
    lemma_first_zero_bound(input);
}

/// A sequence has no first zero exactly when it has no zero.
pub proof fn lemma_first_zero_none_iff(s: Seq<u8>)
    ensures
        first_zero(s) is None <==> forall|j: int| 0 <= j < s.len() ==> s[j] != 0,
    decreases s.len(),
{
    if s.len() > 0 {
        lemma_first_zero_none_iff(s.drop_first());
        if first_zero(s) is None {
            assert forall|j: int| 0 <= j < s.len() implies s[j] != 0 by {
                if j > 0 {
                    assert(s[j] == s.drop_first()[j - 1]);
                }
            }
        } else if s[0] != 0 {
            let k = choose|j: int| 0 <= j < s.drop_first().len() && s.drop_first()[j] == 0;
            assert(s[k + 1] == 0);
        }
    }
}


/// A single frame, sentinel-terminated, fitting the accumulator and
/// decoding to `payload`, fed to an empty accumulator gives back exactly
/// `payload` and leaves nothing buffered.
pub proof fn law_frame_round_trip(frame: Seq<u8>, payload: Seq<u8>)
    requires
        sentinel_terminated(frame),
        frame.len() <= ACCUMULATOR_SIZE,
        cobs_unframe(frame) == Some(payload),
    ensures
        spec_drain(Seq::empty(), frame) == (seq![payload], Seq::<u8>::empty()),
{
    assert(Seq::<u8>::empty() + frame =~= frame);
    assert(frame + Seq::<u8>::empty() =~= frame);
    lemma_feed_completes_frame(Seq::empty(), frame, Seq::empty(), payload);
    assert(frame.skip(frame.len() as int) =~= Seq::<u8>::empty());
    assert(spec_drain(Seq::<u8>::empty(), Seq::<u8>::empty()) == (Seq::<Seq<u8>>::empty(), Seq::<u8>::empty()));
    assert(seq![payload] + Seq::<Seq<u8>>::empty() =~= seq![payload]);
}

/// How many of `frames` have ended at position `j` of their concatenation.
pub open spec fn frames_done(frames: Seq<Seq<u8>>, j: int) -> nat
    decreases frames.len(),
{
    if frames.len() == 0 {
        0
    } else if j < frames[0].len() {
        0
    } else {
        1 + frames_done(frames.drop_first(), j - frames[0].len())
    }
}

/// The bytes of the frame that is under way at position `j` of the
/// concatenation of `frames`, from its start up to `j`.
pub open spec fn partial_at(frames: Seq<Seq<u8>>, j: int) -> Seq<u8>
    decreases frames.len(),
{
    if frames.len() == 0 {
        Seq::empty()
    } else if j < frames[0].len() {
        frames[0].take(j)
    } else {
        partial_at(frames.drop_first(), j - frames[0].len())
    }
}

/// Feeding `chunks` one after the other to an accumulator holding
/// `pending`: all the frames that come out, in order, and what stays
/// buffered at the end.
pub open spec fn drain_chunks(pending: Seq<u8>, chunks: Seq<Seq<u8>>) -> (Seq<Seq<u8>>, Seq<u8>)
    decreases chunks.len(),
{
    if chunks.len() == 0 {
        (Seq::empty(), pending)
    } else {
        let (first, held) = spec_drain(pending, chunks[0]);
        let (rest, held_after) = drain_chunks(held, chunks.drop_first());
        (first + rest, held_after)
    }
}

/// At the start of a stream of frames no frame is done or under way, and at
/// its end all are done and none is under way.
proof fn lemma_stream_ends(frames: Seq<Seq<u8>>, payloads: Seq<Seq<u8>>)
    requires
        frames_decode_to(frames, payloads),
    ensures
        frames_done(frames, 0) == 0,
        partial_at(frames, 0) == Seq::<u8>::empty(),
        frames_done(frames, concat_frames(frames).len() as int) == frames.len(),
        partial_at(frames, concat_frames(frames).len() as int) == Seq::<u8>::empty(),
    decreases frames.len(),
{
    if frames.len() > 0 {
        lemma_frames_rest(frames, payloads);
        assert(sentinel_terminated(frames[0]));
        assert(frames[0].take(0) =~= Seq::<u8>::empty());
        lemma_stream_ends(frames.drop_first(), payloads.drop_first());
    }
}

/// From the position `j` of a stream of frames to a later position `e`, with
/// the accumulator holding the part of the frame under way at `j`: the
/// bytes between give the payloads of the frames that end in between, and
/// leave buffered the part of the frame under way at `e`.
proof fn lemma_drain_segment(frames: Seq<Seq<u8>>, payloads: Seq<Seq<u8>>, j: int, e: int)
    requires
        frames_decode_to(frames, payloads),
        0 <= j <= e <= concat_frames(frames).len(),
    ensures
        frames_done(frames, j) <= frames_done(frames, e) <= frames.len(),
        spec_drain(partial_at(frames, j), concat_frames(frames).subrange(j, e)) == (
            payloads.subrange(frames_done(frames, j) as int, frames_done(frames, e) as int),
            partial_at(frames, e),
        ),
    decreases frames.len(),
{
    let s = concat_frames(frames);
    if frames.len() == 0 {
        assert(s.subrange(j, e) =~= Seq::<u8>::empty());
        assert(payloads.subrange(0, 0) =~= Seq::<Seq<u8>>::empty());
    } else {
        lemma_frames_rest(frames, payloads);
        let f = frames[0];
        let rest = frames.drop_first();
        let r = concat_frames(rest);
        let p = payloads.drop_first();
        assert(sentinel_terminated(f));
        assert(f.len() <= ACCUMULATOR_SIZE);
        if j >= f.len() {
            lemma_drain_segment(rest, p, j - f.len(), e - f.len());
            assert(s.subrange(j, e) =~= r.subrange(j - f.len(), e - f.len()));
            let a = frames_done(rest, j - f.len());
            let b = frames_done(rest, e - f.len());
            assert(payloads.subrange(1 + a as int, 1 + b as int) =~= p.subrange(a as int, b as int));
        } else if e < f.len() {
            let held = f.take(j);
            let window = s.subrange(j, e);
            assert(window =~= f.subrange(j, e));
            assert(payloads.subrange(0, 0) =~= Seq::<Seq<u8>>::empty());
            if e == j {
                assert(window =~= Seq::<u8>::empty());
                assert(held =~= f.take(e));
            } else {
                assert forall|i: int| 0 <= i < window.len() implies window[i] != 0 by {
                    assert(window[i] == f[j + i]);
                }
                lemma_first_zero_none_iff(window);
                assert(held + window =~= f.take(e));
            }
        } else {
            let held = f.take(j);
            let tail = f.skip(j);
            let e2 = e - f.len();
            let after = r.take(e2);
            assert(held + tail =~= f);
            assert(s.subrange(j, e) =~= tail + after);
            lemma_feed_completes_frame(held, tail, after, payloads[0]);
            lemma_stream_ends(rest, p);
            assert(r.subrange(0, e2) =~= after);
            lemma_drain_segment(rest, p, 0, e2);
            let b = frames_done(rest, e2);
            assert(payloads.subrange(0, 1 + b as int) =~= seq![payloads[0]] + p.subrange(0, b as int));
        }
    }
}

/// Feeding the rest of a stream of frames, from position `j`, in any chunks,
/// to an accumulator holding the part of the frame under way at `j`, gives
/// the payloads of the frames that end after `j`, and leaves nothing
/// buffered.
proof fn lemma_drain_chunks_from(frames: Seq<Seq<u8>>, payloads: Seq<Seq<u8>>, chunks: Seq<Seq<u8>>, j: int)
    requires
        frames_decode_to(frames, payloads),
        0 <= j <= concat_frames(frames).len(),
        concat_frames(chunks) == concat_frames(frames).skip(j),
    ensures
        frames_done(frames, j) <= frames.len(),
        drain_chunks(partial_at(frames, j), chunks) == (
            payloads.skip(frames_done(frames, j) as int),
            Seq::<u8>::empty(),
        ),
    decreases chunks.len(),
{
    let s = concat_frames(frames);
    lemma_stream_ends(frames, payloads);
    if chunks.len() == 0 {
        assert(concat_frames(chunks) == Seq::<u8>::empty());
        assert(s.skip(j).len() == s.len() - j);
        assert(j == s.len());
        assert(payloads.skip(frames.len() as int) =~= Seq::<Seq<u8>>::empty());
    } else {
        let c = chunks[0];
        let e = j + c.len();
        assert(s.skip(j) == c + concat_frames(chunks.drop_first()));
        assert(e <= s.len());
        assert(c =~= s.subrange(j, e)) by {
            assert forall|i: int| 0 <= i < c.len() implies c[i] == s.subrange(j, e)[i] by {
                assert(c[i] == s.skip(j)[i]);
            }
        }
        assert(concat_frames(chunks.drop_first()) =~= s.skip(e)) by {
            let t = concat_frames(chunks.drop_first());
            assert forall|i: int| 0 <= i < t.len() implies t[i] == s.skip(e)[i] by {
                assert(t[i] == s.skip(j)[c.len() + i]);
            }
        }
        lemma_drain_segment(frames, payloads, j, e);
        lemma_drain_chunks_from(frames, payloads, chunks.drop_first(), e);
        let a = frames_done(frames, j) as int;
        let b = frames_done(frames, e) as int;
        assert(payloads.subrange(a, b) + payloads.skip(b) =~= payloads.skip(a));
    }
}

/// However a stream of whole frames is cut into chunks, and however many,
/// feeding the chunks one after the other to an empty accumulator gives
/// exactly the frames' payloads, in order, and leaves nothing buffered.
pub proof fn law_any_chunking(frames: Seq<Seq<u8>>, payloads: Seq<Seq<u8>>, chunks: Seq<Seq<u8>>)
    requires
        frames_decode_to(frames, payloads),
        concat_frames(chunks) == concat_frames(frames),
    ensures
        drain_chunks(Seq::empty(), chunks) == (payloads, Seq::<u8>::empty()),
{
    lemma_stream_ends(frames, payloads);
    assert(concat_frames(frames).skip(0) =~= concat_frames(frames));
    lemma_drain_chunks_from(frames, payloads, chunks, 0);
    assert(payloads.skip(0) =~= payloads);
}


/// Whether each of `frames` is sentinel-terminated and either fits the
/// accumulator and decodes to the payload given at the same position of
/// `results`, or is marked `None` there and is too long for the
/// accumulator or does not decode.
pub open spec fn frames_decode_or_fail(frames: Seq<Seq<u8>>, results: Seq<Option<Seq<u8>>>) -> bool {
    &&& frames.len() == results.len()
    &&& forall|i: int| 0 <= i < frames.len() ==> {
        &&& sentinel_terminated(#[trigger] frames[i])
        &&& match results[i] {
            Some(p) => frames[i].len() <= ACCUMULATOR_SIZE && cobs_unframe(frames[i]) == Some(p),
            None => frames[i].len() > ACCUMULATOR_SIZE || cobs_unframe(frames[i]) is None,
        }
    }
}

/// The payloads among `results`, in order.
pub open spec fn kept_payloads(results: Seq<Option<Seq<u8>>>) -> Seq<Seq<u8>>
    decreases results.len(),
{
    if results.len() == 0 {
        Seq::empty()
    } else {
        match results[0] {
            Some(p) => seq![p] + kept_payloads(results.drop_first()),
            None => kept_payloads(results.drop_first()),
        }
    }
}

/// A frame that is too long for the accumulator or does not decode is
/// dropped without harm to the frames after it: a stream of frames, some
/// good and some bad, gives exactly the payloads of the good ones, in
/// order, and leaves nothing buffered.
pub proof fn law_bad_frames_dropped(frames: Seq<Seq<u8>>, results: Seq<Option<Seq<u8>>>)
    requires
        frames_decode_or_fail(frames, results),
    ensures
        spec_drain(Seq::empty(), concat_frames(frames)) == (kept_payloads(results), Seq::<u8>::empty()),
    decreases frames.len(),
{
    if frames.len() == 0 {
        assert(concat_frames(frames) == Seq::<u8>::empty());
    } else {
        let f = frames[0];
        let rest = frames.drop_first();
        let r = concat_frames(rest);
        let window = f + r;
        assert(concat_frames(frames) == window);
        assert(sentinel_terminated(f));
        assert(frames_decode_or_fail(rest, results.drop_first())) by {
            assert forall|i: int| 0 <= i < rest.len() implies {
                &&& sentinel_terminated(#[trigger] rest[i])
                &&& match results.drop_first()[i] {
                    Some(p) => rest[i].len() <= ACCUMULATOR_SIZE && cobs_unframe(rest[i]) == Some(p),
                    None => rest[i].len() > ACCUMULATOR_SIZE || cobs_unframe(rest[i]) is None,
                }
            } by {
                assert(rest[i] == frames[i + 1]);
                assert(results.drop_first()[i] == results[i + 1]);
            }
        }
        law_bad_frames_dropped(rest, results.drop_first());
        match results[0] {
            Some(p) => {
                assert(Seq::<u8>::empty() + f =~= f);
                lemma_feed_completes_frame(Seq::empty(), f, r, p);
            },
            None => {
                let n = f.len() - 1;
                assert forall|j: int| 0 <= j < n implies window[j] != 0 by {
                    assert(window[j] == f[j]);
                }
                assert(window[n] == f[n]);
                lemma_first_zero_at(window, n);
                assert(window.take(n + 1) =~= f);
                assert(Seq::<u8>::empty() + window.take(n + 1) =~= f);
                assert(window.skip(n + 1) =~= r);
            },
        }
    }
}

} // verus!
