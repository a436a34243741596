use vstd::prelude::*;
use vstd::rwlock::RwLock;
use vstd::rwlock::RwLockPredicate;

use crate::errors::HalError;

verus! {

/// One frame received from the secure channel: a payload, and a continuation
/// flag that is set exactly when more frames of the same response follow.
pub struct Fragment {
    pub more: bool,
    pub payload: Vec<u8>,
}

/// What one receive on the raw channel produced: a frame, or a failure of
/// the receive itself.
pub enum RecvEvent {
    Frame(Fragment),
    Failed,
}

/// The payloads of a fragment sequence, concatenated in arrival order.
pub open spec fn concat_payloads(frags: Seq<Fragment>) -> Seq<u8>
    decreases frags.len(),
{
    if frags.len() == 0 {
        Seq::empty()
    } else {
        frags.first().payload@ + concat_payloads(frags.drop_first())
    }
}

/// A well-formed complete response: at least one fragment, every fragment
/// but the last announces a continuation, and the last one does not.
pub open spec fn complete_response(frags: Seq<Fragment>) -> bool {
    &&& frags.len() > 0
    &&& forall|i: int| 0 <= i < frags.len() - 1 ==> frags[i].more
    &&& !frags[frags.len() - 1].more
}

/// What one exchange returns, given the receive events the channel yields in
/// arrival order: the concatenation of the payloads up to and including the
/// first frame whose continuation flag is clear, or a transport failure if a
/// receive fails (or the channel yields nothing more) before that frame.
pub open spec fn exchange_result(events: Seq<RecvEvent>) -> Result<Seq<u8>, HalError>
    decreases events.len(),
{
    if events.len() == 0 {
        Err(HalError::TransportFailure)
    } else {
        match events.first() {
            RecvEvent::Failed => Err(HalError::TransportFailure),
            RecvEvent::Frame(f) => if !f.more {
                Ok(f.payload@)
            } else {
                match exchange_result(events.drop_first()) {
                    Ok(rest) => Ok(f.payload@ + rest),
                    Err(e) => Err(e),
                }
            },
        }
    }
}

/// Splits one logical message into wire frames: every frame carries at most
/// `max_fragment_size` bytes, every frame but the last announces a
/// continuation, and the payloads concatenate back to exactly the message.
/// An empty message still crosses as one (empty) final frame, so the peer
/// always sees where the message ends.
pub fn split_into_frames(message: &Vec<u8>, max_fragment_size: usize) -> (frames: Vec<Fragment>)
    requires
        max_fragment_size > 0,
    ensures
        complete_response(frames@),
        forall|i: int| 0 <= i < frames@.len() ==> frames@[i].payload@.len() <= max_fragment_size,
        concat_payloads(frames@) == message@,
{
    let mut frames: Vec<Fragment> = Vec::new();
    let mut pos: usize = 0;
    while message.len() - pos > max_fragment_size
        invariant
            max_fragment_size > 0,
            pos <= message@.len(),
            concat_payloads(frames@) == message@.take(pos as int),
            forall|i: int| 0 <= i < frames@.len() ==> frames@[i].more,
            forall|i: int|
                0 <= i < frames@.len() ==> frames@[i].payload@.len() <= max_fragment_size,
        decreases message@.len() - pos,
    {
        let chunk = copy_range(message, pos, max_fragment_size);
        proof {
            lemma_concat_payloads_push(
                frames@,
                Fragment { more: true, payload: chunk },
            );
        }
        frames.push(Fragment { more: true, payload: chunk });
        pos = pos + max_fragment_size;
        assert(concat_payloads(frames@) =~= message@.take(pos as int));
    }
    let last_chunk = copy_range(message, pos, message.len() - pos);
    proof {
        lemma_concat_payloads_push(
            frames@,
            Fragment { more: false, payload: last_chunk },
        );
    }
    frames.push(Fragment { more: false, payload: last_chunk });
    assert(concat_payloads(frames@) =~= message@);
    frames
}

/// Copies `count` bytes of `source` starting at `start` into a fresh vector.
fn copy_range(source: &Vec<u8>, start: usize, count: usize) -> (chunk: Vec<u8>)
    requires
        start + count <= source@.len(),
    ensures
        chunk@ == source@.subrange(start as int, start as int + count as int),
{
    let mut chunk: Vec<u8> = Vec::new();
    let source_len: usize = source.len();
    assert(start + count <= source_len);
    let end: usize = start + count;
    let mut j: usize = start;
    while j < end
        invariant
            start <= j <= end,
            end <= source@.len(),
            chunk@ == source@.subrange(start as int, j as int),
        decreases end - j,
    {
        chunk.push(source[j]);
        j = j + 1;
        assert(chunk@ =~= source@.subrange(start as int, j as int));
    }
    chunk
}

proof fn lemma_concat_payloads_push(frags: Seq<Fragment>, frag: Fragment)
    ensures
        concat_payloads(frags.push(frag)) == concat_payloads(frags) + frag.payload@,
    decreases frags.len(),
{
    if frags.len() == 0 {
        assert(frags.push(frag).first() == frag);
        assert(frags.push(frag).drop_first() =~= Seq::<Fragment>::empty());
        assert(concat_payloads(Seq::<Fragment>::empty()) == Seq::<u8>::empty());
        assert(concat_payloads(frags) == Seq::<u8>::empty());
        assert(frag.payload@ + Seq::<u8>::empty() =~= frag.payload@);
        assert(Seq::<u8>::empty() + frag.payload@ =~= frag.payload@);
    } else {
        assert(frags.push(frag).first() == frags.first());
        assert(frags.push(frag).drop_first() =~= frags.drop_first().push(frag));
        lemma_concat_payloads_push(frags.drop_first(), frag);
        assert(frags.first().payload@ + (concat_payloads(frags.drop_first()) + frag.payload@)
            =~= (frags.first().payload@ + concat_payloads(frags.drop_first())) + frag.payload@);
    }
}

/// Reassembly state for one in-flight exchange: the response collected so
/// far, and whether the final frame has arrived.
pub struct Reassembler {
    response: Vec<u8>,
    complete: bool,
}

impl Reassembler {
    /// The bytes collected so far, in arrival order.
    pub closed spec fn collected(self) -> Seq<u8> {
        self.response@
    }

    /// Whether a frame without the continuation flag has been absorbed.
    pub closed spec fn is_complete(self) -> bool {
        self.complete
    }

    pub fn new() -> (r: Reassembler)
        ensures
            r.collected() == Seq::<u8>::empty(),
            !r.is_complete(),
    {
        Reassembler { response: Vec::new(), complete: false }
    }

    /// Absorbs one received frame: appends its payload to the response and
    /// records whether this was the final frame.
    pub fn absorb(&mut self, frag: &Fragment)
        requires
            !old(self).is_complete(),
        ensures
            final(self).collected() == old(self).collected() + frag.payload@,
            final(self).is_complete() == !frag.more,
    {
        let mut i: usize = 0;
        while i < frag.payload.len()
            invariant
                i <= frag.payload.len(),
                self.response@ == old(self).response@ + frag.payload@.take(i as int),
                self.complete == old(self).complete,
            decreases frag.payload.len() - i,
        {
            self.response.push(frag.payload[i]);
            i = i + 1;
            assert(frag.payload@.take(i as int) == frag.payload@.take(i - 1).push(frag.payload@[i - 1]));
        }
        assert(frag.payload@.take(frag.payload@.len() as int) == frag.payload@);
        self.complete = !frag.more;
    }

    /// Hands the reassembled response out once it is complete.
    pub fn into_response(self) -> (r: Vec<u8>)
        requires
            self.is_complete(),
        ensures
            r@ == self.collected(),
    {
        self.response
    }
}

/// One frame crossing the channel, as the channel's model trace records it.
pub enum FrameEvent {
    Sent { payload: Seq<u8> },
    Received { payload: Seq<u8>, more: bool },
}

/// The receive events one exchange consumes, as trace records: every frame
/// up to and including the one whose continuation flag is clear.  A failed
/// receive, or the channel yielding nothing more, crosses no frame.
pub open spec fn received_block(events: Seq<RecvEvent>) -> Seq<FrameEvent>
    decreases events.len(),
{
    if events.len() == 0 {
        Seq::empty()
    } else {
        match events.first() {
            RecvEvent::Failed => Seq::empty(),
            RecvEvent::Frame(f) => {
                let head = seq![FrameEvent::Received { payload: f.payload@, more: f.more }];
                if !f.more {
                    head
                } else {
                    head + received_block(events.drop_first())
                }
            },
        }
    }
}

/// The contiguous block one exchange appends to the channel trace: the
/// request frame, then the received frames of its response.  A failed send
/// crosses nothing.
pub open spec fn exchange_block(request: Seq<u8>, send_ok: bool, events: Seq<RecvEvent>) -> Seq<
    FrameEvent,
> {
    if send_ok {
        seq![FrameEvent::Sent { payload: request }] + received_block(events)
    } else {
        Seq::empty()
    }
}

/// What one exchange returns, the send outcome included.
pub open spec fn exchange_outcome(send_ok: bool, events: Seq<RecvEvent>) -> Result<
    Seq<u8>,
    HalError,
> {
    if send_ok {
        exchange_result(events)
    } else {
        Err(HalError::TransportFailure)
    }
}

/// The model of the one point-to-point channel to the trusted application,
/// shared by every service facade.  Exchanges on it are serialized: `execute`
/// holds the channel, through its exclusive borrow, for the full duration of
/// one request/response cycle, and the trace records each exchange as one
/// contiguous block of frames.
pub struct Channel {
    /// Whether the connection to the trusted endpoint is open.  It is opened
    /// once at startup and never reopened on failure.
    pub connected: bool,
    /// The largest payload one frame may carry.
    pub max_fragment_size: usize,
    /// Every frame that has crossed the channel, oldest first.
    pub trace: Ghost<Seq<FrameEvent>>,
}

impl Channel {
    pub fn new(max_fragment_size: usize) -> (c: Channel)
        requires
            max_fragment_size > 0,
        ensures
            c.connected,
            c.max_fragment_size == max_fragment_size,
            c.trace@ == Seq::<FrameEvent>::empty(),
    {
        Channel { connected: true, max_fragment_size, trace: Ghost(Seq::empty()) }
    }

    /// Performs one request/response exchange.  The request crosses as one
    /// frame (`send_ok` says whether the send succeeded); the response is
    /// reassembled from `events`, what each successive receive on the raw
    /// channel produced, in arrival order.  Reassembly is all-or-nothing: on
    /// any transport failure no partial response is returned.  The exchange
    /// appends exactly one contiguous block to the channel trace, so frames
    /// of distinct exchanges never interleave.
    pub fn execute(&mut self, request: &Vec<u8>, send_ok: bool, events: &Vec<RecvEvent>) -> (r:
        Result<Vec<u8>, HalError>)
        requires
            old(self).connected,
            0 < request@.len() <= old(self).max_fragment_size,
        ensures
            final(self).connected == old(self).connected,
            final(self).max_fragment_size == old(self).max_fragment_size,
            final(self).trace@ == old(self).trace@ + exchange_block(request@, send_ok, events@),
            r is Ok <==> exchange_outcome(send_ok, events@) is Ok,
            r is Ok ==> r.unwrap()@ == exchange_outcome(send_ok, events@).unwrap(),
            r is Err ==> r == Err::<Vec<u8>, HalError>(HalError::TransportFailure),
    {
        if !send_ok {
            assert(self.trace@ =~= old(self).trace@ + exchange_block(request@, false, events@));
            return Err(HalError::TransportFailure);
        }
        let ghost sent: Seq<FrameEvent> = seq![FrameEvent::Sent { payload: request@ }];
        self.trace = Ghost(self.trace@ + sent);
        let mut reassembler = Reassembler::new();
        let ghost mut rec: Seq<FrameEvent> = Seq::empty();
        let mut idx: usize = 0;
        proof {
            assert(events@.skip(0) =~= events@);
            assert(rec + received_block(events@) =~= received_block(events@));
            lemma_extend_result_empty(exchange_result(events@));
        }
        loop
            invariant
                send_ok,
                self.connected == old(self).connected,
                self.max_fragment_size == old(self).max_fragment_size,
                0 <= idx <= events@.len(),
                !reassembler.is_complete(),
                self.trace@ == old(self).trace@ + sent + rec,
                received_block(events@) == rec + received_block(events@.skip(idx as int)),
                exchange_result(events@) == extend_result(
                    reassembler.collected(),
                    exchange_result(events@.skip(idx as int)),
                ),
                sent == seq![FrameEvent::Sent { payload: request@ }],
            decreases events@.len() - idx,
        {
            let ghost rest = events@.skip(idx as int);
            if idx >= events.len() {
                proof {
                    assert(rest =~= Seq::<RecvEvent>::empty());
                    assert(received_block(events@) =~= rec);
                    lemma_block_assoc(old(self).trace@, sent, rec);
                }
                return Err(HalError::TransportFailure);
            }
            assert(rest.first() == events@[idx as int]);
            assert(rest.drop_first() =~= events@.skip(idx as int + 1));
            match &events[idx] {
                RecvEvent::Failed => {
                    proof {
                        assert(received_block(events@) =~= rec);
                        lemma_block_assoc(old(self).trace@, sent, rec);
                    }
                    return Err(HalError::TransportFailure);
                },
                RecvEvent::Frame(f) => {
                    let ghost frame = FrameEvent::Received { payload: f.payload@, more: f.more };
                    let ghost before = reassembler.collected();
                    reassembler.absorb(f);
                    self.trace = Ghost(self.trace@ + seq![frame]);
                    proof {
                        assert(old(self).trace@ + sent + rec + seq![frame] =~= old(self).trace@
                            + sent + (rec + seq![frame]));
                        rec = rec + seq![frame];
                    }
                    if !f.more {
                        proof {
                            assert(received_block(rest) =~= seq![frame]);
                            assert(received_block(events@) =~= rec);
                            lemma_block_assoc(old(self).trace@, sent, rec);
                            assert(before + f.payload@ == reassembler.collected());
                        }
                        let response = reassembler.into_response();
                        return Ok(response);
                    }
                    idx = idx + 1;
                    proof {
                        let tail = exchange_result(events@.skip(idx as int));
                        assert(exchange_result(rest) == extend_result(f.payload@, tail));
                        lemma_extend_result_assoc(before, f.payload@, tail);
                        assert(received_block(rest) == seq![frame] + received_block(
                            events@.skip(idx as int),
                        ));
                        assert(received_block(events@) =~= rec + received_block(
                            events@.skip(idx as int),
                        ));
                    }
                },
            }
        }
    }
}

/// Reassembly correctness: for a response split into fragments whose
/// continuation flags are set on every fragment but the last and clear on
/// the last, an exchange whose receives yield exactly those fragments
/// returns their payloads concatenated in arrival order — nothing dropped,
/// nothing reordered.
pub proof fn lemma_reassembly_returns_concatenation(frags: Seq<Fragment>)
    requires
        complete_response(frags),
    ensures
        exchange_result(frags.map(|i: int, f: Fragment| RecvEvent::Frame(f))) == Ok::<
            Seq<u8>,
            HalError,
        >(concat_payloads(frags)),
    decreases frags.len(),
{
    let events = frags.map(|i: int, f: Fragment| RecvEvent::Frame(f));
    assert(events.first() == RecvEvent::Frame(frags.first()));
    if frags.len() == 1 {
        assert(!frags.first().more);
        assert(concat_payloads(frags.drop_first()) == Seq::<u8>::empty());
        assert(frags.first().payload@ + Seq::<u8>::empty() =~= frags.first().payload@);
    } else {
        assert(frags.first().more);
        let tail = frags.drop_first();
        assert(complete_response(tail)) by {
            assert(forall|i: int| 0 <= i < tail.len() - 1 ==> tail[i] == frags[i + 1]
                && tail[i].more);
            assert(tail[tail.len() - 1] == frags[frags.len() - 1]);
        }
        lemma_reassembly_returns_concatenation(tail);
        assert(events.drop_first() =~= tail.map(|i: int, f: Fragment| RecvEvent::Frame(f)));
    }
}

/// Mutual exclusion on the shared channel: `execute` appends one contiguous
/// block of frames to the trace and holds the channel, through its exclusive
/// borrow, for the whole exchange, so two exchanges can only run one after
/// the other.  In the trace they leave behind, every frame of the first
/// exchange stands strictly before every frame of the second, each block
/// intact — no interleaving is possible.
pub proof fn lemma_exchanges_never_interleave(
    base: Seq<FrameEvent>,
    first_block: Seq<FrameEvent>,
    second_block: Seq<FrameEvent>,
)
    ensures
        forall|i: int, j: int|
            base.len() <= i < base.len() + first_block.len() && base.len() + first_block.len()
                <= j < base.len() + first_block.len() + second_block.len() ==> i < j && (base
                + first_block + second_block)[i] == first_block[i - base.len()] && (base
                + first_block + second_block)[j] == second_block[j - base.len()
                - first_block.len()],
{
}

proof fn lemma_extend_result_empty(rest: Result<Seq<u8>, HalError>)
    ensures
        extend_result(Seq::empty(), rest) == rest,
{
    match rest {
        Ok(bytes) => {
            assert(Seq::<u8>::empty() + bytes =~= bytes);
        },
        Err(_) => {},
    }
}

proof fn lemma_block_assoc(base: Seq<FrameEvent>, sent: Seq<FrameEvent>, rec: Seq<FrameEvent>)
    ensures
        base + sent + rec == base + (sent + rec),
{
    assert(base + sent + rec =~= base + (sent + rec));
}

/// The invariant the multiplexer keeps on the shared channel: it stays
/// connected and its frame size limit never changes.
pub struct MultiplexerPred {
    pub max_fragment_size: usize,
}

impl RwLockPredicate<Channel> for MultiplexerPred {
    open spec fn inv(self, channel: Channel) -> bool {
        channel.connected && channel.max_fragment_size == self.max_fragment_size
    }
}

/// The sole serialization point for the physical channel.  Every service
/// facade shares one multiplexer; an exchange acquires the exclusive lock
/// before its send and releases it only after the final frame of its
/// response, so at most one exchange is ever in flight and a new request
/// cannot go out while the previous response is partially drained.  Ordering
/// among waiting callers is not promised.
pub struct ChannelMultiplexer {
    max_fragment_size: usize,
    channel_lock: RwLock<Channel, MultiplexerPred>,
}

impl ChannelMultiplexer {
    /// The largest payload one frame may carry, fixed at startup.
    pub closed spec fn spec_max_fragment_size(self) -> usize {
        self.max_fragment_size
    }

    #[verifier::type_invariant]
    closed spec fn wf(self) -> bool {
        self.channel_lock.pred() == (MultiplexerPred {
            max_fragment_size: self.max_fragment_size,
        })
    }

    /// Connects the one channel to the trusted endpoint and wraps it for
    /// shared use.
    pub fn new(max_fragment_size: usize) -> (m: ChannelMultiplexer)
        requires
            max_fragment_size > 0,
        ensures
            m.spec_max_fragment_size() == max_fragment_size,
    {
        let channel = Channel::new(max_fragment_size);
        let channel_lock = RwLock::new(channel, Ghost(MultiplexerPred { max_fragment_size }));
        ChannelMultiplexer { max_fragment_size, channel_lock }
    }

    pub fn max_fragment_size(&self) -> (r: usize)
        ensures
            r == self.spec_max_fragment_size(),
    {
        self.max_fragment_size
    }

    /// One serialized exchange.  A shared reference suffices: concurrent
    /// callers are admitted one at a time by the lock, each holding the
    /// channel for its full request/response cycle.
    pub fn execute(&self, request: &Vec<u8>, send_ok: bool, events: &Vec<RecvEvent>) -> (r: Result<
        Vec<u8>,
        HalError,
    >)
        requires
            0 < request@.len() <= self.spec_max_fragment_size(),
        ensures
            r is Ok <==> exchange_outcome(send_ok, events@) is Ok,
            r is Ok ==> r.unwrap()@ == exchange_outcome(send_ok, events@).unwrap(),
            r is Err ==> r == Err::<Vec<u8>, HalError>(HalError::TransportFailure),
    {
        proof {
            use_type_invariant(self);
        }
        let (mut channel, write_handle) = self.channel_lock.acquire_write();
        let result = channel.execute(request, send_ok, events);
        write_handle.release_write(channel);
        result
    }
}

/// Prepends already-collected bytes to the outcome of the rest of an
/// exchange.
pub open spec fn extend_result(prefix: Seq<u8>, rest: Result<Seq<u8>, HalError>) -> Result<
    Seq<u8>,
    HalError,
> {
    match rest {
        Ok(bytes) => Ok(prefix + bytes),
        Err(e) => Err(e),
    }
}

proof fn lemma_extend_result_assoc(a: Seq<u8>, b: Seq<u8>, rest: Result<Seq<u8>, HalError>)
    ensures
        extend_result(a, extend_result(b, rest)) == extend_result(a + b, rest),
{
    match rest {
        Ok(bytes) => {
            assert(a + (b + bytes) =~= (a + b) + bytes);
        },
        Err(_) => {},
    }
}

} // verus!
