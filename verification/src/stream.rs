//! Streamed response bodies: producing them, and gathering them into one
//! buffer.
//!
//! A streamed body is a finite sequence of chunks; each chunk is either a
//! piece of the body or an error marker. Gathering reads the chunks in order
//! and stops at the first marker: what came before it is kept, the marker is
//! dropped without a trace, and nothing after it is looked at. A stream that
//! failed half-way therefore gathers like a shorter stream that ended well.
//! That makes gathering a convenience for buffering and debugging; a consumer
//! that has to tell the two apart reads the chunks itself.
//!
//! The chunks travel through a bounded queue. A producer that finds the
//! queue full keeps its chunk and waits; one that finds the consumer gone
//! learns so once, and can stop the work that feeds the stream.

use vstd::prelude::*;
use bytes::Bytes;
use tokio::sync::mpsc;
use crate::buffer::{bytes_contents, bytes_from_vec, bytes_to_vec, option_contents};
use crate::channel::{max_depth, push_stream, stream_channel, stream_is_closed, Pushed};

verus! {

/// One element of a streamed body: a piece of it, or an error marker.
pub type Chunk = Result<Bytes, String>;

/// The first `n` chunks are all pieces of the body.
pub open spec fn all_ok(items: Seq<Chunk>, n: int) -> bool {
    forall|i: int| 0 <= i < n ==> (#[trigger] items[i]) is Ok
}

/// Reading `items` stops at index `k`: everything before `k` is a piece of
/// the body, and `k` is the first error marker or the end of the sequence.
pub open spec fn stops_at(items: Seq<Chunk>, k: int) -> bool {
    &&& 0 <= k <= items.len()
    &&& all_ok(items, k)
    &&& k < items.len() ==> items[k] is Err
}

/// The number of chunks that are read: the index of the first error marker,
/// or the length of the sequence where it has none.
pub open spec fn readable_len(items: Seq<Chunk>) -> int {
    choose|k: int| stops_at(items, k)
}

/// The pieces that are read, in the order of emission.
pub open spec fn readable(items: Seq<Chunk>) -> Seq<Bytes> {
    Seq::new(readable_len(items) as nat, |i: int| items[i]->Ok_0)
}

/// The bytes of some pieces, one after the other.
pub open spec fn contents(pieces: Seq<Bytes>) -> Seq<u8> {
    pieces.map_values(|b: Bytes| bytes_contents(b)).flatten()
}

/// What gathered pieces amount to: no body where there was no piece at all,
/// else their bytes in order (which may be none, if every piece was empty).
pub open spec fn gathered(pieces: Seq<Bytes>) -> Option<Seq<u8>> {
    if pieces.len() == 0 {
        None
    } else {
        Some(contents(pieces))
    }
}

/// What gathering a whole stream yields.
pub open spec fn collected(items: Seq<Chunk>) -> Option<Seq<u8>> {
    gathered(readable(items))
}

/// The state of a collector after one more event. The event is what the
/// stream's receiving end handed out: `Some` chunk, or `None` at the end.
/// A collector that has stopped stays as it is.
pub open spec fn step(held: Seq<Bytes>, receiving: bool, event: Option<Chunk>) -> (Seq<Bytes>, bool) {
    if !receiving {
        (held, false)
    } else {
        match event {
            Some(Ok(piece)) => (held.push(piece), true),
            _ => (held, false),
        }
    }
}

/// The state of a collector after the chunks `items`, in order.
pub open spec fn feed(held: Seq<Bytes>, receiving: bool, items: Seq<Chunk>) -> (Seq<Bytes>, bool)
    decreases items.len(),
{
    if items.len() == 0 {
        (held, receiving)
    } else {
        let before = feed(held, receiving, items.drop_last());
        step(before.0, before.1, Some(items.last()))
    }
}

/// From a prefix without markers, reading stops somewhere.
proof fn lemma_stop_exists(items: Seq<Chunk>, n: int)
    requires
        0 <= n <= items.len(),
        all_ok(items, n),
    ensures
        exists|k: int| stops_at(items, k),
    decreases items.len() - n,
{
    if n == items.len() || items[n] is Err {
        assert(stops_at(items, n));
    } else {
        lemma_stop_exists(items, n + 1);
    }
}

/// Reading stops at exactly one index.
pub proof fn lemma_stop_unique(items: Seq<Chunk>, k: int)
    requires
        stops_at(items, k),
    ensures
        readable_len(items) == k,
{
    let c = readable_len(items);
    assert(stops_at(items, c));
    if c < k {
        assert(items[c] is Ok);
    } else if k < c {
        assert(items[k] is Ok);
    }
}

/// Reading always stops, within the sequence.
pub proof fn lemma_readable_len(items: Seq<Chunk>)
    ensures
        stops_at(items, readable_len(items)),
        readable(items).len() == readable_len(items),
{
    lemma_stop_exists(items, 0);
}

/// Accumulates the chunks of one streamed body.
///
/// Whoever holds the stream's receiving end hands the collector each event in
/// turn, for as long as `accept` returns `true`, and then asks it to `finish`.
#[derive(Debug)]
pub struct StreamCollector {
    pieces: Vec<Bytes>,
    receiving: bool,
}

impl StreamCollector {
    /// The pieces gathered so far.
    pub closed spec fn held(&self) -> Seq<Bytes> {
        self.pieces@
    }

    /// Whether the collector still takes chunks.
    pub closed spec fn receiving(&self) -> bool {
        self.receiving
    }

    /// A collector that has gathered nothing yet.
    pub fn new() -> (c: StreamCollector)
        ensures
            c.held() == Seq::<Bytes>::empty(),
            c.receiving(),
    {
        StreamCollector { pieces: Vec::new(), receiving: true }
    }

    /// Whether the collector still takes chunks.
    pub fn is_receiving(&self) -> (b: bool)
        ensures
            b == self.receiving(),
    {
        self.receiving
    }

    /// The number of pieces gathered so far.
    pub fn pieces(&self) -> (n: usize)
        ensures
            n == self.held().len(),
    {
        self.pieces.len()
    }

    /// Takes the next event of the stream and says whether another one is
    /// wanted. A piece is kept; an error marker or the end of the stream
    /// stops the collector, and once it has stopped it ignores every event.
    pub fn accept(&mut self, event: Option<Chunk>) -> (more: bool)
        ensures
            (final(self).held(), final(self).receiving()) == step(
                old(self).held(),
                old(self).receiving(),
                event,
            ),
            more == final(self).receiving(),
    {
        if !self.receiving {
            return false;
        }
        match event {
            Some(Ok(piece)) => {
                self.pieces.push(piece);
                true
            },
            _ => {
                self.receiving = false;
                false
            },
        }
    }

    /// Joins what was gathered into one buffer.
    pub fn finish(self) -> (body: Option<Bytes>)
        ensures
            option_contents(body) == gathered(self.held()),
    {
        let n = self.pieces.len();
        if n == 0 {
            return None;
        }
        let mut total: Vec<u8> = Vec::new();
        let mut i: usize = 0;
        while i < n
            invariant
                n == self.pieces@.len(),
                i <= n,
                total@ == contents(self.pieces@.take(i as int)),
            decreases n - i,
        {
            let mut part = bytes_to_vec(&self.pieces[i]);
            total.append(&mut part);
            proof {
                let before = self.pieces@.take(i as int);
                let f = |b: Bytes| bytes_contents(b);
                assert(self.pieces@.take(i + 1) == before.push(self.pieces@[i as int]));
                assert(before.push(self.pieces@[i as int]).map_values(f) == before.map_values(
                    f,
                ).push(bytes_contents(self.pieces@[i as int])));
                before.map_values(f).lemma_flatten_push(bytes_contents(self.pieces@[i as int]));
            }
            i += 1;
        }
        assert(self.pieces@.take(n as int) == self.pieces@);
        Some(bytes_from_vec(total))
    }
}

/// A fresh collector that is handed a whole stream holds the pieces before
/// the first error marker, and has stopped if there was a marker.
pub proof fn lemma_feed(items: Seq<Chunk>)
    ensures
        feed(Seq::empty(), true, items) == (readable(items), readable_len(items) == items.len()),
    decreases items.len(),
{
    lemma_readable_len(items);
    if items.len() == 0 {
        assert(readable(items) =~= Seq::<Bytes>::empty());
    } else {
        let init = items.drop_last();
        let k = readable_len(init);
        lemma_feed(init);
        lemma_readable_len(init);
        assert forall|i: int| 0 <= i < k implies (#[trigger] items[i]) is Ok by {
            assert(init[i] is Ok);
        }
        if k == init.len() {
            if items.last() is Ok {
                assert(stops_at(items, items.len() as int));
                lemma_stop_unique(items, items.len() as int);
                assert(readable(items) =~= readable(init).push(items.last()->Ok_0));
            } else {
                assert(stops_at(items, k));
                lemma_stop_unique(items, k);
                assert(readable(items) =~= readable(init));
            }
        } else {
            assert(init[k] is Err);
            assert(items[k] == init[k]);
            assert(stops_at(items, k));
            lemma_stop_unique(items, k);
            assert(readable(items) =~= readable(init));
        }
    }
}

/// A stream of pieces that ends without an error marker gathers to all of
/// its pieces, joined in the order of emission; only a stream of no chunks at
/// all gathers to nothing.
pub proof fn lemma_clean_stream(items: Seq<Chunk>)
    requires
        all_ok(items, items.len() as int),
    ensures
        readable(items) == items.map_values(|c: Chunk| c->Ok_0),
        items.len() == 0 <==> collected(items) is None,
        items.len() > 0 ==> collected(items) == Some(
            items.map_values(|c: Chunk| bytes_contents(c->Ok_0)).flatten(),
        ),
{
    lemma_stop_unique(items, items.len() as int);
    assert(readable(items) =~= items.map_values(|c: Chunk| c->Ok_0));
    assert(readable(items).map_values(|b: Bytes| bytes_contents(b)) =~= items.map_values(
        |c: Chunk| bytes_contents(c->Ok_0),
    ));
}

/// A stream with an error marker gathers like the pieces before its first
/// marker alone: the marker leaves no trace, whatever follows it changes
/// nothing, and a collector that was handed the marker wants no more.
pub proof fn lemma_error_cuts_stream(head: Seq<Chunk>, marker: String, tail: Seq<Chunk>)
    requires
        all_ok(head, head.len() as int),
    ensures
        readable(head + seq![Err(marker)] + tail) == head.map_values(|c: Chunk| c->Ok_0),
        collected(head + seq![Err(marker)] + tail) == collected(head),
        feed(Seq::empty(), true, head + seq![Err(marker)]) == (readable(head), false),
{
    let marked: Seq<Chunk> = head + seq![Err(marker)];
    let items = marked + tail;
    let k = head.len() as int;
    assert forall|i: int| 0 <= i < k implies (#[trigger] items[i]) is Ok by {
        assert(head[i] is Ok);
    }
    assert(items[k] is Err);
    lemma_stop_unique(items, k);
    lemma_clean_stream(head);
    assert(readable(items) =~= readable(head));
    assert forall|i: int| 0 <= i < k implies (#[trigger] marked[i]) is Ok by {
        assert(head[i] is Ok);
    }
    assert(marked[k] is Err);
    lemma_stop_unique(marked, k);
    lemma_feed(marked);
    assert(readable(marked) =~= readable(head));
}

/// Gathers a stream whose chunks are all at hand: the pieces before the
/// first error marker, joined in order, or nothing if there is no such piece.
pub fn collect_chunks(items: Vec<Chunk>) -> (body: Option<Bytes>)
    ensures
        option_contents(body) == collected(items@),
{
    let ghost all = items@;
    let mut collector = StreamCollector::new();
    for item in iter: items
        invariant
            iter.seq() == all,
            (collector.held(), collector.receiving()) == feed(
                Seq::empty(),
                true,
                all.take(iter.index() as int),
            ),
    {
        proof {
            assert(all.take(iter.index() + 1).drop_last() == all.take(iter.index() as int));
        }
        collector.accept(Some(item));
    }
    proof {
        assert(all.take(all.len() as int) == all);
        lemma_feed(all);
    }
    collector.accept(None);
    collector.finish()
}

/// A stream as a producer may emit it: every chunk but the last is a piece
/// of the body. An error marker ends the stream, so it can only be last.
pub open spec fn well_formed(emitted: Seq<Chunk>) -> bool {
    all_ok(emitted, emitted.len() - 1)
}

/// What became of a chunk that was offered to a stream.
#[derive(Debug)]
pub enum Offer {
    /// The chunk is on its way to the consumer.
    Sent,
    /// The queue is full. The chunk comes back: the producer waits until the
    /// consumer has taken something, and offers it again.
    Full(Chunk),
    /// The consumer is gone. The chunk comes back, and no chunk will be
    /// taken any more.
    Disconnected(Chunk),
    /// The stream has ended with an error marker, and nothing follows one.
    /// The chunk comes back.
    Ended(Chunk),
}

/// The producing end of a streamed body.
///
/// It keeps a stream well formed: once an error marker has been sent it
/// takes nothing more. And it reports a consumer that went away before the
/// stream had ended, exactly once.
pub struct StreamProducer {
    sender: mpsc::Sender<Chunk>,
    sent: Emission,
    disconnected: bool,
    reported: bool,
}

/// What a producer has sent: the chunks, and whether the last of them was an
/// error marker.
struct Emission {
    emitted: Ghost<Seq<Chunk>>,
    ended: bool,
}

impl StreamProducer {
    #[verifier::type_invariant]
    closed spec fn inv(&self) -> bool {
        self.wf()
    }

    /// The sending end of the queue that carries the chunks.
    pub closed spec fn queue(&self) -> mpsc::Sender<Chunk> {
        self.sender
    }

    /// The chunks sent so far, in order.
    pub closed spec fn emitted(&self) -> Seq<Chunk> {
        self.sent.emitted@
    }

    /// Whether an error marker has been sent.
    pub closed spec fn ended(&self) -> bool {
        self.sent.ended
    }

    /// Whether the consumer was found gone.
    pub closed spec fn disconnected(&self) -> bool {
        self.disconnected
    }

    /// Whether the consumer's going away has been reported.
    pub closed spec fn reported(&self) -> bool {
        self.reported
    }

    /// What holds of every producer: what was sent is a well-formed stream,
    /// it has ended exactly if its last chunk is an error marker, and only a
    /// disconnect that was found can have been reported.
    pub open spec fn wf(&self) -> bool {
        &&& well_formed(self.emitted())
        &&& self.ended() <==> (self.emitted().len() > 0 && self.emitted().last() is Err)
        &&& self.reported() ==> self.disconnected()
    }

    /// Opens a stream over a bounded queue of the given depth, and hands out
    /// its two ends. There is no queue of depth zero, nor one deeper than
    /// `max_depth()`.
    pub fn open(depth: usize) -> (ends: Option<(StreamProducer, mpsc::Receiver<Chunk>)>)
        ensures
            ends is Some <==> 0 < depth <= max_depth(),
            ends matches Some(pair) ==> pair.0.wf() && pair.0.emitted().len() == 0
                && !pair.0.disconnected() && !pair.0.reported(),
    {
        if depth == 0 || depth > usize::MAX / 8 {
            return None;
        }
        let (sender, receiver) = stream_channel(depth);
        let producer = StreamProducer {
            sender,
            sent: Emission { emitted: Ghost(Seq::empty()), ended: false },
            disconnected: false,
            reported: false,
        };
        Some((producer, receiver))
    }

    /// Whether an error marker has been sent.
    pub fn has_ended(&self) -> (b: bool)
        ensures
            b == self.ended(),
            self.wf(),
    {
        proof {
            use_type_invariant(self);
        }
        self.sent.ended
    }

    /// The sending end of the queue. It is for waiting only: for room in a
    /// full queue, or for the consumer to go away. Chunks go through `offer`,
    /// which keeps the stream well formed.
    pub fn sending_end(&self) -> (end: &mpsc::Sender<Chunk>)
        ensures
            *end == self.queue(),
            self.wf(),
    {
        proof {
            use_type_invariant(self);
        }
        &self.sender
    }

    /// Whether the consumer was found gone.
    pub fn is_disconnected(&self) -> (b: bool)
        ensures
            b == self.disconnected(),
            self.wf(),
    {
        proof {
            use_type_invariant(self);
        }
        self.disconnected
    }

    /// Takes the queue's answer to a chunk that was offered, and says what
    /// became of the chunk: in the queue it counts as emitted, and an error
    /// marker among the emitted ends the stream; from a full queue it comes
    /// back and nothing changes; from a queue whose consumer is gone it
    /// comes back and the producer knows of the disconnect. `offered` is the
    /// chunk that was handed to the queue, `marker` whether it was an error
    /// marker.
    pub fn record(&mut self, pushed: Pushed<Chunk>, offered: Ghost<Chunk>, marker: bool) -> (offer:
        Offer)
        requires
            !old(self).ended(),
            !old(self).disconnected(),
            marker == (offered@ is Err),
            pushed matches Pushed::Full(returned) ==> returned == offered@,
            pushed matches Pushed::Closed(returned) ==> returned == offered@,
        ensures
            old(self).wf(),
            final(self).wf(),
            final(self).reported() == old(self).reported(),
            offer == (match pushed {
                Pushed::Queued => Offer::Sent,
                Pushed::Full(returned) => Offer::Full(returned),
                Pushed::Closed(returned) => Offer::Disconnected(returned),
            }),
            final(self).emitted() == (if pushed is Queued {
                old(self).emitted().push(offered@)
            } else {
                old(self).emitted()
            }),
            final(self).disconnected() == (pushed is Closed),
    {
        proof {
            use_type_invariant(&*self);
        }
        match pushed {
            Pushed::Queued => {
                let ghost before = self.sent.emitted@;
                let ghost after = before.push(offered@);
                proof {
                    assert forall|i: int| 0 <= i < after.len() - 1 implies (#[trigger] after[i])
                        is Ok by {
                        if i < before.len() - 1 {
                            assert(before[i] is Ok);
                        }
                    }
                }
                self.sent = Emission { emitted: Ghost(after), ended: marker };
                Offer::Sent
            },
            Pushed::Full(returned) => Offer::Full(returned),
            Pushed::Closed(returned) => {
                self.disconnected = true;
                Offer::Disconnected(returned)
            },
        }
    }

    /// Offers the next chunk without waiting. After an error marker nothing
    /// is taken, and once the consumer was found gone nothing is tried.
    /// Otherwise the chunk is handed to the queue, and `record` says what
    /// the queue's answer means: the chunk is sent, or it comes back because
    /// the queue is full or the consumer gone. Only a chunk that was sent
    /// counts as emitted.
    pub fn offer(&mut self, chunk: Chunk) -> (offer: Offer)
        ensures
            old(self).wf(),
            final(self).wf(),
            final(self).reported() == old(self).reported(),
            old(self).ended() ==> offer == Offer::Ended(chunk),
            !old(self).ended() && old(self).disconnected() ==> offer == Offer::Disconnected(chunk),
            (match offer {
                Offer::Sent => {
                    &&& final(self).emitted() == old(self).emitted().push(chunk)
                    &&& final(self).disconnected() == old(self).disconnected()
                },
                Offer::Full(returned) => {
                    &&& returned == chunk
                    &&& final(self).emitted() == old(self).emitted()
                    &&& final(self).disconnected() == old(self).disconnected()
                },
                Offer::Disconnected(returned) => {
                    &&& returned == chunk
                    &&& final(self).emitted() == old(self).emitted()
                    &&& final(self).disconnected()
                },
                Offer::Ended(returned) => {
                    &&& returned == chunk
                    &&& old(self).ended()
                    &&& final(self).emitted() == old(self).emitted()
                    &&& final(self).disconnected() == old(self).disconnected()
                },
            }),
    {
        proof {
            use_type_invariant(&*self);
        }
        if self.sent.ended {
            return Offer::Ended(chunk);
        }
        if self.disconnected {
            return Offer::Disconnected(chunk);
        }
        let marker = chunk.is_err();
        let pushed = push_stream(&self.sender, chunk);
        self.record(pushed, Ghost(chunk), marker)
    }

    /// Takes the sending end's answer to whether the consumer is gone, and
    /// says whether this is the moment to report it. The report is made
    /// once, for a consumer that is gone (as `closed` says now, or as an
    /// earlier offer found) while the stream is still under way. A stream
    /// that has ended, or a disconnect that was reported, gives no signal
    /// and changes nothing.
    pub fn note_closed(&mut self, closed: bool) -> (gone: bool)
        ensures
            old(self).wf(),
            final(self).wf(),
            final(self).emitted() == old(self).emitted(),
            old(self).reported() || old(self).ended() ==> !gone && final(self).reported() == old(
                self,
            ).reported() && final(self).disconnected() == old(self).disconnected(),
            !old(self).reported() && !old(self).ended() ==> gone == (old(self).disconnected()
                || closed) && final(self).disconnected() == (old(self).disconnected() || closed)
                && final(self).reported() == gone,
    {
        proof {
            use_type_invariant(&*self);
        }
        if self.reported || self.sent.ended {
            return false;
        }
        if closed {
            self.disconnected = true;
        }
        if self.disconnected {
            self.reported = true;
            true
        } else {
            false
        }
    }

    /// Asks whether the consumer went away while the stream was still under
    /// way: it asks the sending end, unless a disconnect is known already or
    /// no signal is due any more, and lets `note_closed` decide. The answer
    /// is `true` at most once: it is the signal to stop producing. A stream
    /// that has ended gives no signal.
    pub fn poll_disconnect(&mut self) -> (gone: bool)
        ensures
            old(self).wf(),
            final(self).wf(),
            final(self).emitted() == old(self).emitted(),
            old(self).reported() || old(self).ended() ==> !gone && final(self).reported() == old(
                self,
            ).reported() && final(self).disconnected() == old(self).disconnected(),
            old(self).disconnected() && !old(self).reported() && !old(self).ended() ==> gone,
            gone ==> final(self).disconnected() && final(self).reported() && !old(self).reported(),
            !gone ==> final(self).reported() == old(self).reported(),
    {
        proof {
            use_type_invariant(&*self);
        }
        let closed = if self.reported || self.sent.ended || self.disconnected {
            false
        } else {
            stream_is_closed(&self.sender)
        };
        self.note_closed(closed)
    }

    /// What a producer has emitted is gathered in full, up to the error
    /// marker if it ended with one: no piece of it is lost behind a marker.
    pub proof fn lemma_emitted_is_read(&self)
        requires
            self.wf(),
        ensures
            readable_len(self.emitted()) == (if self.ended() {
                self.emitted().len() - 1
            } else {
                self.emitted().len() as int
            }),
    {
        let emitted = self.emitted();
        if self.ended() {
            assert(stops_at(emitted, emitted.len() - 1));
            lemma_stop_unique(emitted, emitted.len() - 1);
        } else {
            assert forall|i: int| 0 <= i < emitted.len() implies (#[trigger] emitted[i]) is Ok by {
                if i < emitted.len() - 1 {
                } else {
                    assert(emitted[i] == emitted.last());
                }
            }
            assert(stops_at(emitted, emitted.len() as int));
            lemma_stop_unique(emitted, emitted.len() as int);
        }
    }
}

} // verus!
