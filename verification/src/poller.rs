//! Cutting a stream of bytes into JSON documents.
//!
//! The poller keeps the bytes that do not yet make up a whole document,
//! hands out every document as soon as its last byte has arrived, and tags
//! the first document of a connection as the handshake.

use crate::finder::{
    fresh, joined, lemma_document_ends_with_brace, lemma_no_brace_no_end, lemma_scan_bounds,
    lemma_scan_split, scan, JsonFinder, CLOSE_BRACE,
};
use vstd::prelude::*;
use vstd::slice::{slice_subrange, slice_to_vec};

verus! {

/// A message, by its place in the stream: the first one of a connection
/// is the handshake, every other one is data.
#[derive(Debug, PartialEq, Eq)]
pub enum Packet<Handshake, Data> {
    /// The first message of a connection.
    Handshake(Handshake),
    /// A message after the handshake.
    Data(Data),
}

/// A document as the poller hands it out: the bytes, not yet decoded.
pub type RawPacket = Packet<Vec<u8>, Vec<u8>>;

/// The bytes of a raw packet, as a mathematical sequence.
pub open spec fn payload(packet: RawPacket) -> Packet<Seq<u8>, Seq<u8>> {
    match packet {
        Packet::Handshake(bytes) => Packet::Handshake(bytes@),
        Packet::Data(bytes) => Packet::Data(bytes@),
    }
}

/// The bytes of each raw packet.
pub open spec fn payloads(packets: Seq<RawPacket>) -> Seq<Packet<Seq<u8>, Seq<u8>>> {
    packets.map_values(|packet: RawPacket| payload(packet))
}

/// Whether `stream` holds a complete document.
pub open spec fn has_document(stream: Seq<u8>) -> bool {
    scan(fresh(), stream).1
}

/// The length of the first document of `stream`, its closing byte
/// included, where `stream` holds a complete document.
pub open spec fn first_len(stream: Seq<u8>) -> int {
    scan(fresh(), stream).0.length as int + 1
}

/// The documents that `stream` holds in full, in order. Each one runs up
/// to and including its closing byte, and the next one starts right
/// behind it.
pub open spec fn documents(stream: Seq<u8>) -> Seq<Seq<u8>>
    decreases stream.len(),
{
    if has_document(stream) {
        proof {
            lemma_scan_bounds(fresh(), stream);
        }
        seq![stream.take(first_len(stream))] + documents(stream.skip(first_len(stream)))
    } else {
        Seq::empty()
    }
}

/// What is left of `stream` behind its last complete document.
pub open spec fn remainder(stream: Seq<u8>) -> Seq<u8>
    decreases stream.len(),
{
    if has_document(stream) {
        proof {
            lemma_scan_bounds(fresh(), stream);
        }
        remainder(stream.skip(first_len(stream)))
    } else {
        stream
    }
}

/// The documents as packets: the first is the handshake unless the
/// handshake has already been seen.
pub open spec fn tagged(docs: Seq<Seq<u8>>, handshake_complete: bool) -> Seq<
    Packet<Seq<u8>, Seq<u8>>,
> {
    Seq::new(
        docs.len(),
        |i: int|
            if i == 0 && !handshake_complete {
                Packet::Handshake(docs[i])
            } else {
                Packet::Data(docs[i])
            },
    )
}

/// The packets whose document was decoded, in order: a packet that holds
/// no value is left out.
pub open spec fn kept<Handshake, Data>(
    attempts: Seq<Packet<Option<Handshake>, Option<Data>>>,
) -> Seq<Packet<Handshake, Data>>
    decreases attempts.len(),
{
    if attempts.len() == 0 {
        Seq::empty()
    } else {
        match attempts.last() {
            Packet::Handshake(Some(value)) => kept(attempts.drop_last()).push(
                Packet::Handshake(value),
            ),
            Packet::Data(Some(value)) => kept(attempts.drop_last()).push(Packet::Data(value)),
            _ => kept(attempts.drop_last()),
        }
    }
}

/// Keeps the packets whose document was decoded. A document that could
/// not be decoded is dropped, alone: the packets before and behind it
/// stay, in their order and with their tags.
pub fn keep_decoded<Handshake, Data>(
    attempts: Vec<Packet<Option<Handshake>, Option<Data>>>,
) -> (packets: Vec<Packet<Handshake, Data>>)
    ensures
        packets@ == kept(attempts@),
{
    let mut packets: Vec<Packet<Handshake, Data>> = Vec::new();
    let ghost all = attempts@;
    for attempt in it: attempts
        invariant
            it.seq() == all,
            packets@ == kept(all.take(it.index() as int)),
    {
        proof {
            assert(all.take(it.index() + 1).drop_last() =~= all.take(it.index() as int));
        }
        match attempt {
            Packet::Handshake(Some(value)) => {
                packets.push(Packet::Handshake(value));
            },
            Packet::Data(Some(value)) => {
                packets.push(Packet::Data(value));
            },
            _ => {},
        }
    }
    proof {
        assert(all.take(all.len() as int) =~= all);
    }
    packets
}

/// The mathematical state of a poller.
pub struct PollerView {
    /// The bytes received that belong to no complete document yet.
    pub pending: Seq<u8>,
    /// Whether a document has been found on this connection.
    pub handshake_complete: bool,
}

/// The poller of a new connection.
pub open spec fn idle() -> PollerView {
    PollerView { pending: Seq::empty(), handshake_complete: false }
}

/// What one chunk does to a poller: the state after it, and the packets
/// it completes.
pub open spec fn polled(p: PollerView, data: Seq<u8>) -> (PollerView, Seq<Packet<Seq<u8>, Seq<u8>>>) {
    let docs = documents(p.pending + data);
    (
        PollerView {
            pending: remainder(p.pending + data),
            handshake_complete: p.handshake_complete || docs.len() > 0,
        },
        tagged(docs, p.handshake_complete),
    )
}

/// What a series of chunks does to a poller, fed one after the other.
pub open spec fn polled_chunks(p: PollerView, chunks: Seq<Seq<u8>>) -> (
    PollerView,
    Seq<Packet<Seq<u8>, Seq<u8>>>,
)
    decreases chunks.len(),
{
    if chunks.len() == 0 {
        (p, Seq::empty())
    } else {
        let first = polled(p, chunks[0]);
        let rest = polled_chunks(first.0, chunks.skip(1));
        (rest.0, first.1 + rest.1)
    }
}

/// The bytes behind the last complete document hold no complete
/// document.
pub proof fn lemma_remainder_is_incomplete(stream: Seq<u8>)
    ensures
        !scan(fresh(), remainder(stream)).1,
        documents(remainder(stream)) == Seq::<Seq<u8>>::empty(),
        remainder(remainder(stream)) == remainder(stream),
    decreases stream.len(),
{
    if has_document(stream) {
        lemma_scan_bounds(fresh(), stream);
        lemma_remainder_is_incomplete(stream.skip(first_len(stream)));
    }
}

/// No byte is lost or moved: the documents of a stream, laid end to end
/// and followed by what is left over, are the stream. Every document
/// ends with a closing brace.
pub proof fn lemma_nothing_is_lost(stream: Seq<u8>)
    ensures
        joined(documents(stream)) + remainder(stream) == stream,
        forall|i: int|
            0 <= i < documents(stream).len() ==> (#[trigger] documents(stream)[i]).len() > 0
                && documents(stream)[i].last() == CLOSE_BRACE,
    decreases stream.len(),
{
    if has_document(stream) {
        lemma_scan_bounds(fresh(), stream);
        lemma_document_ends_with_brace(fresh(), stream);
        let end = first_len(stream);
        let first = stream.take(end);
        let rest = stream.skip(end);
        lemma_nothing_is_lost(rest);
        assert(documents(stream)[0] == first);
        assert(documents(stream).skip(1) =~= documents(rest));
        assert(first + (joined(documents(rest)) + remainder(rest)) =~= stream);
        assert(joined(documents(stream)) + remainder(stream) =~= first + (joined(
            documents(rest),
        ) + remainder(rest)));
        assert forall|i: int| 0 <= i < documents(stream).len() implies (#[trigger] documents(
            stream,
        )[i]).len() > 0 && documents(stream)[i].last() == CLOSE_BRACE by {
            if i > 0 {
                assert(documents(stream)[i] == documents(rest)[i - 1]);
            }
        }
    } else {
        assert(joined(documents(stream)) + remainder(stream) =~= stream);
    }
}

/// The documents of a stream that arrives in two parts: those of the
/// first part, then those of what the first part left over followed by
/// the second part.
pub proof fn lemma_documents_split(a: Seq<u8>, b: Seq<u8>)
    ensures
        documents(a + b) == documents(a) + documents(remainder(a) + b),
        remainder(a + b) == remainder(remainder(a) + b),
    decreases a.len(),
{
    lemma_scan_split(fresh(), a, b);
    if has_document(a) {
        lemma_scan_bounds(fresh(), a);
        let end = first_len(a);
        assert((a + b).take(end) =~= a.take(end));
        assert((a + b).skip(end) =~= a.skip(end) + b);
        lemma_documents_split(a.skip(end), b);
        assert(documents(a + b) =~= documents(a) + documents(remainder(a) + b));
    } else {
        assert(documents(a) + documents(a + b) =~= documents(a + b));
    }
}

/// Tagging two runs of documents one after the other.
pub proof fn lemma_tagged_concat(first: Seq<Seq<u8>>, second: Seq<Seq<u8>>, complete: bool)
    ensures
        tagged(first + second, complete) == tagged(first, complete) + tagged(
            second,
            complete || first.len() > 0,
        ),
{
    assert(tagged(first + second, complete) =~= tagged(first, complete) + tagged(
        second,
        complete || first.len() > 0,
    ));
}

/// Feeding two chunks one after the other gives the packets, and leaves
/// the state, of feeding both as one.
pub proof fn lemma_polled_split(p: PollerView, a: Seq<u8>, b: Seq<u8>)
    ensures
        polled(p, a + b).0 == polled(polled(p, a).0, b).0,
        polled(p, a + b).1 == polled(p, a).1 + polled(polled(p, a).0, b).1,
{
    assert(p.pending + (a + b) =~= (p.pending + a) + b);
    lemma_documents_split(p.pending + a, b);
    lemma_tagged_concat(
        documents(p.pending + a),
        documents(remainder(p.pending + a) + b),
        p.handshake_complete,
    );
}

/// However the stream is cut into chunks, the poller hands out the same
/// packets in the same order and ends in the same state as when it is
/// fed the whole stream at once.
pub proof fn lemma_polling_ignores_chunking(p: PollerView, chunks: Seq<Seq<u8>>)
    requires
        documents(p.pending) == Seq::<Seq<u8>>::empty(),
    ensures
        polled_chunks(p, chunks) == polled(p, joined(chunks)),
    decreases chunks.len(),
{
    if chunks.len() == 0 {
        assert(p.pending + joined(chunks) =~= p.pending);
        assert(!scan(fresh(), p.pending).1);
        assert(tagged(documents(p.pending), p.handshake_complete) =~= Seq::empty());
    } else {
        let next = polled(p, chunks[0]).0;
        lemma_remainder_is_incomplete(p.pending + chunks[0]);
        lemma_polling_ignores_chunking(next, chunks.skip(1));
        lemma_polled_split(p, chunks[0], joined(chunks.skip(1)));
    }
}

/// On a new connection exactly the first packet is the handshake and
/// every later one is data, each holding one document of the stream in
/// the order of arrival, however the stream is cut into chunks.
pub proof fn lemma_first_packet_is_handshake(chunks: Seq<Seq<u8>>)
    ensures
        polled_chunks(idle(), chunks).1.len() == documents(joined(chunks)).len(),
        forall|i: int|
            0 <= i < polled_chunks(idle(), chunks).1.len() ==> #[trigger] polled_chunks(
                idle(),
                chunks,
            ).1[i] == if i == 0 {
                Packet::<Seq<u8>, Seq<u8>>::Handshake(documents(joined(chunks))[i])
            } else {
                Packet::<Seq<u8>, Seq<u8>>::Data(documents(joined(chunks))[i])
            },
{
    assert(!scan(fresh(), idle().pending).1);
    lemma_polling_ignores_chunking(idle(), chunks);
    assert(idle().pending + joined(chunks) =~= joined(chunks));
}

/// Whether `b` is JSON whitespace: a space, a tab, a line feed or a
/// carriage return.
pub open spec fn is_whitespace(b: u8) -> bool {
    b == 0x20 || b == 0x09 || b == 0x0A || b == 0x0D
}

/// Bytes without a closing brace complete no document: they are kept
/// behind what was pending, and no packet comes out.
pub proof fn lemma_no_brace_no_packet(p: PollerView, data: Seq<u8>)
    requires
        documents(p.pending) == Seq::<Seq<u8>>::empty(),
        forall|i: int| 0 <= i < data.len() ==> data[i] != CLOSE_BRACE,
    ensures
        polled(p, data) == (
            PollerView { pending: p.pending + data, handshake_complete: p.handshake_complete },
            Seq::<Packet<Seq<u8>, Seq<u8>>>::empty(),
        ),
{
    assert(!scan(fresh(), p.pending).1);
    lemma_scan_split(fresh(), p.pending, data);
    lemma_no_brace_no_end(scan(fresh(), p.pending).0, data);
    assert(tagged(documents(p.pending + data), p.handshake_complete) =~= Seq::empty());
}

/// A poller that is fed whitespace only, or nothing, hands out no packet
/// and keeps the bytes.
pub proof fn lemma_whitespace_yields_nothing(p: PollerView, data: Seq<u8>)
    requires
        documents(p.pending) == Seq::<Seq<u8>>::empty(),
        forall|i: int| 0 <= i < data.len() ==> is_whitespace(#[trigger] data[i]),
    ensures
        polled(p, data).1.len() == 0,
        polled(p, data).0.pending == p.pending + data,
        polled(p, data).0.handshake_complete == p.handshake_complete,
{
    lemma_no_brace_no_packet(p, data);
}

/// Recovers JSON documents from a stream of bytes that arrives in
/// arbitrary chunks.
pub struct JsonPoller {
    finder: JsonFinder,
    buf: Vec<u8>,
    handshake_complete: bool,
}

impl View for JsonPoller {
    type V = PollerView;

    closed spec fn view(&self) -> PollerView {
        PollerView { pending: self.buf@, handshake_complete: self.handshake_complete }
    }
}

impl JsonPoller {
    /// The invariant of a poller: the bytes it keeps hold no complete
    /// document, and its finder has examined all of them.
    pub closed spec fn wf(&self) -> bool {
        scan(fresh(), self.buf@) == (self.finder@, false)
    }

    /// What a well-formed poller keeps holds no complete document.
    pub proof fn lemma_pending_is_incomplete(&self)
        requires
            self.wf(),
        ensures
            documents(self@.pending) == Seq::<Seq<u8>>::empty(),
            remainder(self@.pending) == self@.pending,
    {
    }

    /// The poller of a new connection.
    pub fn new() -> (poller: Self)
        ensures
            poller.wf(),
            poller@ == idle(),
    {
        JsonPoller { finder: JsonFinder::new(), buf: Vec::new(), handshake_complete: false }
    }

    /// The number of bytes kept for the next call.
    pub fn pending_len(&self) -> (n: usize)
        ensures
            n == self@.pending.len(),
    {
        self.buf.len()
    }

    /// Whether a document has been found on this connection.
    pub fn handshake_complete(&self) -> (complete: bool)
        ensures
            complete == self@.handshake_complete,
    {
        self.handshake_complete
    }

    /// Takes the next bytes of the stream and appends to `into` every
    /// document that they complete, in order. The first document of the
    /// connection comes out as the handshake, all others as data. Bytes
    /// behind the last complete document are kept for the next call.
    pub fn feed(&mut self, data: &[u8], into: &mut Vec<RawPacket>)
        requires
            old(self).wf(),
        ensures
            final(self).wf(),
            final(self)@ == polled(old(self)@, data@).0,
            payloads(final(into)@) == payloads(old(into)@) + polled(old(self)@, data@).1,
    {
        let ghost stream = self.buf@ + data@;
        let mut from: usize = self.buf.len();
        let mut i: usize = 0;
        while i < data.len()
            invariant
                i <= data.len(),
                self.buf@ == old(self).buf@ + data@.take(i as int),
                self.finder == old(self).finder,
                self.handshake_complete == old(self).handshake_complete,
            decreases data.len() - i,
        {
            self.buf.push(data[i]);
            proof {
                assert(data@.take(i + 1) =~= data@.take(i as int).push(data@[i as int]));
                assert(self.buf@ =~= old(self).buf@ + data@.take(i + 1));
            }
            i = i + 1;
        }
        proof {
            assert(data@.take(i as int) =~= data@);
            assert(self.buf@.take(from as int) =~= old(self).buf@);
            assert(payloads(into@) =~= payloads(old(into)@) + tagged(
                Seq::<Seq<u8>>::empty(),
                old(self).handshake_complete,
            ));
        }
        let ghost mut emitted: Seq<Seq<u8>> = Seq::empty();
        loop
            invariant_except_break
                from <= self.buf.len(),
                scan(fresh(), self.buf@.take(from as int)) == (self.finder@, false),
            invariant
                documents(stream) == emitted + documents(self.buf@),
                remainder(stream) == remainder(self.buf@),
                self.handshake_complete == (old(self).handshake_complete || emitted.len() > 0),
                payloads(into@) == payloads(old(into)@) + tagged(
                    emitted,
                    old(self).handshake_complete,
                ),
            ensures
                scan(fresh(), self.buf@) == (self.finder@, false),
            decreases self.buf.len(),
        {
            let ghost packets = into@;
            proof {
                lemma_scan_bounds(fresh(), self.buf@.take(from as int));
                lemma_scan_split(fresh(), self.buf@.take(from as int), self.buf@.skip(from as int));
                assert(self.buf@.take(from as int) + self.buf@.skip(from as int) =~= self.buf@);
                assert(self.buf@.skip(from as int) =~= self.buf@.subrange(
                    from as int,
                    self.buf.len() as int,
                ));
                lemma_scan_bounds(fresh(), self.buf@);
            }
            let n = self.buf.len();
            let found = self.finder.feed(slice_subrange(self.buf.as_slice(), from, n));
            if !found {
                proof {
                    assert(emitted + documents(self.buf@) =~= emitted);
                }
                break ;
            }
            let end = self.finder.length + 1;
            let mut rest = self.buf.split_off(end);
            core::mem::swap(&mut self.buf, &mut rest);
            let doc = rest;
            proof {
                let docs = emitted.push(doc@);
                assert(emitted + (seq![doc@] + documents(self.buf@)) =~= docs + documents(
                    self.buf@,
                ));
                assert(tagged(docs, old(self).handshake_complete) =~= tagged(
                    emitted,
                    old(self).handshake_complete,
                ).push(
                    if self.handshake_complete {
                        Packet::Data(doc@)
                    } else {
                        Packet::Handshake(doc@)
                    },
                ));
                emitted = docs;
            }
            if self.handshake_complete {
                into.push(Packet::Data(doc));
            } else {
                self.handshake_complete = true;
                into.push(Packet::Handshake(doc));
            }
            proof {
                assert(payloads(into@) =~= payloads(packets).push(payload(into@.last())));
                assert(self.buf@.take(0) =~= Seq::<u8>::empty());
            }
            self.finder.reset();
            from = 0;
        }
    }
}

} // verus!
