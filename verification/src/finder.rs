//! Finding where a JSON document ends in a stream of bytes.
//!
//! A document ends with the byte that closes its outermost object. The
//! finder tells braces that nest from braces inside string literals, and
//! carries its state from one chunk of the stream to the next.

use vstd::prelude::*;

verus! {

/// The byte `"`.
pub const QUOTE: u8 = 0x22;

/// The byte `\`.
pub const BACKSLASH: u8 = 0x5C;

/// The byte `{`.
pub const OPEN_BRACE: u8 = 0x7B;

/// The byte `}`.
pub const CLOSE_BRACE: u8 = 0x7D;

/// Where the scan stands with respect to string literals.
#[derive(Clone, Copy, PartialEq, Eq, Debug)]
pub enum JsonState {
    /// Outside any string literal.
    Normal,
    /// Inside a string literal.
    InString,
    /// Inside a string literal, right after a backslash.
    InStringEscape,
}

/// The mathematical state of a scan.
pub struct Scan {
    /// Position with respect to string literals.
    pub state: JsonState,
    /// Open braces minus closing braces seen outside string literals.
    pub nesting: int,
    /// Bytes examined before the closing byte, or so far.
    pub length: nat,
}

/// The scan before any byte was examined.
pub open spec fn fresh() -> Scan {
    Scan { state: JsonState::Normal, nesting: 0, length: 0 }
}

/// Whether `b`, examined in state `s`, closes a document: it is a closing
/// brace outside any string that brings the nesting to zero or below.
pub open spec fn closes(s: Scan, b: u8) -> bool {
    s.state == JsonState::Normal && b == CLOSE_BRACE && s.nesting <= 1
}

/// The scan after the closing byte: the nesting drops, the length stays
/// at the offset of the closing byte.
pub open spec fn closed(s: Scan) -> Scan {
    Scan { nesting: s.nesting - 1, ..s }
}

/// The scan after a byte that closes no document.
pub open spec fn advance(s: Scan, b: u8) -> Scan {
    let counted = Scan { length: s.length + 1, ..s };
    match s.state {
        JsonState::Normal => if b == QUOTE {
            Scan { state: JsonState::InString, ..counted }
        } else if b == OPEN_BRACE {
            Scan { nesting: s.nesting + 1, ..counted }
        } else if b == CLOSE_BRACE {
            Scan { nesting: s.nesting - 1, ..counted }
        } else {
            counted
        },
        JsonState::InString => if b == QUOTE {
            Scan { state: JsonState::Normal, ..counted }
        } else if b == BACKSLASH {
            Scan { state: JsonState::InStringEscape, ..counted }
        } else {
            counted
        },
        JsonState::InStringEscape => Scan { state: JsonState::InString, ..counted },
    }
}

/// Scans `bytes` from state `s` up to the first closing byte. The result
/// is the state reached and whether a closing byte was found; bytes after
/// the closing byte are not examined.
pub open spec fn scan(s: Scan, bytes: Seq<u8>) -> (Scan, bool)
    decreases bytes.len(),
{
    if bytes.len() == 0 {
        (s, false)
    } else if closes(s, bytes[0]) {
        (closed(s), true)
    } else {
        scan(advance(s, bytes[0]), bytes.skip(1))
    }
}

/// Feeds the chunks one after the other, each from the state the previous
/// one left, and stops at the first chunk that holds a closing byte.
pub open spec fn scan_chunks(s: Scan, chunks: Seq<Seq<u8>>) -> (Scan, bool)
    decreases chunks.len(),
{
    if chunks.len() == 0 {
        (s, false)
    } else {
        let first = scan(s, chunks[0]);
        if first.1 {
            first
        } else {
            scan_chunks(first.0, chunks.skip(1))
        }
    }
}

/// The chunks laid end to end.
pub open spec fn joined(chunks: Seq<Seq<u8>>) -> Seq<u8>
    decreases chunks.len(),
{
    if chunks.len() == 0 {
        Seq::empty()
    } else {
        chunks[0] + joined(chunks.skip(1))
    }
}

/// Scanning `a` and then, if no document ended in it, `b` from the state
/// reached is the same as scanning `a` followed by `b` in one go.
pub proof fn lemma_scan_split(s: Scan, a: Seq<u8>, b: Seq<u8>)
    ensures
        scan(s, a + b) == if scan(s, a).1 {
            scan(s, a)
        } else {
            scan(scan(s, a).0, b)
        },
    decreases a.len(),
{
    if a.len() == 0 {
        assert(a + b =~= b);
    } else {
        assert((a + b)[0] == a[0]);
        assert((a + b).skip(1) =~= a.skip(1) + b);
        if !closes(s, a[0]) {
            lemma_scan_split(advance(s, a[0]), a.skip(1), b);
        }
    }
}

/// However a byte sequence is cut into chunks, feeding the chunks in turn
/// finds the end of the document at the same offset, and leaves the same
/// state, as feeding the whole sequence at once.
pub proof fn lemma_chunking_is_immaterial(s: Scan, chunks: Seq<Seq<u8>>)
    ensures
        scan_chunks(s, chunks) == scan(s, joined(chunks)),
    decreases chunks.len(),
{
    if chunks.len() > 0 {
        lemma_scan_split(s, chunks[0], joined(chunks.skip(1)));
        if !scan(s, chunks[0]).1 {
            lemma_chunking_is_immaterial(scan(s, chunks[0]).0, chunks.skip(1));
        }
    }
}

/// Scanning one more byte after a prefix that ended no document.
pub proof fn lemma_scan_push(s: Scan, bytes: Seq<u8>, b: u8)
    requires
        !scan(s, bytes).1,
    ensures
        scan(s, bytes.push(b)) == if closes(scan(s, bytes).0, b) {
            (closed(scan(s, bytes).0), true)
        } else {
            (advance(scan(s, bytes).0, b), false)
        },
{
    let one = seq![b];
    assert(bytes.push(b) =~= bytes + one);
    lemma_scan_split(s, bytes, one);
    let mid = scan(s, bytes).0;
    assert(one.skip(1).len() == 0);
    assert(scan(advance(mid, b), one.skip(1)) == (advance(mid, b), false));
}

/// How far a scan of `bytes` can move the counters: the length grows by
/// one for each byte examined before the closing byte, and the nesting
/// moves by at most one for each byte. A scan that starts at a nesting of
/// zero or more and ends no document stays at zero or more.
pub proof fn lemma_scan_bounds(s: Scan, bytes: Seq<u8>)
    ensures
        !scan(s, bytes).1 ==> scan(s, bytes).0.length == s.length + bytes.len(),
        scan(s, bytes).1 ==> s.length <= scan(s, bytes).0.length < s.length + bytes.len(),
        s.nesting - bytes.len() <= scan(s, bytes).0.nesting <= s.nesting + bytes.len(),
        !scan(s, bytes).1 && s.nesting >= 0 ==> scan(s, bytes).0.nesting >= 0,
    decreases bytes.len(),
{
    if bytes.len() > 0 && !closes(s, bytes[0]) {
        lemma_scan_bounds(advance(s, bytes[0]), bytes.skip(1));
    }
}

/// Where a scan ends a document, the length it reports is the offset of a
/// closing brace, counted from the first byte fed since the last reset.
pub proof fn lemma_document_ends_with_brace(s: Scan, bytes: Seq<u8>)
    requires
        scan(s, bytes).1,
    ensures
        0 <= scan(s, bytes).0.length - s.length < bytes.len(),
        bytes[scan(s, bytes).0.length - s.length] == CLOSE_BRACE,
    decreases bytes.len(),
{
    if !closes(s, bytes[0]) {
        lemma_document_ends_with_brace(advance(s, bytes[0]), bytes.skip(1));
    }
}

/// A byte sequence without a closing brace ends no document.
pub proof fn lemma_no_brace_no_end(s: Scan, bytes: Seq<u8>)
    requires
        forall|i: int| 0 <= i < bytes.len() ==> bytes[i] != CLOSE_BRACE,
    ensures
        !scan(s, bytes).1,
    decreases bytes.len(),
{
    if bytes.len() > 0 {
        assert(bytes[0] != CLOSE_BRACE);
        assert forall|i: int| 0 <= i < bytes.skip(1).len() implies bytes.skip(1)[i]
            != CLOSE_BRACE by {
            assert(bytes.skip(1)[i] == bytes[i + 1]);
        }
        lemma_no_brace_no_end(advance(s, bytes[0]), bytes.skip(1));
    }
}

/// Inside a string literal, a backslash and the byte behind it, a quote
/// included, neither end the string nor touch the nesting nor end a
/// document. This holds when the two bytes come in one chunk and when the
/// chunk boundary falls between them.
pub proof fn lemma_escape_stays_in_string(s: Scan, escaped: u8)
    requires
        s.state == JsonState::InString,
    ensures
        scan(s, seq![BACKSLASH, escaped]) == (
            Scan { state: JsonState::InString, nesting: s.nesting, length: s.length + 2 },
            false,
        ),
        scan(s, seq![BACKSLASH]) == (
            Scan { state: JsonState::InStringEscape, nesting: s.nesting, length: s.length + 1 },
            false,
        ),
        scan(scan(s, seq![BACKSLASH]).0, seq![escaped]) == scan(s, seq![BACKSLASH, escaped]),
{
    let empty = Seq::<u8>::empty();
    assert(seq![BACKSLASH] =~= empty.push(BACKSLASH));
    assert(seq![BACKSLASH, escaped] =~= empty.push(BACKSLASH).push(escaped));
    assert(seq![escaped] =~= empty.push(escaped));
    lemma_scan_push(s, empty, BACKSLASH);
    lemma_scan_push(s, empty.push(BACKSLASH), escaped);
    lemma_scan_push(scan(s, seq![BACKSLASH]).0, empty, escaped);
}

/// Inside a string literal no byte ends a document or changes the nesting.
pub proof fn lemma_string_bytes_keep_nesting(s: Scan, b: u8)
    requires
        s.state != JsonState::Normal,
    ensures
        !closes(s, b),
        advance(s, b).nesting == s.nesting,
{
}

/// Finds the end of the first JSON document in a stream of bytes that is
/// fed chunk by chunk.
#[derive(Debug)]
pub struct JsonFinder {
    /// Once `feed` has returned true, the offset of the closing byte among
    /// the bytes fed since the last reset.
    pub length: usize,
    /// Open braces minus closing braces seen outside string literals.
    pub nesting: i128,
    /// Position with respect to string literals.
    pub state: JsonState,
}

impl View for JsonFinder {
    type V = Scan;

    open spec fn view(&self) -> Scan {
        Scan { state: self.state, nesting: self.nesting as int, length: self.length as nat }
    }
}

impl JsonFinder {
    /// A finder that has examined no byte.
    pub fn new() -> (finder: Self)
        ensures
            finder@ == fresh(),
    {
        JsonFinder { length: 0, nesting: 0, state: JsonState::Normal }
    }

    /// Forgets everything fed so far.
    pub fn reset(&mut self)
        ensures
            final(self)@ == fresh(),
    {
        self.length = 0;
        self.nesting = 0;
        self.state = JsonState::Normal;
    }

    /// Whether the counters can take `n` more bytes without overflow.
    pub open spec fn has_room(&self, n: nat) -> bool {
        &&& self.length + n <= usize::MAX
        &&& i128::MIN < self.nesting
        &&& self.nesting + n <= i128::MAX
    }

    /// Examines `bytes` up to the first byte that closes a document, and
    /// returns true exactly when there is one. The state is kept for the
    /// next chunk; after a closing byte, `length` is its offset among the
    /// bytes fed since the last reset, and the bytes behind it were not
    /// examined.
    pub fn feed(&mut self, bytes: &[u8]) -> (done: bool)
        requires
            old(self).has_room(bytes.len() as nat),
        ensures
            (final(self)@, done) == scan(old(self)@, bytes@),
    {
        let mut i: usize = 0;
        while i < bytes.len()
            invariant
                i <= bytes.len(),
                scan(old(self)@, bytes@.take(i as int)) == (self@, false),
                self.length == old(self).length + i,
                old(self).has_room(bytes.len() as nat),
                old(self).nesting - i <= self.nesting <= old(self).nesting + i,
                i128::MIN < self.nesting,
            decreases bytes.len() - i,
        {
            let b: u8 = bytes[i];
            proof {
                lemma_scan_push(old(self)@, bytes@.take(i as int), b);
                assert(bytes@.take(i as int).push(b) =~= bytes@.take(i + 1));
            }
            match self.state {
                JsonState::Normal => {
                    if b == QUOTE {
                        self.state = JsonState::InString;
                    } else if b == OPEN_BRACE {
                        self.nesting = self.nesting + 1;
                    } else if b == CLOSE_BRACE {
                        self.nesting = self.nesting - 1;
                        if self.nesting <= 0 {
                            proof {
                                lemma_scan_split(
                                    old(self)@,
                                    bytes@.take(i + 1),
                                    bytes@.skip(i + 1),
                                );
                                assert(bytes@.take(i + 1) + bytes@.skip(i + 1) =~= bytes@);
                            }
                            return true;
                        }
                    }
                },
                JsonState::InStringEscape => {
                    self.state = JsonState::InString;
                },
                JsonState::InString => {
                    if b == QUOTE {
                        self.state = JsonState::Normal;
                    } else if b == BACKSLASH {
                        self.state = JsonState::InStringEscape;
                    }
                },
            }
            self.length = self.length + 1;
            i = i + 1;
        }
        proof {
            assert(bytes@.take(i as int) =~= bytes@);
        }
        false
    }
}

} // verus!
