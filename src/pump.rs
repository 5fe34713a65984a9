//! The output pump: the decisions of the task that drains one session's
//! output and forwards it to the subscriber. Reading and delivering are done
//! by the caller, which hands each read's outcome to `OutputPump::step` and
//! performs the action it returns.
//!
//! Reads end at arbitrary byte positions, so a chunk may stop in the middle of
//! a multi-byte character. The pump holds such an unfinished tail back and
//! delivers it with the next chunk, so no character is cut and no byte is
//! lost or repeated.

use vstd::prelude::*;
use vstd::utf8::{decode_utf8, valid_utf8};

verus! {

/// A continuation byte of UTF-8 (`10xxxxxx`).
pub open spec fn is_continuation(b: u8) -> bool {
    0x80 <= b && b <= 0xBF
}

/// How many bytes a UTF-8 sequence that starts with `b` takes; 1 for a byte
/// that does not start a multi-byte sequence.
pub open spec fn lead_width(b: u8) -> int {
    if 0xC0 <= b && b <= 0xDF {
        2
    } else if 0xE0 <= b && b <= 0xEF {
        3
    } else if 0xF0 <= b && b <= 0xF7 {
        4
    } else {
        1
    }
}

/// The bytes of `b` from `k` on are the unfinished start of one character:
/// at most three bytes, a leading byte that asks for more bytes than follow
/// it, and only continuation bytes after it.
pub open spec fn unfinished_from(b: Seq<u8>, k: int) -> bool {
    &&& 0 <= k < b.len()
    &&& b.len() - k <= 3
    &&& lead_width(b[k]) > b.len() - k
    &&& forall|i: int| k < i < b.len() ==> is_continuation(#[trigger] b[i])
}

/// Where `b` is cut: before the unfinished start of a character at its end,
/// if there is one; else at its end, so that everything is delivered.
pub open spec fn cut_point(b: Seq<u8>) -> int {
    if exists|k: int| unfinished_from(b, k) {
        choose|k: int| unfinished_from(b, k)
    } else {
        b.len() as int
    }
}

/// At most one position starts an unfinished character at the end.
proof fn lemma_unfinished_unique(b: Seq<u8>, j: int, k: int)
    requires
        unfinished_from(b, j),
        unfinished_from(b, k),
    ensures
        j == k,
{
    if j < k {
        assert(is_continuation(b[k]));
    } else if k < j {
        assert(is_continuation(b[j]));
    }
}

/// Cutting at `k` is right when the tail from `k` is unfinished.
proof fn lemma_cut_at_unfinished(b: Seq<u8>, k: int)
    requires
        unfinished_from(b, k),
    ensures
        cut_point(b) == k,
{
    let c = choose|k: int| unfinished_from(b, k);
    lemma_unfinished_unique(b, c, k);
}

/// Feeding `chunk` to a pump that holds `carry` back: the bytes delivered now,
/// and the bytes held back afterwards.
pub open spec fn feed(carry: Seq<u8>, chunk: Seq<u8>) -> (Seq<u8>, Seq<u8>) {
    let all = carry + chunk;
    let k = cut_point(all);
    (all.subrange(0, k), all.subrange(k, all.len() as int))
}

/// One step keeps order and holds back little: what it delivers followed by
/// what it holds back is the held bytes followed by the chunk, and what it
/// holds back is nothing or the unfinished start of one character, at most
/// three bytes.
pub proof fn lemma_feed(carry: Seq<u8>, chunk: Seq<u8>)
    ensures
        feed(carry, chunk).0 + feed(carry, chunk).1 == carry + chunk,
        feed(carry, chunk).1.len() <= 3,
        feed(carry, chunk).1.len() == 0 || unfinished_from(carry + chunk, cut_point(carry + chunk)),
{
    let all = carry + chunk;
    if exists|k: int| unfinished_from(all, k) {
        let k = choose|k: int| unfinished_from(all, k);
        assert(unfinished_from(all, k));
    }
    assert(feed(carry, chunk).0 + feed(carry, chunk).1 =~= all);
}

/// The chunks joined end to end.
pub open spec fn concat_all(chunks: Seq<Seq<u8>>) -> Seq<u8>
    decreases chunks.len(),
{
    if chunks.len() == 0 {
        Seq::empty()
    } else {
        chunks[0] + concat_all(chunks.drop_first())
    }
}

/// All the bytes a pump that holds `carry` back delivers when it is fed
/// `chunks` in order and then sees its output source end.
pub open spec fn delivered(carry: Seq<u8>, chunks: Seq<Seq<u8>>) -> Seq<u8>
    decreases chunks.len(),
{
    if chunks.len() == 0 {
        carry
    } else {
        let (out, rest) = feed(carry, chunks[0]);
        out + delivered(rest, chunks.drop_first())
    }
}

/// Delivering loses and repeats nothing: what a pump that starts with
/// `carry` delivers, fed `chunks` and then closed, is `carry` followed by the
/// chunks joined end to end, wherever the chunk boundaries fall.
pub proof fn lemma_delivered_is_input(carry: Seq<u8>, chunks: Seq<Seq<u8>>)
    ensures
        delivered(carry, chunks) == carry + concat_all(chunks),
    decreases chunks.len(),
{
    if chunks.len() == 0 {
        assert(carry + concat_all(chunks) == carry);
    } else {
        let all = carry + chunks[0];
        let (out, rest) = feed(carry, chunks[0]);
        assert(out + rest == all);
        lemma_delivered_is_input(rest, chunks.drop_first());
        assert(out + (rest + concat_all(chunks.drop_first())) == (out + rest) + concat_all(
            chunks.drop_first(),
        ));
        assert(all + concat_all(chunks.drop_first()) == carry + (chunks[0] + concat_all(
            chunks.drop_first(),
        )));
    }
}

/// A pump that holds `carry` back, fed `chunks` in order and still running:
/// the bytes it has delivered, and the bytes it holds back.
pub open spec fn run(carry: Seq<u8>, chunks: Seq<Seq<u8>>) -> (Seq<u8>, Seq<u8>)
    decreases chunks.len(),
{
    if chunks.len() == 0 {
        (Seq::empty(), carry)
    } else {
        let (out, rest) = feed(carry, chunks[0]);
        let (more, held) = run(rest, chunks.drop_first());
        (out + more, held)
    }
}

/// At every moment of a run, what has been delivered followed by what is held
/// back is everything read so far, in order: the delivered bytes are a prefix
/// of the input, and at most three bytes wait for the rest of a character.
pub proof fn lemma_run_is_prefix(carry: Seq<u8>, chunks: Seq<Seq<u8>>)
    requires
        carry.len() <= 3,
    ensures
        run(carry, chunks).0 + run(carry, chunks).1 == carry + concat_all(chunks),
        run(carry, chunks).1.len() <= 3,
    decreases chunks.len(),
{
    if chunks.len() == 0 {
        assert(Seq::<u8>::empty() + carry =~= carry + concat_all(chunks));
    } else {
        let all = carry + chunks[0];
        let (out, rest) = feed(carry, chunks[0]);
        lemma_feed(carry, chunks[0]);
        lemma_run_is_prefix(rest, chunks.drop_first());
        let (more, held) = run(rest, chunks.drop_first());
        assert((out + more) + held =~= out + (more + held));
        assert(out + (rest + concat_all(chunks.drop_first())) =~= all + concat_all(
            chunks.drop_first(),
        ));
        assert(all + concat_all(chunks.drop_first()) =~= carry + (chunks[0] + concat_all(
            chunks.drop_first(),
        )));
    }
}

/// The output of a fresh pump, concatenated, is exactly the bytes read.
pub proof fn lemma_output_reconstructs_input(chunks: Seq<Seq<u8>>)
    ensures
        delivered(Seq::empty(), chunks) == concat_all(chunks),
{
    lemma_delivered_is_input(Seq::empty(), chunks);
    assert(Seq::<u8>::empty() + concat_all(chunks) == concat_all(chunks));
}

/// The text a subscriber is shown for some delivered bytes, as
/// `String::from_utf8_lossy` gives it.
pub uninterp spec fn lossy_text(b: Seq<u8>) -> Seq<char>;

/// Relies on `String::from_utf8_lossy`: the result depends on the bytes
/// alone, and valid UTF-8 is decoded as it stands.
#[verifier::external_body]
fn from_utf8_lossy(b: &[u8]) -> (r: String)
    ensures
        r@ == lossy_text(b@),
        valid_utf8(b@) ==> r@ == decode_utf8(b@),
{
    String::from_utf8_lossy(b).into_owned()
}

/// The text for a chunk of delivered bytes. Valid UTF-8 is decoded exactly;
/// a malformed sequence becomes a replacement character instead of stopping
/// the pump.
pub fn chunk_text(b: &Vec<u8>) -> (r: String)
    ensures
        r@ == lossy_text(b@),
        valid_utf8(b@) ==> r@ == decode_utf8(b@),
{
    from_utf8_lossy(b.as_slice())
}

/// Relies on `std::str::from_utf8`: it succeeds exactly on valid UTF-8.
#[verifier::external_body]
fn from_utf8_succeeds(b: &[u8]) -> (r: bool)
    ensures
        r == valid_utf8(b@),
{
    match std::str::from_utf8(b) {
        Ok(_) => true,
        Err(_) => false,
    }
}

/// Whether a chunk of delivered bytes is valid UTF-8. When it is not,
/// `chunk_text` replaces the malformed sequences, and the caller reports it.
pub fn chunk_is_text(b: &Vec<u8>) -> (r: bool)
    ensures
        r == valid_utf8(b@),
{
    from_utf8_succeeds(b.as_slice())
}

/// What a read of the session's output source gave.
pub enum ReadEvent {
    /// Some bytes, possibly none.
    Data(Vec<u8>),
    /// The source is closed: the process exited or the session was closed.
    Closed,
    /// The read failed; this ends the session's output like a close.
    Failed,
}

/// What the caller does next.
pub enum PumpAction {
    /// Hand these bytes to the subscriber, then read again.
    Deliver(Vec<u8>),
    /// Nothing to hand over yet: read again.
    Wait,
    /// Hand these bytes (possibly none) to the subscriber and stop reading.
    Finish(Vec<u8>),
}

/// The bytes an action hands to the subscriber.
pub open spec fn action_bytes(a: PumpAction) -> Seq<u8> {
    match a {
        PumpAction::Deliver(b) => b@,
        PumpAction::Wait => Seq::empty(),
        PumpAction::Finish(b) => b@,
    }
}

/// The state of one session's output pump.
pub struct OutputPump {
    carry: Vec<u8>,
    finished: bool,
}

impl OutputPump {
    /// The bytes held back, waiting for the rest of their character.
    pub closed spec fn held(&self) -> Seq<u8> {
        self.carry@
    }

    /// Whether the pump has stopped.
    pub closed spec fn is_finished(&self) -> bool {
        self.finished
    }

    /// A pump that holds nothing back and has not stopped.
    pub fn new() -> (r: Self)
        ensures
            r.held() == Seq::<u8>::empty(),
            !r.is_finished(),
    {
        OutputPump { carry: Vec::new(), finished: false }
    }

    /// Whether the pump has stopped.
    pub fn finished(&self) -> (r: bool)
        ensures
            r == self.is_finished(),
    {
        self.finished
    }

    /// Decides what to do with the outcome of one read.
    ///
    /// Data is joined to what was held back; all of it is delivered but for an
    /// unfinished character at the end, which is held back. A close or a failed
    /// read delivers what was held back and stops the pump; a stopped pump
    /// delivers nothing more.
    pub fn step(&mut self, event: ReadEvent) -> (r: PumpAction)
        ensures
            old(self).is_finished() ==> {
                &&& r is Finish
                &&& action_bytes(r) == Seq::<u8>::empty()
                &&& final(self).is_finished()
                &&& final(self).held() == old(self).held()
            },
            !old(self).is_finished() ==> match event {
                ReadEvent::Data(c) => {
                    let (out, rest) = feed(old(self).held(), c@);
                    &&& action_bytes(r) == out
                    &&& (r is Wait <==> out.len() == 0)
                    &&& !(r is Finish)
                    &&& final(self).held() == rest
                    &&& !final(self).is_finished()
                },
                _ => {
                    &&& r is Finish
                    &&& action_bytes(r) == old(self).held()
                    &&& final(self).held() == Seq::<u8>::empty()
                    &&& final(self).is_finished()
                },
            },
    {
        if self.finished {
            return PumpAction::Finish(Vec::new());
        }
        match event {
            ReadEvent::Data(c) => {
                let mut all = Vec::new();
                all.append(&mut self.carry);
                let mut c = c;
                all.append(&mut c);
                let k = cut_at(&all);
                let rest = all.split_off(k);
                self.carry = rest;
                if all.len() == 0 {
                    PumpAction::Wait
                } else {
                    PumpAction::Deliver(all)
                }
            },
            _ => {
                let mut out = Vec::new();
                out.append(&mut self.carry);
                self.finished = true;
                PumpAction::Finish(out)
            },
        }
    }
}

/// Where `b` is cut: see `cut_point`.
pub fn cut_at(b: &Vec<u8>) -> (r: usize)
    ensures
        r == cut_point(b@),
        0 <= r <= b@.len(),
        b@.len() - r <= 3,
{
    let n = b.len();
    if n >= 1 && lead_width_of(b[n - 1]) > 1 {
        proof {
            lemma_cut_at_unfinished(b@, n - 1);
        }
        n - 1
    } else if n >= 2 && continuation(b[n - 1]) && lead_width_of(b[n - 2]) > 2 {
        proof {
            lemma_cut_at_unfinished(b@, n - 2);
        }
        n - 2
    } else if n >= 3 && continuation(b[n - 1]) && continuation(b[n - 2]) && lead_width_of(b[n - 3])
        > 3 {
        proof {
            lemma_cut_at_unfinished(b@, n - 3);
        }
        n - 3
    } else {
        proof {
            assert forall|k: int| !unfinished_from(b@, k) by {
                if unfinished_from(b@, k) {
                    if k == n - 2 {
                        assert(is_continuation(b@[n - 1]));
                    } else if k == n - 3 {
                        assert(is_continuation(b@[n - 1]));
                        assert(is_continuation(b@[n - 2]));
                    }
                }
            }
        }
        n
    }
}

fn continuation(b: u8) -> (r: bool)
    ensures
        r == is_continuation(b),
{
    0x80 <= b && b <= 0xBF
}

fn lead_width_of(b: u8) -> (r: u8)
    ensures
        r as int == lead_width(b),
{
    if 0xC0 <= b && b <= 0xDF {
        2
    } else if 0xE0 <= b && b <= 0xEF {
        3
    } else if 0xF0 <= b && b <= 0xF7 {
        4
    } else {
        1
    }
}

} // verus!
