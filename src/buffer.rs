//! The bounded terminal output buffer and the reader pump's step function.
//!
//! The pump is a background loop that reads chunks from the pseudoterminal
//! and feeds each outcome to `pump_step` under the buffer's lock. The buffer
//! keeps at most `HIGH_WATER` characters: once it grows past that, the oldest
//! characters are dropped so that only the newest `LOW_WATER` remain.
//! Characters, not bytes, are the unit, so a cut never splits a character.
use vstd::prelude::*;
use vstd::utf8::{decode_utf8, valid_utf8};
use crate::text::{decode_lossy, lossy_utf8};

verus! {

/// Above this many characters the buffer is cut back.
pub const HIGH_WATER: usize = 100000;

/// How many of the newest characters a cut keeps.
pub const LOW_WATER: usize = 50000;

/// The contents after appending, given the contents before plus what came.
pub open spec fn bounded(s: Seq<char>) -> Seq<char> {
    if s.len() > HIGH_WATER {
        s.subrange(s.len() - LOW_WATER, s.len() as int)
    } else {
        s
    }
}

/// Output captured from a terminal, newest last.
pub struct TerminalBuffer {
    text: String,
    len: usize,
}

impl View for TerminalBuffer {
    type V = Seq<char>;

    closed spec fn view(&self) -> Seq<char> {
        self.text@
    }
}

impl TerminalBuffer {
    /// The stored length matches the text, and the text is within bounds.
    pub closed spec fn wf(&self) -> bool {
        self.len == self.text@.len() && self.len <= HIGH_WATER
    }

    /// An empty buffer.
    pub fn new() -> (r: Self)
        ensures
            r.wf(),
            r@ == Seq::<char>::empty(),
    {
        TerminalBuffer { text: String::new(), len: 0 }
    }

    /// A well-formed buffer holds at most `HIGH_WATER` characters.
    pub proof fn lemma_wf_bounded(&self)
        requires
            self.wf(),
        ensures
            self@.len() <= HIGH_WATER,
    {
    }

    /// The number of characters held, at most `HIGH_WATER`.
    pub fn len(&self) -> (r: usize)
        requires
            self.wf(),
        ensures
            r == self@.len(),
            r <= HIGH_WATER,
    {
        self.len
    }

    /// A copy of the current contents; the buffer is left as it is.
    pub fn snapshot(&self) -> (r: String)
        ensures
            r@ == self@,
    {
        self.text.clone()
    }

    /// Appends `s`, then cuts the buffer back to its newest `LOW_WATER`
    /// characters if it holds more than `HIGH_WATER`.
    pub fn append_text(&mut self, s: &str)
        requires
            old(self).wf(),
        ensures
            final(self).wf(),
            final(self)@ == bounded(old(self)@ + s@),
    {
        let n = s.unicode_len();
        if n > HIGH_WATER {
            let tail = s.substring_char(n - LOW_WATER, n);
            proof {
                let all = self@ + s@;
                assert(all.subrange(all.len() - LOW_WATER, all.len() as int) =~= s@.subrange(
                    n - LOW_WATER,
                    n as int,
                ));
            }
            self.text = String::from_str(tail);
            self.len = LOW_WATER;
        } else {
            self.text.append(s);
            self.len = self.len + n;
            if self.len > HIGH_WATER {
                let tail = self.text.as_str().substring_char(self.len - LOW_WATER, self.len);
                self.text = String::from_str(tail);
                self.len = LOW_WATER;
            }
        }
    }

    /// Decodes `chunk` permissively and appends it as `append_text` does.
    pub fn append_output(&mut self, chunk: &[u8])
        requires
            old(self).wf(),
        ensures
            final(self).wf(),
            final(self)@ == bounded(old(self)@ + lossy_utf8(chunk@)),
            valid_utf8(chunk@) ==> final(self)@ == bounded(old(self)@ + decode_utf8(chunk@)),
    {
        let s = decode_lossy(chunk);
        self.append_text(s.as_str());
    }
}

/// The outcome of one read from the pseudoterminal's output side.
pub enum ReadEvent {
    /// The read returned these bytes; none at all means end of stream.
    Bytes(Vec<u8>),
    /// The read failed.
    Failed,
}

/// What the pump does after a step.
#[derive(Debug, PartialEq, Eq, Structural)]
pub enum PumpControl {
    Continue,
    Stop,
}

/// One step of the reader pump: bytes are appended to `buffer`; an empty
/// read (end of stream) or a failed one stops the pump and leaves the
/// buffer as it is.
pub fn pump_step(buffer: &mut TerminalBuffer, event: &ReadEvent) -> (r: PumpControl)
    requires
        old(buffer).wf(),
    ensures
        final(buffer).wf(),
        match event {
            ReadEvent::Bytes(b) => if b@.len() == 0 {
                r == PumpControl::Stop && final(buffer)@ == old(buffer)@
            } else {
                &&& r == PumpControl::Continue
                &&& final(buffer)@ == bounded(old(buffer)@ + lossy_utf8(b@))
                &&& valid_utf8(b@) ==> final(buffer)@ == bounded(old(buffer)@ + decode_utf8(b@))
            },
            ReadEvent::Failed => r == PumpControl::Stop && final(buffer)@ == old(buffer)@,
        },
{
    match event {
        ReadEvent::Bytes(b) => {
            if b.len() == 0 {
                PumpControl::Stop
            } else {
                buffer.append_output(b.as_slice());
                PumpControl::Continue
            }
        },
        ReadEvent::Failed => PumpControl::Stop,
    }
}

/// However much is appended, the buffer never holds more than `HIGH_WATER`
/// characters, and it always ends with the newest ones: all of what was just
/// appended if that is at most `LOW_WATER` long, else its last `LOW_WATER`
/// characters.
pub proof fn lemma_bounded_keeps_newest(before: Seq<char>, added: Seq<char>)
    requires
        before.len() <= HIGH_WATER,
    ensures
        bounded(before + added).len() <= HIGH_WATER,
        added.len() <= LOW_WATER ==> bounded(before + added).subrange(
            bounded(before + added).len() - added.len(),
            bounded(before + added).len() as int,
        ) == added,
        added.len() > LOW_WATER ==> bounded(before + added).subrange(
            bounded(before + added).len() - LOW_WATER,
            bounded(before + added).len() as int,
        ) == added.subrange(added.len() - LOW_WATER, added.len() as int),
{
    let all = before + added;
    let b = bounded(all);
    if all.len() > HIGH_WATER {
        if added.len() <= LOW_WATER {
            assert(b.subrange(b.len() - added.len(), b.len() as int) =~= added);
        } else {
            assert(b.subrange(b.len() - LOW_WATER, b.len() as int) =~= added.subrange(
                added.len() - LOW_WATER,
                added.len() as int,
            ));
        }
    } else {
        assert(all.subrange(all.len() - added.len(), all.len() as int) =~= added);
        if added.len() > LOW_WATER {
            assert(all.subrange(all.len() - LOW_WATER, all.len() as int) =~= added.subrange(
                added.len() - LOW_WATER,
                added.len() as int,
            ));
        }
    }
}

/// Bytes read from the terminal show up in the next snapshot: after
/// appending valid UTF-8 bytes that decode to at most `LOW_WATER`
/// characters, the contents end with their decoding.
pub proof fn lemma_pump_round_trip(before: Seq<char>, bytes: Seq<u8>)
    requires
        before.len() <= HIGH_WATER,
        valid_utf8(bytes),
        decode_utf8(bytes).len() <= LOW_WATER,
    ensures
        ({
            let after = bounded(before + decode_utf8(bytes));
            after.subrange(after.len() - decode_utf8(bytes).len(), after.len() as int)
                == decode_utf8(bytes)
        }),
{
    lemma_bounded_keeps_newest(before, decode_utf8(bytes));
}

/// Everything appended by `chunks`, in order.
pub open spec fn all_appended(chunks: Seq<Seq<char>>) -> Seq<char>
    decreases chunks.len(),
{
    if chunks.len() == 0 {
        Seq::empty()
    } else {
        all_appended(chunks.drop_last()) + chunks.last()
    }
}

/// The contents of a buffer that started empty after `chunks` were
/// appended to it in turn.
pub open spec fn after_appends(chunks: Seq<Seq<char>>) -> Seq<char>
    decreases chunks.len(),
{
    if chunks.len() == 0 {
        Seq::empty()
    } else {
        bounded(after_appends(chunks.drop_last()) + chunks.last())
    }
}

/// Over any history of appends to a fresh buffer, the contents are the
/// newest part of everything appended: a suffix of it, never more than
/// `HIGH_WATER` characters, and never fewer than `LOW_WATER` (or all of it,
/// when less was appended). Old output is dropped, never new output.
pub proof fn lemma_history_keeps_newest(chunks: Seq<Seq<char>>)
    ensures
        ({
            let b = after_appends(chunks);
            let a = all_appended(chunks);
            &&& b.len() <= HIGH_WATER
            &&& b.len() <= a.len()
            &&& b == a.subrange(a.len() - b.len(), a.len() as int)
            &&& b.len() >= (if a.len() < LOW_WATER {
                a.len()
            } else {
                LOW_WATER as nat
            })
        }),
    decreases chunks.len(),
{
    if chunks.len() > 0 {
        let init = chunks.drop_last();
        let c = chunks.last();
        lemma_history_keeps_newest(init);
        let p = after_appends(init);
        let pa = all_appended(init);
        let s = p + c;
        let a = pa + c;
        assert(s =~= a.subrange(a.len() - s.len(), a.len() as int));
        if s.len() > HIGH_WATER {
            assert(bounded(s) =~= a.subrange(a.len() - LOW_WATER, a.len() as int));
        }
    }
}

} // verus!
