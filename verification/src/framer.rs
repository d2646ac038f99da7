//! Line framer: a pure state machine that splits an incoming byte stream into
//! completed lines. A carriage return (byte 13) completes the line buffered so
//! far; a line feed (byte 10) is discarded unconditionally; every other byte is
//! appended verbatim. No partial line is ever produced: bytes not yet
//! terminated by a carriage return stay in the buffer until one arrives, and a
//! session that stops simply drops them.

use vstd::prelude::*;

use crate::CR;
use crate::LF;

verus! {

/// The lines completed when the bytes of `input` are fed, one at a time, to a
/// framer whose buffer currently holds `buf`.
pub open spec fn completed_lines(buf: Seq<u8>, input: Seq<u8>) -> Seq<Seq<u8>>
    decreases input.len(),
{
    if input.len() == 0 {
        Seq::empty()
    } else {
        let b = input[0];
        let rest = input.subrange(1, input.len() as int);
        if b == CR {
            seq![buf] + completed_lines(Seq::empty(), rest)
        } else if b == LF {
            completed_lines(buf, rest)
        } else {
            completed_lines(buf.push(b), rest)
        }
    }
}

/// The buffer left over after the bytes of `input` are fed, one at a time, to
/// a framer whose buffer currently holds `buf`.
pub open spec fn remaining_buffer(buf: Seq<u8>, input: Seq<u8>) -> Seq<u8>
    decreases input.len(),
{
    if input.len() == 0 {
        buf
    } else {
        let b = input[0];
        let rest = input.subrange(1, input.len() as int);
        if b == CR {
            remaining_buffer(Seq::empty(), rest)
        } else if b == LF {
            remaining_buffer(buf, rest)
        } else {
            remaining_buffer(buf.push(b), rest)
        }
    }
}

/// The number of carriage returns in `s`.
pub open spec fn count_cr(s: Seq<u8>) -> nat
    decreases s.len(),
{
    if s.len() == 0 {
        0
    } else {
        (if s[0] == CR {
            1nat
        } else {
            0nat
        }) + count_cr(s.subrange(1, s.len() as int))
    }
}

/// `s` with every line feed removed and nothing else changed.
pub open spec fn strip_lf(s: Seq<u8>) -> Seq<u8>
    decreases s.len(),
{
    if s.len() == 0 {
        Seq::empty()
    } else if s[0] == LF {
        strip_lf(s.subrange(1, s.len() as int))
    } else {
        seq![s[0]] + strip_lf(s.subrange(1, s.len() as int))
    }
}

/// The segments of `s` that are terminated by a carriage return: the bytes
/// before the first carriage return, then the bytes between each consecutive
/// pair, in order. Bytes after the last carriage return belong to no segment.
pub open spec fn cr_segments(s: Seq<u8>) -> Seq<Seq<u8>>
    decreases s.len(),
{
    if s.len() == 0 {
        Seq::empty()
    } else {
        let rest = s.subrange(1, s.len() as int);
        if s[0] == CR {
            seq![Seq::<u8>::empty()] + cr_segments(rest)
        } else {
            let segs = cr_segments(rest);
            if segs.len() == 0 {
                Seq::empty()
            } else {
                seq![seq![s[0]] + segs[0]] + segs.subrange(1, segs.len() as int)
            }
        }
    }
}

/// The line-framing state machine. Its abstract state is the sequence of
/// bytes of the line currently in progress.
///
/// No line-length bound is enforced: a device that never sends a carriage
/// return grows the buffer without limit for the life of the session. This is
/// a known resource-bound gap, kept deliberately, since capping would change
/// framing behaviour.
pub struct LineFramer {
    buf: Vec<u8>,
}

impl View for LineFramer {
    type V = Seq<u8>;

    closed spec fn view(&self) -> Seq<u8> {
        self.buf@
    }
}

impl LineFramer {
    /// A fresh framer with an empty line buffer.
    pub fn new() -> (r: LineFramer)
        ensures
            r@ == Seq::<u8>::empty(),
    {
        LineFramer { buf: Vec::new() }
    }

    /// Feeds one byte. A carriage return completes the buffered line and
    /// empties the buffer; a line feed is discarded; any other byte is
    /// appended verbatim.
    pub fn feed(&mut self, b: u8) -> (r: Option<Vec<u8>>)
        ensures
            b == CR ==> (r matches Some(line) && line@ == old(self)@ && final(self)@
                == Seq::<u8>::empty()),
            b == LF ==> r is None && final(self)@ == old(self)@,
            b != CR && b != LF ==> r is None && final(self)@ == old(self)@.push(b),
    {
        if b == CR {
            let mut line = Vec::new();
            core::mem::swap(&mut line, &mut self.buf);
            Some(line)
        } else if b == LF {
            None
        } else {
            self.buf.push(b);
            None
        }
    }

    /// Feeds every byte of `input` in order and returns the completed lines,
    /// in the order they were completed.
    pub fn feed_all(&mut self, input: &Vec<u8>) -> (lines: Vec<Vec<u8>>)
        ensures
            lines@.map_values(|l: Vec<u8>| l@) == completed_lines(old(self)@, input@),
            final(self)@ == remaining_buffer(old(self)@, input@),
    {
        let ghost buf0 = self@;
        let mut lines: Vec<Vec<u8>> = Vec::new();
        let mut i: usize = 0;
        proof {
            assert(input@.subrange(0, input@.len() as int) =~= input@);
            assert(lines@.map_values(|l: Vec<u8>| l@) + completed_lines(buf0, input@)
                =~= completed_lines(buf0, input@));
        }
        while i < input.len()
            invariant
                i <= input.len(),
                lines@.map_values(|l: Vec<u8>| l@) + completed_lines(
                    self@,
                    input@.subrange(i as int, input@.len() as int),
                ) == completed_lines(buf0, input@),
                remaining_buffer(self@, input@.subrange(i as int, input@.len() as int))
                    == remaining_buffer(buf0, input@),
            decreases input.len() - i,
        {
            let ghost pre = self@;
            let ghost acc = lines@.map_values(|l: Vec<u8>| l@);
            let ghost rest = input@.subrange(i as int, input@.len() as int);
            let ghost rest1 = input@.subrange(i as int + 1, input@.len() as int);
            proof {
                assert(rest[0] == input@[i as int]);
                assert(rest.subrange(1, rest.len() as int) =~= rest1);
            }
            let b = input[i];
            let r = self.feed(b);
            match r {
                Some(line) => {
                    lines.push(line);
                    proof {
                        assert(lines@.map_values(|l: Vec<u8>| l@) =~= acc.push(pre));
                        assert(acc.push(pre) + completed_lines(self@, rest1) =~= acc + (seq![
                            pre,
                        ] + completed_lines(Seq::empty(), rest1)));
                        assert(completed_lines(pre, rest) == seq![pre] + completed_lines(
                            Seq::empty(),
                            rest1,
                        ));
                    }
                },
                None => {
                    proof {
                        assert(completed_lines(pre, rest) == completed_lines(self@, rest1));
                    }
                },
            }
            i += 1;
        }
        proof {
            assert(input@.subrange(input@.len() as int, input@.len() as int) =~= Seq::<u8>::empty());
            assert(lines@.map_values(|l: Vec<u8>| l@) + Seq::<Seq<u8>>::empty() =~= lines@.map_values(
                |l: Vec<u8>| l@,
            ));
        }
        lines
    }
}

/// One completed line per carriage return: feeding any byte sequence to a
/// framer completes exactly `count_cr` lines, whatever the buffer held before.
pub proof fn lemma_line_count(buf: Seq<u8>, input: Seq<u8>)
    ensures
        completed_lines(buf, input).len() == count_cr(input),
    decreases input.len(),
{
    if input.len() == 0 {
    } else {
        let rest = input.subrange(1, input.len() as int);
        if input[0] == CR {
            lemma_line_count(Seq::empty(), rest);
        } else if input[0] == LF {
            lemma_line_count(buf, rest);
        } else {
            lemma_line_count(buf.push(input[0]), rest);
        }
    }
}

/// There are exactly as many carriage-return-terminated segments as carriage
/// returns.
pub proof fn lemma_segment_count(s: Seq<u8>)
    ensures
        cr_segments(s).len() == count_cr(s),
    decreases s.len(),
{
    if s.len() == 0 {
    } else {
        lemma_segment_count(s.subrange(1, s.len() as int));
    }
}

/// `lines`, with `prefix` prepended to its first element if it has one.
spec fn prepend_first(prefix: Seq<u8>, lines: Seq<Seq<u8>>) -> Seq<Seq<u8>> {
    if lines.len() == 0 {
        lines
    } else {
        lines.update(0, prefix + lines[0])
    }
}

proof fn lemma_framing_general(buf: Seq<u8>, input: Seq<u8>)
    ensures
        completed_lines(buf, input) == prepend_first(
            buf,
            cr_segments(input).map_values(|s: Seq<u8>| strip_lf(s)),
        ),
    decreases input.len(),
{
    let stripped = cr_segments(input).map_values(|s: Seq<u8>| strip_lf(s));
    if input.len() == 0 {
        assert(completed_lines(buf, input) =~= prepend_first(buf, stripped));
    } else {
        let b = input[0];
        let rest = input.subrange(1, input.len() as int);
        let segs = cr_segments(rest);
        let sr = segs.map_values(|s: Seq<u8>| strip_lf(s));
        if b == CR {
            lemma_framing_general(Seq::empty(), rest);
            if sr.len() > 0 {
                assert(Seq::<u8>::empty() + sr[0] =~= sr[0]);
                assert(prepend_first(Seq::empty(), sr) =~= sr);
            }
            assert(strip_lf(Seq::<u8>::empty()) =~= Seq::<u8>::empty());
            assert(stripped =~= seq![Seq::<u8>::empty()] + sr);
            assert(buf + Seq::<u8>::empty() =~= buf);
            assert(prepend_first(buf, stripped) =~= seq![buf] + sr);
            assert(completed_lines(buf, input) =~= seq![buf] + sr);
        } else if b == LF {
            lemma_framing_general(buf, rest);
            if segs.len() == 0 {
                assert(stripped =~= sr);
            } else {
                let seg0 = seq![b] + segs[0];
                assert(seg0[0] == LF);
                assert(seg0.subrange(1, seg0.len() as int) =~= segs[0]);
                assert(strip_lf(seg0) == strip_lf(segs[0]));
                assert(stripped =~= sr);
            }
        } else {
            lemma_framing_general(buf.push(b), rest);
            if segs.len() == 0 {
                assert(stripped.len() == 0);
                assert(completed_lines(buf, input) =~= prepend_first(buf, stripped));
            } else {
                let seg0 = seq![b] + segs[0];
                assert(seg0[0] == b && b != LF);
                assert(seg0.subrange(1, seg0.len() as int) =~= segs[0]);
                assert(strip_lf(seg0) == seq![b] + strip_lf(segs[0]));
                assert(stripped =~= sr.update(0, seq![b] + sr[0]));
                assert(buf + (seq![b] + sr[0]) =~= buf.push(b) + sr[0]);
                assert(prepend_first(buf, stripped) =~= sr.update(0, buf.push(b) + sr[0]));
                assert(prepend_first(buf.push(b), sr) =~= sr.update(0, buf.push(b) + sr[0]));
            }
        }
    }
}

/// Framing composes: feeding a stream in two pieces completes the same lines,
/// in the same order, as feeding it whole — the second piece starts from the
/// buffer the first piece left behind. A session may therefore feed bytes in
/// chunks of any size without changing what it logs.
pub proof fn lemma_framing_composes(buf: Seq<u8>, a: Seq<u8>, b: Seq<u8>)
    ensures
        completed_lines(buf, a + b) == completed_lines(buf, a) + completed_lines(
            remaining_buffer(buf, a),
            b,
        ),
        remaining_buffer(buf, a + b) == remaining_buffer(remaining_buffer(buf, a), b),
    decreases a.len(),
{
    if a.len() == 0 {
        assert(a + b =~= b);
        assert(completed_lines(buf, a) + completed_lines(buf, b) =~= completed_lines(buf, b));
    } else {
        let rest = a.subrange(1, a.len() as int);
        assert((a + b)[0] == a[0]);
        assert((a + b).subrange(1, (a + b).len() as int) =~= rest + b);
        if a[0] == CR {
            lemma_framing_composes(Seq::empty(), rest, b);
            assert(seq![buf] + (completed_lines(Seq::empty(), rest) + completed_lines(
                remaining_buffer(Seq::empty(), rest),
                b,
            )) =~= (seq![buf] + completed_lines(Seq::empty(), rest)) + completed_lines(
                remaining_buffer(Seq::empty(), rest),
                b,
            ));
        } else if a[0] == LF {
            lemma_framing_composes(buf, rest, b);
        } else {
            lemma_framing_composes(buf.push(a[0]), rest, b);
        }
    }
}

/// For any byte sequence fed to a fresh framer, the completed lines are
/// exactly the carriage-return-terminated segments of the input, each with its
/// line feeds removed and nothing else changed; there is one line per carriage
/// return.
pub proof fn lemma_framing_characterization(input: Seq<u8>)
    ensures
        completed_lines(Seq::empty(), input).len() == count_cr(input),
        completed_lines(Seq::empty(), input) == cr_segments(input).map_values(
            |s: Seq<u8>| strip_lf(s),
        ),
{
    lemma_line_count(Seq::empty(), input);
    lemma_framing_general(Seq::empty(), input);
    let stripped = cr_segments(input).map_values(|s: Seq<u8>| strip_lf(s));
    if stripped.len() > 0 {
        assert(Seq::<u8>::empty() + stripped[0] =~= stripped[0]);
        assert(prepend_first(Seq::empty(), stripped) =~= stripped);
    }
}

} // verus!
