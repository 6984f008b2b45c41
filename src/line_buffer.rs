use vstd::prelude::*;

verus! {

/// The line feed byte that ends a line.
pub const LF: u8 = 10;

/// The carriage return byte, dropped when it comes right before a line feed.
pub const CR: u8 = 13;

/// The raw lines completed in `s`: every segment that a line feed closes,
/// without that line feed, in order.
pub open spec fn raw_lines(s: Seq<u8>) -> Seq<Seq<u8>>
    decreases s.len(),
{
    if s.len() == 0 {
        seq![]
    } else if s.last() == LF {
        raw_lines(s.drop_last()).push(pending_of(s.drop_last()))
    } else {
        raw_lines(s.drop_last())
    }
}

/// The bytes of `s` after its last line feed (all of `s` when it has none).
pub open spec fn pending_of(s: Seq<u8>) -> Seq<u8>
    decreases s.len(),
{
    if s.len() == 0 {
        seq![]
    } else if s.last() == LF {
        seq![]
    } else {
        pending_of(s.drop_last()).push(s.last())
    }
}

/// A raw line as a listener sees it: one trailing carriage return removed.
pub open spec fn strip_cr(line: Seq<u8>) -> Seq<u8> {
    if line.len() > 0 && line.last() == CR {
        line.drop_last()
    } else {
        line
    }
}

/// The lines completed in `s`, as delivered to a line listener.
pub open spec fn lines_of(s: Seq<u8>) -> Seq<Seq<u8>> {
    raw_lines(s).map_values(|l: Seq<u8>| strip_cr(l))
}

/// What a listener receives at end of data: the completed lines, then the
/// unterminated rest as one more line when it is not empty.
pub open spec fn final_lines_of(s: Seq<u8>) -> Seq<Seq<u8>> {
    if pending_of(s).len() > 0 {
        lines_of(s).push(pending_of(s))
    } else {
        lines_of(s)
    }
}

/// The view of a list of byte vectors as a sequence of byte sequences.
pub open spec fn bytes_view(v: Seq<Vec<u8>>) -> Seq<Seq<u8>> {
    v.map_values(|b: Vec<u8>| b@)
}

/// Incremental line reconstruction over one output stream.
pub struct LineBuffer {
    /// Bytes received since the last line feed.
    pub pending: Vec<u8>,
}

impl LineBuffer {
    /// A buffer holds no line feed: it is always the rest of an unfinished line.
    pub open spec fn wf(&self) -> bool {
        forall|i: int| 0 <= i < self.pending@.len() ==> self.pending@[i] != LF
    }

    /// An empty buffer.
    pub fn new() -> (r: LineBuffer)
        ensures
            r.wf(),
            r.pending@ == Seq::<u8>::empty(),
    {
        LineBuffer { pending: Vec::new() }
    }

    /// Takes one chunk and returns the lines it completes, in order, without
    /// their terminators. Bytes after the last line feed stay pending.
    pub fn push(&mut self, chunk: &[u8]) -> (r: Vec<Vec<u8>>)
        requires
            old(self).wf(),
        ensures
            final(self).wf(),
            bytes_view(r@) == lines_of(old(self).pending@ + chunk@),
            final(self).pending@ == pending_of(old(self).pending@ + chunk@),
    {
        let ghost start = self.pending@;
        proof {
            lemma_pending_without_lf(start);
        }
        let mut out: Vec<Vec<u8>> = Vec::new();
        let mut i: usize = 0;
        while i < chunk.len()
            invariant
                0 <= i <= chunk@.len(),
                self.wf(),
                self.pending@ == pending_of(start + chunk@.subrange(0, i as int)),
                bytes_view(out@) == lines_of(start + chunk@.subrange(0, i as int)),
                lines_of(start) == Seq::<Seq<u8>>::empty(),
            decreases chunk@.len() - i,
        {
            let ghost prev = start + chunk@.subrange(0, i as int);
            let ghost next = start + chunk@.subrange(0, i + 1);
            assert(next.drop_last() =~= prev);
            assert(next.last() == chunk@[i as int]);
            let b = chunk[i];
            if b == LF {
                let n = self.pending.len();
                let line: Vec<u8>;
                if n > 0 && self.pending[n - 1] == CR {
                    let mut l = self.pending.clone();
                    l.pop();
                    line = l;
                } else {
                    line = self.pending.clone();
                }
                assert(line@ == strip_cr(pending_of(prev)));
                assert(raw_lines(next) == raw_lines(prev).push(pending_of(prev)));
                assert(lines_of(next) =~= lines_of(prev).push(strip_cr(pending_of(prev))));
                out.push(line);
                self.pending = Vec::new();
                assert(bytes_view(out@) =~= lines_of(next));
            } else {
                self.pending.push(b);
                assert(lines_of(next) =~= lines_of(prev));
            }
            i = i + 1;
        }
        assert(start + chunk@.subrange(0, chunk@.len() as int) =~= start + chunk@);
        out
    }

    /// Ends the stream: returns the unterminated rest as a last line when
    /// there is one, and leaves the buffer empty.
    pub fn finish(&mut self) -> (r: Option<Vec<u8>>)
        requires
            old(self).wf(),
        ensures
            final(self).wf(),
            final(self).pending@ == Seq::<u8>::empty(),
            old(self).pending@.len() == 0 ==> r is None,
            old(self).pending@.len() > 0 ==> (r matches Some(l) && l@ == old(self).pending@),
    {
        if self.pending.len() == 0 {
            None
        } else {
            let l = self.pending.clone();
            self.pending = Vec::new();
            Some(l)
        }
    }
}

/// A sequence without line feeds completes no line and is its own pending rest.
pub proof fn lemma_pending_without_lf(s: Seq<u8>)
    requires
        forall|i: int| 0 <= i < s.len() ==> s[i] != LF,
    ensures
        raw_lines(s) == Seq::<Seq<u8>>::empty(),
        lines_of(s) == Seq::<Seq<u8>>::empty(),
        pending_of(s) == s,
    decreases s.len(),
{
    if s.len() > 0 {
        lemma_pending_without_lf(s.drop_last());
        assert(s.drop_last().push(s.last()) =~= s);
    }
    assert(lines_of(s) =~= Seq::<Seq<u8>>::empty());
}

/// All chunks of a stream, in the order they arrived.
pub open spec fn joined(chunks: Seq<Seq<u8>>) -> Seq<u8>
    decreases chunks.len(),
{
    if chunks.len() == 0 {
        seq![]
    } else {
        joined(chunks.drop_last()) + chunks.last()
    }
}

/// What a `LineBuffer` holds pending after it was pushed each of `chunks`.
pub open spec fn fed_pending(chunks: Seq<Seq<u8>>) -> Seq<u8>
    decreases chunks.len(),
{
    if chunks.len() == 0 {
        seq![]
    } else {
        pending_of(fed_pending(chunks.drop_last()) + chunks.last())
    }
}

/// The lines a `LineBuffer` returns, in order, over pushes of each of `chunks`.
pub open spec fn fed_lines(chunks: Seq<Seq<u8>>) -> Seq<Seq<u8>>
    decreases chunks.len(),
{
    if chunks.len() == 0 {
        seq![]
    } else {
        fed_lines(chunks.drop_last()) + lines_of(fed_pending(chunks.drop_last()) + chunks.last())
    }
}

/// Lines written back out, each followed by a line feed.
pub open spec fn join_lines(lines: Seq<Seq<u8>>) -> Seq<u8>
    decreases lines.len(),
{
    if lines.len() == 0 {
        seq![]
    } else {
        join_lines(lines.drop_last()) + lines.last().push(LF)
    }
}

/// No carriage return stands right before a line feed in `s`.
pub open spec fn no_crlf(s: Seq<u8>) -> bool {
    forall|i: int| 0 <= i && i + 1 < s.len() ==> !(#[trigger] s[i] == CR && s[i + 1] == LF)
}

/// The pending rest never holds a line feed.
pub proof fn lemma_pending_has_no_lf(s: Seq<u8>)
    ensures
        forall|i: int| 0 <= i < pending_of(s).len() ==> pending_of(s)[i] != LF,
        pending_of(s).len() > 0 ==> pending_of(s).last() == s.last(),
    decreases s.len(),
{
    if s.len() > 0 {
        lemma_pending_has_no_lf(s.drop_last());
    }
}

/// Splitting a stream anywhere: the lines of the whole are the lines of the
/// first part, then those of its pending rest followed by the second part.
pub proof fn lemma_split_append(x: Seq<u8>, y: Seq<u8>)
    ensures
        raw_lines(x + y) == raw_lines(x) + raw_lines(pending_of(x) + y),
        pending_of(x + y) == pending_of(pending_of(x) + y),
    decreases y.len(),
{
    let p = pending_of(x);
    if y.len() == 0 {
        lemma_pending_has_no_lf(x);
        lemma_pending_without_lf(p);
        assert(x + y =~= x);
        assert(p + y =~= p);
        assert(raw_lines(x) + raw_lines(p) =~= raw_lines(x));
    } else {
        let y0 = y.drop_last();
        lemma_split_append(x, y0);
        assert((x + y).drop_last() =~= x + y0);
        assert((p + y).drop_last() =~= p + y0);
        assert((x + y).last() == y.last());
        assert((p + y).last() == y.last());
        if y.last() == LF {
            assert(raw_lines(x + y) =~= raw_lines(x) + raw_lines(p + y));
        } else {
            assert(raw_lines(x + y) =~= raw_lines(x) + raw_lines(p + y));
        }
    }
}

/// Mapping lines to what a listener sees keeps concatenation.
pub proof fn lemma_lines_of_split(x: Seq<u8>, y: Seq<u8>)
    ensures
        lines_of(x + y) == lines_of(x) + lines_of(pending_of(x) + y),
{
    lemma_split_append(x, y);
    let f = |l: Seq<u8>| strip_cr(l);
    let a = raw_lines(x);
    let b = raw_lines(pending_of(x) + y);
    assert((a + b).map_values(f) =~= a.map_values(f) + b.map_values(f));
}

/// Chunking is invisible: whatever the chunk boundaries, a `LineBuffer`
/// returns the lines of the whole stream and keeps its unterminated rest.
pub proof fn law_chunking_invisible(chunks: Seq<Seq<u8>>)
    ensures
        fed_lines(chunks) == lines_of(joined(chunks)),
        fed_pending(chunks) == pending_of(joined(chunks)),
    decreases chunks.len(),
{
    if chunks.len() == 0 {
        assert(lines_of(seq![]) =~= Seq::<Seq<u8>>::empty());
    } else {
        let rest = chunks.drop_last();
        law_chunking_invisible(rest);
        lemma_split_append(joined(rest), chunks.last());
        lemma_lines_of_split(joined(rest), chunks.last());
    }
}

/// The raw lines, each given its line feed back, followed by the pending
/// rest, are the stream itself.
pub proof fn lemma_raw_reconstruction(s: Seq<u8>)
    ensures
        join_lines(raw_lines(s)) + pending_of(s) == s,
    decreases s.len(),
{
    if s.len() > 0 {
        let s0 = s.drop_last();
        lemma_raw_reconstruction(s0);
        if s.last() == LF {
            let p0 = pending_of(s0);
            let ls = raw_lines(s0).push(p0);
            assert(ls.drop_last() =~= raw_lines(s0));
            assert(join_lines(ls) == join_lines(raw_lines(s0)) + p0.push(LF));
            assert(join_lines(raw_lines(s0)) + p0.push(LF) =~= (join_lines(raw_lines(s0)) + p0).push(LF));
            assert(s0.push(s.last()) =~= s);
            assert(join_lines(raw_lines(s)) + pending_of(s) =~= s);
        } else {
            let j = join_lines(raw_lines(s0));
            assert(j + pending_of(s0).push(s.last()) =~= (j + pending_of(s0)).push(s.last()));
            assert(s0.push(s.last()) =~= s);
            assert(join_lines(raw_lines(s)) + pending_of(s) =~= s);
        }
    } else {
        assert(join_lines(raw_lines(s)) + pending_of(s) =~= s);
    }
}

/// Without a carriage return before a line feed, no raw line ends in one,
/// so listeners see the raw lines unchanged.
pub proof fn lemma_no_crlf_lines_are_raw(s: Seq<u8>)
    requires
        no_crlf(s),
    ensures
        lines_of(s) == raw_lines(s),
    decreases s.len(),
{
    if s.len() > 0 {
        let s0 = s.drop_last();
        assert(no_crlf(s0)) by {
            assert forall|i: int| 0 <= i && i + 1 < s0.len() implies !(#[trigger] s0[i] == CR && s0[i + 1] == LF) by {
                assert(s0[i] == s[i] && s0[i + 1] == s[i + 1]);
            }
        }
        lemma_no_crlf_lines_are_raw(s0);
        if s.last() == LF {
            lemma_pending_has_no_lf(s0);
            let p = pending_of(s0);
            if p.len() > 0 {
                assert(s[s.len() - 2] == s0.last());
            }
            assert(strip_cr(p) == p);
            assert(lines_of(s) =~= lines_of(s0).push(strip_cr(p)));
        }
    } else {
        assert(lines_of(s) =~= raw_lines(s));
    }
}

/// Line reconstruction: over any chunking of a stream with no carriage
/// return before a line feed, the lines returned, each given a line feed
/// back, followed by the rest flushed at the end, are the stream exactly.
pub proof fn law_line_reconstruction(chunks: Seq<Seq<u8>>)
    requires
        no_crlf(joined(chunks)),
    ensures
        join_lines(fed_lines(chunks)) + fed_pending(chunks) == joined(chunks),
{
    law_chunking_invisible(chunks);
    lemma_no_crlf_lines_are_raw(joined(chunks));
    lemma_raw_reconstruction(joined(chunks));
}

} // verus!
