//! Framing of streamed response bodies: bytes into lines, lines into
//! server-sent-event payloads or NDJSON records.
use vstd::prelude::*;

use crate::text::chars_of;

verus! {

/// What `String::from_utf8_lossy` makes of a byte sequence.
pub uninterp spec fn spec_utf8_lossy(bytes: Seq<u8>) -> Seq<char>;

/// `String::from_utf8_lossy(bytes).into_owned()`: the text of the bytes, with
/// each invalid UTF-8 sequence replaced by U+FFFD.
#[verifier::external_body]
fn utf8_lossy(bytes: &[u8]) -> (r: String)
    ensures
        r@ == spec_utf8_lossy(bytes@),
{
    String::from_utf8_lossy(bytes).into_owned()
}

/// A line without its `\r` terminator, if it has one.
pub open spec fn strip_cr(line: Seq<u8>) -> Seq<u8> {
    if line.len() > 0 && line.last() == 13u8 {
        line.drop_last()
    } else {
        line
    }
}

pub open spec fn has_newline(b: Seq<u8>) -> bool {
    exists|i: int| 0 <= i < b.len() && b[i] == 10u8
}

/// The index of the first `\n` in `b` (when there is one).
pub open spec fn first_newline(b: Seq<u8>) -> int {
    choose|i: int| 0 <= i < b.len() && b[i] == 10u8 && forall|j: int| 0 <= j < i ==> b[j] != 10u8
}

proof fn lemma_first_newline(b: Seq<u8>, p: int)
    requires
        0 <= p < b.len(),
        b[p] == 10u8,
        forall|j: int| 0 <= j < p ==> b[j] != 10u8,
    ensures
        has_newline(b),
        first_newline(b) == p,
{
    let q = first_newline(b);
    assert(0 <= q < b.len() && b[q] == 10u8 && forall|j: int| 0 <= j < q ==> b[j] != 10u8);
    if q < p {
        assert(b[q] != 10u8);
    }
    if p < q {
        assert(b[p] != 10u8);
    }
}

/// The complete lines of a byte buffer (each without its `\n` and a `\r`
/// before it) and the bytes after the last `\n`.
#[verifier::opaque]
pub open spec fn split_lines(b: Seq<u8>) -> (Seq<Seq<u8>>, Seq<u8>)
    decreases b.len(),
{
    if has_newline(b) {
        let p = first_newline(b);
        if 0 <= p < b.len() {
            let rest = split_lines(b.skip(p + 1));
            (seq![strip_cr(b.take(p))] + rest.0, rest.1)
        } else {
            (Seq::empty(), b)
        }
    } else {
        (Seq::empty(), b)
    }
}

/// The decoded text of each line.
pub open spec fn decode_lines(lines: Seq<Seq<u8>>) -> Seq<Seq<char>> {
    lines.map_values(|l: Seq<u8>| spec_utf8_lossy(l))
}

/// Splits a byte stream into lines as its chunks arrive, keeping the bytes of
/// an incomplete last line until its `\n` comes.
pub struct LineSplitter {
    pending: Vec<u8>,
}

impl View for LineSplitter {
    type V = Seq<u8>;

    closed spec fn view(&self) -> Seq<u8> {
        self.pending@
    }
}

fn copy_range(v: &Vec<u8>, from: usize, to: usize) -> (r: Vec<u8>)
    requires
        from <= to <= v@.len(),
    ensures
        r@ == v@.subrange(from as int, to as int),
{
    let mut out: Vec<u8> = Vec::new();
    let mut i = from;
    while i < to
        invariant
            from <= i <= to <= v@.len(),
            out@ == v@.subrange(from as int, i as int),
        decreases to - i,
    {
        out.push(v[i]);
        i = i + 1;
        assert(out@ =~= v@.subrange(from as int, i as int));
    }
    out
}

proof fn lemma_split_at_newline(b: Seq<u8>, start: int, i: int)
    requires
        0 <= start <= i < b.len(),
        b[i] == 10u8,
        forall|j: int| start <= j < i ==> b[j] != 10u8,
    ensures
        split_lines(b.skip(start)) == (
            seq![strip_cr(b.subrange(start, i))] + split_lines(b.skip(i + 1)).0,
            split_lines(b.skip(i + 1)).1,
        ),
{
    let rest = b.skip(start);
    let p = i - start;
    assert forall|j: int| 0 <= j < p implies rest[j] != 10u8 by {
        assert(rest[j] == b[start + j]);
    }
    assert(rest[p] == b[i]);
    lemma_first_newline(rest, p);
    let tail = rest.skip(p + 1);
    assert(tail =~= b.skip(i + 1));
    assert(rest.take(p) =~= b.subrange(start, i));
    assert(split_lines(rest) == (seq![strip_cr(rest.take(p))] + split_lines(tail).0, split_lines(tail).1)) by {
        reveal_with_fuel(split_lines, 1);
    }
}

proof fn lemma_split_no_newline(b: Seq<u8>, start: int)
    requires
        0 <= start <= b.len(),
        forall|j: int| start <= j < b.len() ==> b[j] != 10u8,
    ensures
        split_lines(b.skip(start)) == (Seq::<Seq<u8>>::empty(), b.skip(start)),
{
    reveal(split_lines);
    let rest = b.skip(start);
    assert(!has_newline(rest)) by {
        if has_newline(rest) {
            let w = choose|w: int| 0 <= w < rest.len() && rest[w] == 10u8;
            assert(b[start + w] == 10u8);
        }
    }
}

fn concat_bytes(a: &Vec<u8>, b: &[u8]) -> (r: Vec<u8>)
    ensures
        r@ == a@ + b@,
{
    let mut all: Vec<u8> = Vec::new();
    let mut k: usize = 0;
    while k < a.len()
        invariant
            k <= a@.len(),
            all@ == a@.take(k as int),
        decreases a@.len() - k,
    {
        all.push(a[k]);
        k = k + 1;
        assert(all@ =~= a@.take(k as int));
    }
    let mut k: usize = 0;
    while k < b.len()
        invariant
            k <= b@.len(),
            all@ == a@ + b@.take(k as int),
        decreases b@.len() - k,
    {
        all.push(b[k]);
        k = k + 1;
        assert(all@ =~= a@ + b@.take(k as int));
    }
    assert(b@.take(b@.len() as int) =~= b@);
    all
}

/// The text of the line `all[start..i]`, without a final `\r`.
fn line_text(all: &Vec<u8>, start: usize, i: usize) -> (r: String)
    requires
        start <= i <= all@.len(),
    ensures
        r@ == spec_utf8_lossy(strip_cr(all@.subrange(start as int, i as int))),
{
    let mut end = i;
    if end > start && all[end - 1] == 13u8 {
        end = end - 1;
    }
    let line = copy_range(all, start, end);
    assert(line@ =~= strip_cr(all@.subrange(start as int, i as int)));
    utf8_lossy(line.as_slice())
}

impl LineSplitter {
    pub fn new() -> (r: Self)
        ensures
            r@ == Seq::<u8>::empty(),
    {
        LineSplitter { pending: Vec::new() }
    }

    /// Takes a chunk of bytes and returns the lines it completes, decoded as
    /// UTF-8 (lossily).
    pub fn push_chunk(&mut self, chunk: &[u8]) -> (r: Vec<String>)
        ensures
            r@.map_values(|s: String| s@) == decode_lines(split_lines(old(self)@ + chunk@).0),
            final(self)@ == split_lines(old(self)@ + chunk@).1,
    {
        let all = concat_bytes(&self.pending, chunk);
        let ghost all0 = all@;
        let mut out: Vec<String> = Vec::new();
        let ghost mut done: Seq<Seq<u8>> = Seq::empty();
        let mut start: usize = 0;
        let mut i: usize = 0;
        assert(all0.skip(0) =~= all0);
        while i < all.len()
            invariant
                all@ == all0,
                start <= i <= all0.len(),
                forall|j: int| start <= j < i ==> all0[j] != 10u8,
                split_lines(all0).0 == done + split_lines(all0.skip(start as int)).0,
                split_lines(all0).1 == split_lines(all0.skip(start as int)).1,
                out@.len() == done.len(),
                forall|k: int| 0 <= k < done.len() ==> (#[trigger] out@[k])@ == spec_utf8_lossy(done[k]),
            decreases all0.len() - i,
        {
            if all[i] == 10u8 {
                proof {
                    lemma_split_at_newline(all0, start as int, i as int);
                }
                let text = line_text(&all, start, i);
                out.push(text);
                proof {
                    let line = strip_cr(all0.subrange(start as int, i as int));
                    let old_done = done;
                    done = done.push(line);
                    assert(done + split_lines(all0.skip(i + 1)).0 =~= old_done + split_lines(
                        all0.skip(start as int),
                    ).0);
                }
                start = i + 1;
            }
            i = i + 1;
        }
        proof {
            lemma_split_no_newline(all0, start as int);
            assert(done + Seq::<Seq<u8>>::empty() =~= done);
            assert(out@.map_values(|s: String| s@) =~= decode_lines(done));
        }
        self.pending = copy_range(&all, start, all.len());
        proof {
            assert(self.pending@ =~= all0.skip(start as int));
        }
        out
    }
}

/// One line of a server-sent-event stream applied to the data gathered so
/// far: a blank line ends an event (yielding its data, if it has any), a
/// `data: ` line adds to the data, and other lines are ignored.
pub open spec fn sse_step(data: Seq<char>, line: Seq<char>) -> (Seq<char>, Option<Seq<char>>) {
    if line.len() == 0 {
        if data.len() > 0 {
            (Seq::empty(), Some(data))
        } else {
            (data, None)
        }
    } else if line.len() >= 6 && line.take(6) == "data: "@ {
        (data + line.skip(6), None)
    } else {
        (data, None)
    }
}

/// The lines applied in order: the data left over and the event payloads.
pub open spec fn sse_fold(data: Seq<char>, lines: Seq<Seq<char>>) -> (Seq<char>, Seq<Seq<char>>)
    decreases lines.len(),
{
    if lines.len() == 0 {
        (data, Seq::empty())
    } else {
        let prev = sse_fold(data, lines.drop_last());
        let step = sse_step(prev.0, lines.last());
        (
            step.0,
            match step.1 {
                Some(p) => prev.1.push(p),
                None => prev.1,
            },
        )
    }
}

fn starts_with_data_prefix(v: &Vec<char>) -> (r: bool)
    ensures
        r == (v@.len() >= 6 && v@.take(6) == "data: "@),
{
    proof {
        reveal_strlit("data: ");
    }
    if v.len() < 6 {
        return false;
    }
    let r = v[0] == 'd' && v[1] == 'a' && v[2] == 't' && v[3] == 'a' && v[4] == ':' && v[5] == ' ';
    proof {
        if r {
            assert(v@.take(6) =~= "data: "@);
        } else {
            if v@.take(6) == "data: "@ {
                assert(v@.take(6)[0] == 'd');
                assert(v@.take(6)[1] == 'a');
                assert(v@.take(6)[2] == 't');
                assert(v@.take(6)[3] == 'a');
                assert(v@.take(6)[4] == ':');
                assert(v@.take(6)[5] == ' ');
            }
        }
    }
    r
}

/// Gathers the payloads of server-sent events from a byte stream.
pub struct SseDecoder {
    lines: LineSplitter,
    data: String,
}

pub struct SseView {
    pub pending: Seq<u8>,
    pub data: Seq<char>,
}

impl View for SseDecoder {
    type V = SseView;

    closed spec fn view(&self) -> SseView {
        SseView { pending: self.lines@, data: self.data@ }
    }
}

impl SseDecoder {
    pub fn new() -> (r: Self)
        ensures
            r@.pending == Seq::<u8>::empty(),
            r@.data == Seq::<char>::empty(),
    {
        SseDecoder { lines: LineSplitter::new(), data: String::new() }
    }

    /// Applies one line of the stream; returns the payload of the event the
    /// line ends, if it ends one.
    pub fn push_line(&mut self, line: &str) -> (r: Option<String>)
        ensures
            final(self)@.pending == old(self)@.pending,
            final(self)@.data == sse_step(old(self)@.data, line@).0,
            opt_text(r) == sse_step(old(self)@.data, line@).1,
    {
        let v = chars_of(line);
        if v.len() == 0 {
            if self.data.as_str().is_empty() {
                None
            } else {
                let mut payload = String::new();
                std::mem::swap(&mut payload, &mut self.data);
                Some(payload)
            }
        } else if starts_with_data_prefix(&v) {
            let mut k: usize = 6;
            let ghost d0 = self.data@;
            while k < v.len()
                invariant
                    6 <= k <= v@.len(),
                    v@ == line@,
                    self.lines@ == old(self)@.pending,
                    self.data@ == d0 + line@.subrange(6, k as int),
                decreases v@.len() - k,
            {
                crate::text::push_char(&mut self.data, v[k]);
                k = k + 1;
                assert(self.data@ =~= d0 + line@.subrange(6, k as int));
            }
            assert(line@.subrange(6, v@.len() as int) =~= line@.skip(6));
            None
        } else {
            None
        }
    }

    /// Takes a chunk of the body and returns the payloads of the events it completes.
    pub fn push_chunk(&mut self, chunk: &[u8]) -> (r: Vec<String>)
        ensures
            final(self)@.pending == split_lines(old(self)@.pending + chunk@).1,
            final(self)@.data == sse_fold(
                old(self)@.data,
                decode_lines(split_lines(old(self)@.pending + chunk@).0),
            ).0,
            r@.map_values(|s: String| s@) == sse_fold(
                old(self)@.data,
                decode_lines(split_lines(old(self)@.pending + chunk@).0),
            ).1,
    {
        let lines = self.lines.push_chunk(chunk);
        let ghost ls = lines@.map_values(|s: String| s@);
        let ghost d0 = self.data@;
        let mut out: Vec<String> = Vec::new();
        let mut i: usize = 0;
        while i < lines.len()
            invariant
                i <= lines@.len(),
                ls == lines@.map_values(|s: String| s@),
                self.lines@ == split_lines(old(self)@.pending + chunk@).1,
                self.data@ == sse_fold(d0, ls.take(i as int)).0,
                out@.map_values(|s: String| s@) == sse_fold(d0, ls.take(i as int)).1,
            decreases lines@.len() - i,
        {
            let r = self.push_line(lines[i].as_str());
            proof {
                assert(ls.take(i + 1).drop_last() =~= ls.take(i as int));
                assert(ls.take(i + 1).last() == lines@[i as int]@);
            }
            match r {
                Some(p) => {
                    out.push(p);
                    proof {
                        assert(out@.map_values(|s: String| s@) =~= sse_fold(d0, ls.take(i + 1)).1);
                    }
                },
                None => {
                    proof {
                        assert(out@.map_values(|s: String| s@) =~= sse_fold(d0, ls.take(i + 1)).1);
                    }
                },
            }
            i = i + 1;
        }
        assert(ls.take(lines@.len() as int) =~= ls);
        out
    }
}

pub open spec fn opt_text(o: Option<String>) -> Option<Seq<char>> {
    match o {
        Some(s) => Some(s@),
        None => None,
    }
}

/// The non-empty lines of a sequence of lines (the records of an NDJSON stream).
pub open spec fn non_empty_lines(lines: Seq<Seq<char>>) -> Seq<Seq<char>> {
    lines.filter(|l: Seq<char>| l.len() > 0)
}

/// Splits an NDJSON body into its records as its chunks arrive.
pub struct NdjsonDecoder {
    lines: LineSplitter,
}

impl View for NdjsonDecoder {
    type V = Seq<u8>;

    closed spec fn view(&self) -> Seq<u8> {
        self.lines@
    }
}

impl NdjsonDecoder {
    pub fn new() -> (r: Self)
        ensures
            r@ == Seq::<u8>::empty(),
    {
        NdjsonDecoder { lines: LineSplitter::new() }
    }

    /// Takes a chunk of the body and returns the non-empty lines it completes.
    pub fn push_chunk(&mut self, chunk: &[u8]) -> (r: Vec<String>)
        ensures
            final(self)@ == split_lines(old(self)@ + chunk@).1,
            r@.map_values(|s: String| s@) == non_empty_lines(
                decode_lines(split_lines(old(self)@ + chunk@).0),
            ),
    {
        let lines = self.lines.push_chunk(chunk);
        let ghost ls = lines@.map_values(|s: String| s@);
        let mut out: Vec<String> = Vec::new();
        let mut i: usize = 0;
        while i < lines.len()
            invariant
                i <= lines@.len(),
                ls == lines@.map_values(|s: String| s@),
                self.lines@ == split_lines(old(self)@ + chunk@).1,
                out@.map_values(|s: String| s@) == non_empty_lines(ls.take(i as int)),
            decreases lines@.len() - i,
        {
            proof {
                reveal(Seq::filter);
                assert(ls.take(i + 1).drop_last() =~= ls.take(i as int));
            }
            if !lines[i].as_str().is_empty() {
                out.push(lines[i].clone());
            }
            proof {
                assert(out@.map_values(|s: String| s@) =~= non_empty_lines(ls.take(i + 1)));
            }
            i = i + 1;
        }
        assert(ls.take(lines@.len() as int) =~= ls);
        out
    }
}


proof fn lemma_min_newline(b: Seq<u8>, w: int)
    requires
        0 <= w < b.len(),
        b[w] == 10u8,
    ensures
        0 <= first_newline(b) < b.len(),
        b[first_newline(b)] == 10u8,
        forall|j: int| 0 <= j < first_newline(b) ==> b[j] != 10u8,
    decreases w,
{
    if exists|j: int| 0 <= j < w && b[j] == 10u8 {
        let j = choose|j: int| 0 <= j < w && b[j] == 10u8;
        lemma_min_newline(b, j);
    } else {
        lemma_first_newline(b, w);
    }
}

/// Splitting into lines does not depend on where a chunk ends: the lines of
/// `x + b` are those of `x` followed by those of what `x` left pending plus `b`.
pub proof fn law_split_lines_chunked(x: Seq<u8>, b: Seq<u8>)
    ensures
        split_lines(x + b).0 == split_lines(x).0 + split_lines(split_lines(x).1 + b).0,
        split_lines(x + b).1 == split_lines(split_lines(x).1 + b).1,
    decreases x.len(),
{
    let xb = x + b;
    assert(x.skip(0) =~= x);
    assert(xb.skip(0) =~= xb);
    if has_newline(x) {
        let w = choose|w: int| 0 <= w < x.len() && x[w] == 10u8;
        lemma_min_newline(x, w);
        let p = first_newline(x);
        assert forall|j: int| 0 <= j < p implies xb[j] != 10u8 by {
            assert(xb[j] == x[j]);
        }
        assert(xb[p] == x[p]);
        lemma_split_at_newline(x, 0, p);
        lemma_split_at_newline(xb, 0, p);
        assert(xb.skip(p + 1) =~= x.skip(p + 1) + b);
        assert(xb.subrange(0, p) =~= x.subrange(0, p));
        law_split_lines_chunked(x.skip(p + 1), b);
        assert(split_lines(xb).0 =~= split_lines(x).0 + split_lines(split_lines(x).1 + b).0);
    } else {
        lemma_split_no_newline(x, 0);
        assert(split_lines(x).0 + split_lines(x + b).0 =~= split_lines(x + b).0);
    }
}

/// Applying two runs of lines one after the other is applying them together:
/// the payloads of the second run follow those of the first.
pub proof fn law_sse_fold_concat(data: Seq<char>, l1: Seq<Seq<char>>, l2: Seq<Seq<char>>)
    ensures
        sse_fold(data, l1 + l2).0 == sse_fold(sse_fold(data, l1).0, l2).0,
        sse_fold(data, l1 + l2).1 == sse_fold(data, l1).1 + sse_fold(sse_fold(data, l1).0, l2).1,
    decreases l2.len(),
{
    if l2.len() == 0 {
        assert(l1 + l2 =~= l1);
        assert(sse_fold(data, l1).1 + Seq::<Seq<char>>::empty() =~= sse_fold(data, l1).1);
    } else {
        law_sse_fold_concat(data, l1, l2.drop_last());
        assert((l1 + l2).drop_last() =~= l1 + l2.drop_last());
        assert((l1 + l2).last() == l2.last());
        let mid = sse_fold(data, l1).0;
        let step = sse_step(sse_fold(mid, l2.drop_last()).0, l2.last());
        match step.1 {
            Some(p) => {
                assert(sse_fold(data, l1).1 + sse_fold(mid, l2.drop_last()).1.push(p) =~= (
                sse_fold(data, l1).1 + sse_fold(mid, l2.drop_last()).1).push(p));
            },
            None => {},
        }
    }
}


/// Feeding a server-sent-event decoder two chunks one after the other yields
/// the same payloads, and leaves the same state, as feeding it both at once.
pub proof fn law_sse_decoder_chunked(pending: Seq<u8>, data: Seq<char>, a: Seq<u8>, b: Seq<u8>)
    ensures
        ({
            let s1 = split_lines(pending + a);
            let f1 = sse_fold(data, decode_lines(s1.0));
            let s2 = split_lines(s1.1 + b);
            let f2 = sse_fold(f1.0, decode_lines(s2.0));
            let s = split_lines(pending + (a + b));
            let f = sse_fold(data, decode_lines(s.0));
            &&& s.1 == s2.1
            &&& f.0 == f2.0
            &&& f.1 == f1.1 + f2.1
        }),
{
    let s1 = split_lines(pending + a);
    let s2 = split_lines(s1.1 + b);
    assert(pending + (a + b) =~= (pending + a) + b);
    law_split_lines_chunked(pending + a, b);
    assert(decode_lines(s1.0 + s2.0) =~= decode_lines(s1.0) + decode_lines(s2.0));
    law_sse_fold_concat(data, decode_lines(s1.0), decode_lines(s2.0));
}

} // verus!
