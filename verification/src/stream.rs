//! Stream frame parsing: the response body is a line-oriented event stream.
//! Bytes arrive in arbitrary chunks; complete newline-terminated lines are
//! scanned out of a buffer. Blank or non-`data:` lines are ignored, a
//! `data:` line whose payload is the terminal sentinel `[DONE]` finishes the
//! stream, and any other `data:` payload yields zero or more content deltas.

use vstd::prelude::*;

verus! {

/// ASCII whitespace, as stripped from the ends of a frame line.
pub open spec fn is_ws(b: u8) -> bool {
    b == 32 || (9 <= b <= 13)
}

/// First index at or after `i` holding a byte that is not whitespace.
pub open spec fn ws_from(s: Seq<u8>, i: nat) -> nat
    recommends
        i <= s.len(),
    decreases s.len() - i,
{
    if i < s.len() && is_ws(s[i as int]) {
        ws_from(s, i + 1)
    } else {
        i
    }
}

/// Exclusive end of the non-whitespace part, scanning left from `j`.
pub open spec fn ws_until(s: Seq<u8>, j: nat) -> nat
    recommends
        j <= s.len(),
    decreases j,
{
    if j > 0 && is_ws(s[j - 1]) {
        ws_until(s, (j - 1) as nat)
    } else {
        j
    }
}

/// The line with ASCII whitespace stripped from both ends.
pub open spec fn trim_spec(s: Seq<u8>) -> Seq<u8> {
    let a = ws_from(s, 0);
    let b = ws_until(s, s.len());
    if a < b {
        s.subrange(a as int, b as int)
    } else {
        Seq::empty()
    }
}

/// The `data:` frame prefix.
pub open spec fn data_prefix() -> Seq<u8> {
    seq![100u8, 97u8, 116u8, 97u8, 58u8]
}

/// The terminal sentinel payload.
pub open spec fn sentinel_seq() -> Seq<u8> {
    seq![91u8, 68u8, 79u8, 78u8, 69u8, 93u8]
}

/// Whether a trimmed line carries a frame payload.
pub open spec fn is_data_line(t: Seq<u8>) -> bool {
    t.len() >= 5 && t.subrange(0, 5) == data_prefix()
}

/// The trimmed payload following the `data:` prefix.
pub open spec fn payload_spec(line: Seq<u8>) -> Seq<u8> {
    trim_spec(trim_spec(line).skip(5))
}

/// The content deltas carried by a frame payload, in order. A payload that
/// does not parse as a frame, or one without content fields, has none.
pub uninterp spec fn deltas_of(payload: Seq<u8>) -> Seq<Seq<u8>>;

/// The byte views of a vector of delta buffers.
pub open spec fn views_of(s: Seq<Vec<u8>>) -> Seq<Seq<u8>> {
    s.map_values(|v: Vec<u8>| v@)
}

/// Whether this line is the terminal sentinel frame.
pub open spec fn line_finishes(line: Seq<u8>) -> bool {
    is_data_line(trim_spec(line)) && payload_spec(line) == sentinel_seq()
}

/// The deltas contributed by one complete line.
pub open spec fn line_deltas(line: Seq<u8>) -> Seq<Seq<u8>> {
    let t = trim_spec(line);
    if !is_data_line(t) {
        Seq::empty()
    } else if payload_spec(line) == sentinel_seq() {
        Seq::empty()
    } else {
        deltas_of(payload_spec(line))
    }
}

/// First index at or after `i` holding a newline.
pub open spec fn nl_from(s: Seq<u8>, i: nat) -> nat
    recommends
        i <= s.len(),
    decreases s.len() - i,
{
    if i < s.len() && s[i as int] != 10 {
        nl_from(s, i + 1)
    } else {
        i
    }
}

/// Scanning a byte buffer: the deltas of its complete lines up to and
/// excluding the sentinel line, whether the sentinel was reached, and the
/// bytes left unconsumed (the partial last line, or everything after the
/// sentinel line).
pub open spec fn scan(b: Seq<u8>) -> (Seq<Seq<u8>>, bool, Seq<u8>)
    decreases b.len(),
{
    let nl = nl_from(b, 0);
    if nl >= b.len() {
        (Seq::empty(), false, b)
    } else {
        let line = b.subrange(0, nl as int + 1);
        let rest = b.subrange(nl as int + 1, b.len() as int);
        if line_finishes(line) {
            (Seq::empty(), true, rest)
        } else {
            let t = scan(rest);
            (line_deltas(line) + t.0, t.1, t.2)
        }
    }
}

/// Relies on serde_json: `from_slice` into `serde_json::Value` and the
/// `Value` accessors. The deltas of a payload are the string fields found at
/// `choices[*].delta.content` of the parsed document, in order; a payload
/// that does not parse to an object of that shape yields none. The result
/// depends on the payload bytes alone.
#[verifier::external_body]
fn payload_deltas(payload: &Vec<u8>) -> (r: Vec<Vec<u8>>)
    ensures
        views_of(r@) == deltas_of(payload@),
{
    let mut out: Vec<Vec<u8>> = Vec::new();
    if let Ok(serde_json::Value::Object(root)) = serde_json::from_slice::<serde_json::Value>(
        payload,
    ) {
        if let Some(serde_json::Value::Array(choices)) = root.get("choices") {
            for c in choices {
                if let Some(serde_json::Value::String(s)) = c.get("delta").and_then(
                    |d| d.get("content"),
                ) {
                    out.push(s.clone().into_bytes());
                }
            }
        }
    }
    out
}

fn is_ws_byte(b: u8) -> (r: bool)
    ensures
        r == is_ws(b),
{
    b == 32 || (9 <= b && b <= 13)
}

/// Copy of `v[from..to]`.
fn copy_range(v: &Vec<u8>, from: usize, to: usize) -> (r: Vec<u8>)
    requires
        from <= to <= v@.len(),
    ensures
        r@ == v@.subrange(from as int, to as int),
{
    let mut r: Vec<u8> = Vec::new();
    let mut k = from;
    while k < to
        invariant
            from <= k <= to <= v@.len(),
            r@ == v@.subrange(from as int, k as int),
        decreases to - k,
    {
        r.push(v[k]);
        proof {
            assert(r@ =~= v@.subrange(from as int, k + 1));
        }
        k = k + 1;
    }
    r
}

/// The line with ASCII whitespace stripped from both ends.
fn trim_vec(v: &Vec<u8>) -> (r: Vec<u8>)
    ensures
        r@ == trim_spec(v@),
{
    let n = v.len();
    let mut a: usize = 0;
    while a < n && is_ws_byte(v[a])
        invariant
            0 <= a <= n,
            n == v@.len(),
            ws_from(v@, 0) == ws_from(v@, a as nat),
        decreases n - a,
    {
        a = a + 1;
    }
    let mut b: usize = n;
    while b > 0 && is_ws_byte(v[b - 1])
        invariant
            0 <= b <= n,
            n == v@.len(),
            ws_until(v@, n as nat) == ws_until(v@, b as nat),
        decreases b,
    {
        b = b - 1;
    }
    if a < b {
        copy_range(v, a, b)
    } else {
        Vec::new()
    }
}

/// The outcome of one complete line: whether it is the sentinel, and the
/// deltas it carries.
pub fn process_line(line: &Vec<u8>) -> (r: (bool, Vec<Vec<u8>>))
    ensures
        r.0 == line_finishes(line@),
        views_of(r.1@) == line_deltas(line@),
{
    let t = trim_vec(line);
    // the five bytes of the `data:` prefix
    let not_data = t.len() < 5 || !(t[0] == 100 && t[1] == 97 && t[2] == 116 && t[3] == 97
        && t[4] == 58);
    if not_data {
        proof {
            if t@.len() >= 5 && t@.subrange(0, 5) == data_prefix() {
                assert(t@.subrange(0, 5)[0] == t@[0]);
                assert(t@.subrange(0, 5)[1] == t@[1]);
                assert(t@.subrange(0, 5)[2] == t@[2]);
                assert(t@.subrange(0, 5)[3] == t@[3]);
                assert(t@.subrange(0, 5)[4] == t@[4]);
            }
            assert(!is_data_line(t@));
            assert(views_of(Seq::<Vec<u8>>::empty()) =~= Seq::<Seq<u8>>::empty());
        }
        return (false, Vec::new());
    }
    proof {
        assert(t@.subrange(0, 5) =~= data_prefix());
        assert(is_data_line(t@));
    }
    let after = copy_range(&t, 5, t.len());
    proof {
        assert(after@ =~= t@.skip(5));
    }
    let p = trim_vec(&after);
    // the six bytes of the `[DONE]` sentinel
    let is_sentinel = p.len() == 6 && p[0] == 91 && p[1] == 68 && p[2] == 79 && p[3] == 78
        && p[4] == 69 && p[5] == 93;
    if is_sentinel {
        proof {
            assert(p@ =~= sentinel_seq());
            assert(views_of(Seq::<Vec<u8>>::empty()) =~= Seq::<Seq<u8>>::empty());
        }
        (true, Vec::new())
    } else {
        proof {
            if p@ == sentinel_seq() {
                assert(p@.len() == 6);
                assert(p@[0] == 91 && p@[1] == 68 && p@[2] == 79 && p@[3] == 78 && p@[4] == 69
                    && p@[5] == 93);
            }
            assert(p@ != sentinel_seq());
        }
        let ds = payload_deltas(&p);
        (false, ds)
    }
}

/// Incremental scanner over the arriving byte stream of one attempt.
pub struct StreamAssembler {
    buffer: Vec<u8>,
    finished: bool,
}

impl StreamAssembler {
    /// Bytes received but not yet part of a complete processed line.
    pub closed spec fn pending(self) -> Seq<u8> {
        self.buffer@
    }

    /// Whether the terminal sentinel has been seen.
    pub closed spec fn done(self) -> bool {
        self.finished
    }

    pub fn new() -> (r: Self)
        ensures
            r.pending() == Seq::<u8>::empty(),
            !r.done(),
    {
        StreamAssembler { buffer: Vec::new(), finished: false }
    }

    pub fn is_done(&self) -> (r: bool)
        ensures
            r == self.done(),
    {
        self.finished
    }

    /// Feed one arriving chunk; the deltas of every line completed by it are
    /// returned in arrival order. Stops consuming at the terminal sentinel.
    pub fn append_chunk(&mut self, chunk: &Vec<u8>) -> (deltas: Vec<Vec<u8>>)
        requires
            !old(self).done(),
        ensures
            views_of(deltas@) == scan(old(self).pending() + chunk@).0,
            final(self).done() == scan(old(self).pending() + chunk@).1,
            final(self).pending() == scan(old(self).pending() + chunk@).2,
    {
        let ghost buf0 = self.buffer@;
        let ghost orig = self.buffer@ + chunk@;
        let mut k: usize = 0;
        while k < chunk.len()
            invariant
                0 <= k <= chunk@.len(),
                self.buffer@ == buf0 + chunk@.take(k as int),
                !self.finished,
            decreases chunk@.len() - k,
        {
            self.buffer.push(chunk[k]);
            proof {
                assert(self.buffer@ =~= buf0 + chunk@.take(k + 1));
            }
            k = k + 1;
        }
        proof {
            assert(self.buffer@ =~= orig);
        }
        let mut out: Vec<Vec<u8>> = Vec::new();
        proof {
            assert(views_of(out@) =~= Seq::<Seq<u8>>::empty());
        }
        loop
            invariant_except_break
                !self.finished,
                scan(orig).0 =~= views_of(out@) + scan(self.buffer@).0,
                scan(orig).1 == scan(self.buffer@).1,
                scan(orig).2 =~= scan(self.buffer@).2,
            ensures
                views_of(out@) =~= scan(orig).0,
                self.finished == scan(orig).1,
                self.buffer@ =~= scan(orig).2,
            decreases self.buffer@.len(),
        {
            let n = self.buffer.len();
            let mut j: usize = 0;
            while j < n && self.buffer[j] != 10
                invariant
                    0 <= j <= n,
                    n == self.buffer@.len(),
                    nl_from(self.buffer@, 0) == nl_from(self.buffer@, j as nat),
                decreases n - j,
            {
                j = j + 1;
            }
            if j >= n {
                proof {
                    assert(scan(self.buffer@).0 =~= Seq::<Seq<u8>>::empty());
                }
                break;
            }
            let ghost before = self.buffer@;
            let mut tail = self.buffer.split_off(j + 1);
            core::mem::swap(&mut self.buffer, &mut tail);
            // tail now holds the completed line, the buffer its remainder
            proof {
                assert(tail@ =~= before.subrange(0, j + 1));
                assert(self.buffer@ =~= before.subrange(j + 1, before.len() as int));
            }
            let (fin, mut ds) = process_line(&tail);
            let ghost out_pre = out@;
            let ghost ds_pre = ds@;
            out.append(&mut ds);
            proof {
                assert(views_of(out@) =~= views_of(out_pre) + line_deltas(tail@)) by {
                    assert(out@ =~= out_pre + ds_pre);
                    assert(forall|k: int| 0 <= k < out@.len() ==> #[trigger] views_of(out@)[k]
                        == out@[k]@);
                    assert(forall|k: int| 0 <= k < out_pre.len() ==> #[trigger] views_of(
                        out_pre,
                    )[k] == out_pre[k]@);
                    assert(forall|k: int| 0 <= k < ds_pre.len() ==> #[trigger] views_of(ds_pre)[k]
                        == ds_pre[k]@);
                }
            }
            if fin {
                self.finished = true;
                proof {
                    assert(line_deltas(tail@) =~= Seq::<Seq<u8>>::empty());
                }
                break;
            }
        }
        out
    }

    /// End of input: the final unterminated line, if any, is processed. Any
    /// sentinel it carries is ignored, as the stream is over either way.
    pub fn finish_input(&mut self) -> (deltas: Vec<Vec<u8>>)
        ensures
            views_of(deltas@) == if old(self).done() || old(self).pending().len() == 0 {
                Seq::<Seq<u8>>::empty()
            } else {
                line_deltas(old(self).pending())
            },
            final(self).pending() == Seq::<u8>::empty(),
            final(self).done() == old(self).done(),
    {
        if self.finished || self.buffer.len() == 0 {
            self.buffer.clear();
            proof {
                assert(views_of(Seq::<Vec<u8>>::empty()) =~= Seq::<Seq<u8>>::empty());
            }
            return Vec::new();
        }
        let mut line: Vec<u8> = Vec::new();
        core::mem::swap(&mut self.buffer, &mut line);
        let (_fin, ds) = process_line(&line);
        ds
    }
}

/// The first newline is where it is regardless of what is appended after
/// the buffer, as long as it falls inside the buffer.
proof fn lemma_nl_from_append(b: Seq<u8>, c: Seq<u8>, i: nat)
    requires
        i <= b.len(),
        nl_from(b, i) < b.len(),
    ensures
        nl_from(b + c, i) == nl_from(b, i),
    decreases b.len() - i,
{
    assert((b + c)[i as int] == b[i as int]);
    if i < b.len() && b[i as int] != 10 {
        lemma_nl_from_append(b, c, i + 1);
    }
}

/// Chunk boundaries do not change what a stream yields: scanning a buffer
/// extended by newly arrived bytes yields the deltas of the buffer's
/// complete lines followed by the deltas of the remainder plus the new
/// bytes, with the same finish flag and the same unconsumed tail. This is
/// what lets the scanner consume the stream chunk by chunk.
pub proof fn lemma_scan_chunked(b: Seq<u8>, c: Seq<u8>)
    requires
        !scan(b).1,
    ensures
        scan(b + c).0 =~= scan(b).0 + scan(scan(b).2 + c).0,
        scan(b + c).1 == scan(scan(b).2 + c).1,
        scan(b + c).2 =~= scan(scan(b).2 + c).2,
    decreases b.len(),
{
    let nl = nl_from(b, 0);
    if nl >= b.len() {
        // no complete line in the buffer: it is the unconsumed tail entire
        assert(scan(b).0 =~= Seq::<Seq<u8>>::empty());
        assert(scan(b).2 =~= b);
        assert(Seq::<Seq<u8>>::empty() + scan(b + c).0 =~= scan(b + c).0);
    } else {
        lemma_nl_from_append(b, c, 0);
        let line = b.subrange(0, nl as int + 1);
        let rest = b.subrange(nl as int + 1, b.len() as int);
        assert((b + c).subrange(0, nl as int + 1) =~= line);
        assert((b + c).subrange(nl as int + 1, (b + c).len() as int) =~= rest + c);
        // the sentinel line would have finished the scan
        assert(!line_finishes(line));
        assert(!scan(rest).1);
        lemma_scan_chunked(rest, c);
        assert(scan(b).2 =~= scan(rest).2);
        assert(scan(b + c).0 =~= line_deltas(line) + scan(rest + c).0);
        assert(line_deltas(line) + (scan(rest).0 + scan(scan(rest).2 + c).0) =~= (line_deltas(line)
            + scan(rest).0) + scan(scan(rest).2 + c).0);
    }
}

/// Once the sentinel has been seen, bytes that arrive after it change
/// neither the deltas nor the finish flag: the scan stops at the sentinel
/// line.
pub proof fn lemma_scan_stops_at_sentinel(b: Seq<u8>, c: Seq<u8>)
    requires
        scan(b).1,
    ensures
        scan(b + c).0 =~= scan(b).0,
        scan(b + c).1,
    decreases b.len(),
{
    let nl = nl_from(b, 0);
    assert(nl < b.len());
    lemma_nl_from_append(b, c, 0);
    let line = b.subrange(0, nl as int + 1);
    let rest = b.subrange(nl as int + 1, b.len() as int);
    assert((b + c).subrange(0, nl as int + 1) =~= line);
    assert((b + c).subrange(nl as int + 1, (b + c).len() as int) =~= rest + c);
    if line_finishes(line) {
    } else {
        assert(scan(rest).1);
        lemma_scan_stops_at_sentinel(rest, c);
        assert(line_deltas(line) + scan(rest + c).0 =~= line_deltas(line) + scan(rest).0);
    }
}

/// Concatenation of a sequence of deltas, in order.
pub open spec fn flatten_deltas(ds: Seq<Seq<u8>>) -> Seq<u8>
    decreases ds.len(),
{
    if ds.len() == 0 {
        Seq::empty()
    } else {
        flatten_deltas(ds.drop_last()) + ds.last()
    }
}

} // verus!
