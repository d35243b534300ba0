//! Reading a server-sent event stream: cutting the incoming bytes into lines,
//! and taking the payload of each `data:` line.
use vstd::prelude::*;

use crate::jsonrpc::JsonRpcResponse;
use crate::wire::{lemma_response_text_ends_with_brace, response_text};

verus! {

/// The line feed byte.
pub open spec fn is_newline(b: u8) -> bool {
    b == 0x0a
}

/// Lines joined back together, each followed by a line feed.
pub open spec fn joined(lines: Seq<Seq<u8>>) -> Seq<u8>
    decreases lines.len(),
{
    if lines.len() == 0 {
        Seq::empty()
    } else {
        joined(lines.drop_last()) + lines.last() + seq![0x0au8]
    }
}

/// The byte sequences of a list of lines.
pub open spec fn line_views(lines: Seq<Vec<u8>>) -> Seq<Seq<u8>> {
    lines.map_values(|l: Vec<u8>| l@)
}

/// No line feed in `s`.
pub open spec fn no_newline(s: Seq<u8>) -> bool {
    forall|i: int| 0 <= i < s.len() ==> !is_newline(#[trigger] s[i])
}

/// The bytes of a stream received so far that do not yet end a line.
pub struct SseLines {
    pending: Vec<u8>,
}

impl View for SseLines {
    type V = Seq<u8>;

    /// The bytes received after the last line feed.
    closed spec fn view(&self) -> Seq<u8> {
        self.pending@
    }
}

impl SseLines {
    /// The pending bytes hold no line feed.
    pub closed spec fn wf(&self) -> bool {
        no_newline(self.pending@)
    }

    /// A reader that has received nothing.
    pub fn new() -> (r: Self)
        ensures
            r.wf(),
            r@ == Seq::<u8>::empty(),
    {
        SseLines { pending: Vec::new() }
    }

    /// Take in the next bytes of the stream; returns the lines they complete,
    /// without their line feeds. The bytes pending before, followed by the new
    /// bytes, are the returned lines each followed by a line feed, then the
    /// bytes now pending.
    pub fn feed(&mut self, chunk: &[u8]) -> (lines: Vec<Vec<u8>>)
        requires
            old(self).wf(),
        ensures
            final(self).wf(),
            old(self)@ + chunk@ == joined(line_views(lines@)) + final(self)@,
            forall|i: int| 0 <= i < lines@.len() ==> no_newline(#[trigger] lines@[i]@),
    {
        let mut lines: Vec<Vec<u8>> = Vec::new();
        let n = chunk.len();
        let mut i: usize = 0;
        let ghost start = self.pending@;
        while i < n
            invariant
                n == chunk@.len(),
                i <= n,
                no_newline(self.pending@),
                forall|j: int| 0 <= j < lines@.len() ==> no_newline(#[trigger] lines@[j]@),
                start + chunk@.subrange(0, i as int) == joined(line_views(lines@))
                    + self.pending@,
            decreases n - i,
        {
            let b = chunk[i];
            let ghost before = line_views(lines@);
            let ghost pending_before = self.pending@;
            if b == 0x0a {
                let mut line: Vec<u8> = Vec::new();
                std::mem::swap(&mut line, &mut self.pending);
                lines.push(line);
                assert(line_views(lines@) =~= before.push(pending_before));
                assert(before.push(pending_before).drop_last() =~= before);
                assert(joined(before.push(pending_before)) == joined(before) + pending_before + seq![
                    0x0au8,
                ]);
                assert(start + chunk@.subrange(0, i as int).push(b) =~= (start + chunk@.subrange(
                    0,
                    i as int,
                )).push(b));
                assert(start + chunk@.subrange(0, i as int).push(b) =~= joined(
                    before.push(pending_before),
                ) + self.pending@);
            } else {
                self.pending.push(b);
                assert(start + chunk@.subrange(0, i as int).push(b) =~= (start + chunk@.subrange(
                    0,
                    i as int,
                )).push(b));
                assert((joined(before) + pending_before).push(b) =~= joined(before)
                    + self.pending@);
                assert(no_newline(self.pending@));
            }
            assert(start + chunk@.subrange(0, i + 1) =~= joined(
                line_views(lines@),
            ) + self.pending@);
            i = i + 1;
        }
        lines
    }
}

/// `s` begins with `prefix`.
pub open spec fn starts_with(s: Seq<u8>, prefix: Seq<u8>) -> bool {
    prefix.len() <= s.len() && s.subrange(0, prefix.len() as int) == prefix
}

/// The field name and colon of a data line: `data:`.
pub open spec fn data_field() -> Seq<u8> {
    seq![0x64u8, 0x61u8, 0x74u8, 0x61u8, 0x3au8]
}

/// A line without a trailing carriage return.
pub open spec fn without_cr(line: Seq<u8>) -> Seq<u8> {
    if line.len() > 0 && line.last() == 0x0d {
        line.drop_last()
    } else {
        line
    }
}

/// The payload of a line: for a `data:` line, what follows the colon, less one
/// leading space; no payload for any other line.
pub open spec fn data_payload(line: Seq<u8>) -> Option<Seq<u8>> {
    let l = without_cr(line);
    if starts_with(l, data_field()) {
        let rest = l.subrange(5, l.len() as int);
        if rest.len() > 0 && rest[0] == 0x20 {
            Some(rest.subrange(1, rest.len() as int))
        } else {
            Some(rest)
        }
    } else {
        None
    }
}

/// The payload of a `data:` line of an event stream.
pub fn sse_data(line: &[u8]) -> (r: Option<Vec<u8>>)
    ensures
        match r {
            Some(p) => data_payload(line@) == Some(p@),
            None => data_payload(line@) is None,
        },
{
    let mut end = line.len();
    if end > 0 && line[end - 1] == 0x0d {
        end = end - 1;
    }
    let ghost l = without_cr(line@);
    if end < 5 || line[0] != 0x64 || line[1] != 0x61 || line[2] != 0x74 || line[3] != 0x61
        || line[4] != 0x3a {
        assert(!starts_with(l, data_field()));
        return None;
    }
    assert(l.subrange(0, 5) =~= data_field());
    let mut from: usize = 5;
    if end > 5 && line[5] == 0x20 {
        from = 6;
    }
    let mut payload: Vec<u8> = Vec::new();
    let mut i: usize = from;
    while i < end
        invariant
            from <= i <= end,
            end <= line@.len(),
            payload@ == line@.subrange(from as int, i as int),
        decreases end - i,
    {
        payload.push(line[i]);
        assert(line@.subrange(from as int, i + 1) =~= line@.subrange(from as int, i as int).push(
            line@[i as int],
        ));
        i = i + 1;
    }
    let ghost rest = l.subrange(5, l.len() as int);
    assert(payload@ =~= if rest.len() > 0 && rest[0] == 0x20 {
        rest.subrange(1, rest.len() as int)
    } else {
        rest
    });
    Some(payload)
}

/// A line written as `data: ` followed by a payload reads back as that
/// payload, where the payload does not end in a carriage return.
pub proof fn lemma_data_line_roundtrip(payload: Seq<u8>)
    requires
        payload.len() == 0 || payload.last() != 0x0d,
    ensures
        data_payload(data_field() + seq![0x20u8] + payload) == Some(payload),
{
    let line = data_field() + seq![0x20u8] + payload;
    assert(line.subrange(0, 5) =~= data_field());
}

/// The JSON text of a streamed reply, sent as a `data: ` line, reads back as
/// that same text.
pub proof fn lemma_streamed_reply_reads_back(r: JsonRpcResponse)
    ensures
        data_payload(data_field() + seq![0x20u8] + response_text(r)) == Some(response_text(r)),
{
    lemma_response_text_ends_with_brace(r);
    lemma_data_line_roundtrip(response_text(r));
}

} // verus!
