//! The transcript document: a heading with the meeting topic, a metadata
//! line, a "Transcript" heading, then one paragraph per segment prefixed with
//! its timestamp. Paragraphs are inserted in batches to stay under Lark's
//! per-request limit.

use vstd::prelude::*;
use crate::text::{decimal_spec, is_blank, join, join_spec, pad2_spec, push_decimal, push_pad2, trim, trim_spec};
use super::stt::{Segment, Transcript};

verus! {

/// Paragraphs per insertion request.
pub const BATCH_SIZE: usize = 40;

/// Where the segment paragraphs start: after the topic heading, the metadata
/// line and the "Transcript" heading.
pub const BODY_START: usize = 3;

/// A duration as `HH:MM:SS` when it reaches an hour, else `MM:SS`.
pub open spec fn format_ts_spec(ms: nat) -> Seq<char> {
    let secs = ms / 1000;
    let h = secs / 3600;
    let m = (secs % 3600) / 60;
    let s = secs % 60;
    if h > 0 {
        pad2_spec(h) + ":"@ + pad2_spec(m) + ":"@ + pad2_spec(s)
    } else {
        pad2_spec(m) + ":"@ + pad2_spec(s)
    }
}

/// Formats a millisecond duration (the metadata line's `Duration:`).
pub fn format_ts(ms: u64) -> (out: String)
    ensures
        out@ == format_ts_spec(ms as nat),
{
    let secs = ms / 1000;
    let h = secs / 3600;
    let m = (secs % 3600) / 60;
    let s = secs % 60;
    let mut out = String::new();
    if h > 0 {
        push_pad2(&mut out, h);
        out.append(":");
    }
    push_pad2(&mut out, m);
    out.append(":");
    push_pad2(&mut out, s);
    assert(out@ =~= format_ts_spec(ms as nat));
    out
}

/// The `HH:MM:SS` stamp that prefixes a segment's paragraph (the hours are
/// not capped at two digits).
pub open spec fn segment_ts_spec(ms: nat) -> Seq<char> {
    let secs = ms / 1000;
    pad2_spec(secs / 3600) + ":"@ + pad2_spec((secs % 3600) / 60) + ":"@ + pad2_spec(secs % 60)
}

/// Formats a segment's start as `HH:MM:SS`.
pub fn segment_ts(ms: u64) -> (out: String)
    ensures
        out@ == segment_ts_spec(ms as nat),
{
    let secs = ms / 1000;
    let mut out = String::new();
    push_pad2(&mut out, secs / 3600);
    out.append(":");
    push_pad2(&mut out, (secs % 3600) / 60);
    out.append(":");
    push_pad2(&mut out, secs % 60);
    assert(out@ =~= segment_ts_spec(ms as nat));
    out
}

/// The metadata parts of a transcript document, in order.
pub open spec fn meta_parts(duration_ms: nat, t: Transcript, recording_url: Option<Seq<char>>) -> Seq<Seq<char>> {
    (if duration_ms > 0 { seq!["Duration: "@ + format_ts_spec(duration_ms)] } else { Seq::empty() })
        + match t.language { Some(l) => seq!["Language: "@ + l@], None => Seq::empty() }
        + (if t.segments@.len() > 0 { seq!["Segments: "@ + decimal_spec(t.segments@.len())] } else { Seq::empty() })
        + match recording_url { Some(u) => seq!["Recording: "@ + u], None => Seq::empty() }
}

/// The metadata line: the parts joined by `"  ·  "`, or
/// `"(meta unavailable)"` when there are none.
pub open spec fn meta_line_spec(duration_ms: nat, t: Transcript, recording_url: Option<Seq<char>>) -> Seq<char> {
    let parts = meta_parts(duration_ms, t, recording_url);
    if parts.len() == 0 {
        "(meta unavailable)"@
    } else {
        join_spec(parts, "  ·  "@)
    }
}

/// Appends `s` to `parts`.
fn push_part(parts: &mut Vec<String>, s: String)
    ensures
        final(parts)@.map_values(|p: String| p@) == old(parts)@.map_values(|p: String| p@).push(s@),
{
    parts.push(s);
    assert(parts@.map_values(|p: String| p@) =~= old(parts)@.map_values(|p: String| p@).push(s@));
}

/// The metadata line of a transcript document.
pub fn build_meta_line(duration_ms: u64, t: &Transcript, recording_url: Option<&str>) -> (line: String)
    ensures
        line@ == meta_line_spec(duration_ms as nat, *t, match recording_url { Some(u) => Some(u@), None => None }),
{
    let mut parts: Vec<String> = Vec::new();
    if duration_ms > 0 {
        let mut p = String::from_str("Duration: ");
        let ts = format_ts(duration_ms);
        p.append(ts.as_str());
        push_part(&mut parts, p);
    }
    if let Some(lang) = &t.language {
        let mut p = String::from_str("Language: ");
        p.append(lang.as_str());
        push_part(&mut parts, p);
    }
    if t.segments.len() > 0 {
        let mut p = String::from_str("Segments: ");
        push_decimal(&mut p, t.segments.len() as u64);
        push_part(&mut parts, p);
    }
    if let Some(url) = recording_url {
        let mut p = String::from_str("Recording: ");
        p.append(url);
        push_part(&mut parts, p);
    }
    let ghost expected = meta_parts(duration_ms as nat, *t, match recording_url { Some(u) => Some(u@), None => None });
    assert(parts@.map_values(|p: String| p@) =~= expected);
    if parts.len() == 0 {
        String::from_str("(meta unavailable)")
    } else {
        join(parts.as_slice(), "  ·  ")
    }
}

/// One block of the transcript document.
#[derive(Debug, Clone)]
pub enum DocBlock {
    /// A heading of level `1`, `2` or `3` (other levels render as `3`).
    Heading { level: u8, content: String },
    Paragraph(String),
}

/// The mathematical value of a [`DocBlock`].
pub enum DocBlockView {
    Heading { level: u8, content: Seq<char> },
    Paragraph(Seq<char>),
}

impl View for DocBlock {
    type V = DocBlockView;

    open spec fn view(&self) -> DocBlockView {
        match self {
            DocBlock::Heading { level, content } => DocBlockView::Heading { level: *level, content: content@ },
            DocBlock::Paragraph(c) => DocBlockView::Paragraph(c@),
        }
    }
}

/// The Lark block type and the key holding a heading's text.
pub open spec fn heading_kind_spec(level: u8) -> (u8, Seq<char>) {
    if level == 1 {
        (3u8, "heading1"@)
    } else if level == 2 {
        (4u8, "heading2"@)
    } else {
        (5u8, "heading3"@)
    }
}

/// The Lark block type and text key of a heading of `level`.
pub fn heading_kind(level: u8) -> (k: (u8, &'static str))
    ensures
        (k.0, k.1@) == heading_kind_spec(level),
{
    if level == 1 {
        (3, "heading1")
    } else if level == 2 {
        (4, "heading2")
    } else {
        (5, "heading3")
    }
}

/// The Lark block type of a paragraph.
pub fn paragraph_block_type() -> (t: u8)
    ensures
        t == 2,
{
    2
}

/// A heading block.
pub fn heading_block(level: u8, content: &str) -> (b: DocBlock)
    ensures
        b@ == (DocBlockView::Heading { level, content: content@ }),
{
    DocBlock::Heading { level, content: String::from_str(content) }
}

/// A paragraph block.
pub fn paragraph_block(content: &str) -> (b: DocBlock)
    ensures
        b@ == DocBlockView::Paragraph(content@),
{
    DocBlock::Paragraph(String::from_str(content))
}

/// The paragraph of one segment: `[HH:MM:SS] text`.
pub open spec fn segment_line(s: Segment) -> Seq<char> {
    "["@ + segment_ts_spec(s.start_ms as nat) + "] "@ + s.text@
}

/// Blocks to insert at `index`.
#[derive(Debug, Clone)]
pub struct BlockBatch {
    pub index: usize,
    pub blocks: Vec<DocBlock>,
}

/// The views of a block sequence.
pub open spec fn doc_blocks_view(bs: Seq<DocBlock>) -> Seq<DocBlockView> {
    bs.map_values(|b: DocBlock| b@)
}

/// The `k`-th batch of segment paragraphs.
pub open spec fn segment_batch(segs: Seq<Segment>, k: int) -> (int, Seq<DocBlockView>) {
    let start = k * 40;
    let end = if start + 40 <= segs.len() { start + 40 } else { segs.len() as int };
    (3 + start, Seq::new((end - start) as nat, |j: int| DocBlockView::Paragraph(segment_line(segs[start + j]))))
}

/// The heading, metadata and section blocks that open the document.
pub fn header_blocks(topic: &str, meta: &str) -> (bs: Vec<DocBlock>)
    ensures
        doc_blocks_view(bs@) == seq![
            DocBlockView::Heading { level: 1, content: topic@ },
            DocBlockView::Paragraph(meta@),
            DocBlockView::Heading { level: 2, content: "Transcript"@ },
        ],
{
    let mut bs: Vec<DocBlock> = Vec::new();
    bs.push(heading_block(1, topic));
    bs.push(paragraph_block(meta));
    bs.push(heading_block(2, "Transcript"));
    assert(doc_blocks_view(bs@) =~= seq![
        DocBlockView::Heading { level: 1, content: topic@ },
        DocBlockView::Paragraph(meta@),
        DocBlockView::Heading { level: 2, content: "Transcript"@ },
    ]);
    bs
}

/// The transcript body: without segments, one paragraph holding the trimmed
/// full text (or `"(empty transcript)"` when that is blank) at
/// [`BODY_START`]; otherwise the segment paragraphs in batches of
/// [`BATCH_SIZE`], each inserted after the previous ones.
pub fn body_batches(t: &Transcript) -> (batches: Vec<BlockBatch>)
    requires
        t.segments@.len() + 40 < usize::MAX,
    ensures
        t.segments@.len() == 0 ==> batches@.len() == 1 && batches@[0].index == 3
            && doc_blocks_view(batches@[0].blocks@) == seq![DocBlockView::Paragraph(
                if trim_spec(t.full_text@).len() == 0 { "(empty transcript)"@ } else { trim_spec(t.full_text@) },
            )],
        t.segments@.len() > 0 ==> batches@.len() == (t.segments@.len() + 39) / 40
            && forall|k: int| 0 <= k < batches@.len() ==>
                (#[trigger] batches@[k]).index == segment_batch(t.segments@, k).0
                && doc_blocks_view(batches@[k].blocks@) == segment_batch(t.segments@, k).1,
{
    let segs = &t.segments;
    let mut batches: Vec<BlockBatch> = Vec::new();
    if segs.len() == 0 {
        proof {
            crate::text::lemma_trim_empty_iff_blank(t.full_text@);
        }
        let block = if is_blank(t.full_text.as_str()) {
            paragraph_block("(empty transcript)")
        } else {
            let trimmed = trim(t.full_text.as_str());
            paragraph_block(trimmed.as_str())
        };
        let mut blocks: Vec<DocBlock> = Vec::new();
        blocks.push(block);
        assert(doc_blocks_view(blocks@) =~= seq![block@]);
        batches.push(BlockBatch { index: BODY_START, blocks });
        return batches;
    }
    let n = segs.len();
    let mut start: usize = 0;
    while start < n
        invariant
            n == segs@.len(),
            n + 40 < usize::MAX,
            start % 40 == 0,
            start <= n + 39,
            start < n ==> batches@.len() == start / 40,
            start >= n ==> batches@.len() == (n + 39) / 40,
            batches@.len() * 40 == start,
            forall|k: int| 0 <= k < batches@.len() ==>
                (#[trigger] batches@[k]).index == segment_batch(segs@, k).0
                && doc_blocks_view(batches@[k].blocks@) == segment_batch(segs@, k).1,
        decreases n + 40 - start,
    {
        let end = if start + BATCH_SIZE <= n { start + BATCH_SIZE } else { n };
        let ghost k = batches@.len() as int;
        let mut blocks: Vec<DocBlock> = Vec::new();
        let mut j: usize = start;
        while j < end
            invariant
                start <= j <= end,
                end <= n,
                n == segs@.len(),
                blocks@.len() == j - start,
                forall|i: int| 0 <= i < j - start ==>
                    (#[trigger] blocks@[i])@ == DocBlockView::Paragraph(segment_line(segs@[start + i])),
            decreases end - j,
        {
            let s = &segs[j];
            let mut line = String::from_str("[");
            let ts = segment_ts(s.start_ms);
            line.append(ts.as_str());
            line.append("] ");
            line.append(s.text.as_str());
            blocks.push(DocBlock::Paragraph(line));
            j = j + 1;
        }
        assert(doc_blocks_view(blocks@) =~= segment_batch(segs@, k).1);
        batches.push(BlockBatch { index: BODY_START + start, blocks });
        start = start + BATCH_SIZE;
    }
    batches
}

/// The finished transcript document.
#[derive(Debug, Clone)]
pub struct TranscriptDoc {
    pub doc_id: String,
    pub url: String,
}

/// What a transcript document is made from.
#[derive(Debug)]
pub struct TranscriptDocInput<'a> {
    pub folder_token: &'a str,
    pub title: String,
    pub topic: &'a str,
    pub duration_ms: u64,
    pub recording_url: Option<&'a str>,
    pub transcript: &'a Transcript,
}

impl<'a> TranscriptDocInput<'a> {
    /// The blocks that open the document: topic heading, metadata line,
    /// "Transcript" heading.
    pub fn opening_blocks(&self) -> (bs: Vec<DocBlock>)
        ensures
            doc_blocks_view(bs@) == seq![
                DocBlockView::Heading { level: 1, content: self.topic@ },
                DocBlockView::Paragraph(meta_line_spec(self.duration_ms as nat, *self.transcript,
                    match self.recording_url { Some(u) => Some(u@), None => None })),
                DocBlockView::Heading { level: 2, content: "Transcript"@ },
            ],
    {
        let meta = build_meta_line(self.duration_ms, self.transcript, self.recording_url);
        header_blocks(self.topic, meta.as_str())
    }
}

} // verus!
