//! What the transcript document layout promises.

use vstd::prelude::*;
use super::docs::{segment_batch, segment_line, DocBlockView};
use super::stt::{form_fields_spec, Segment};

verus! {

/// Every segment lands in the document exactly once, in order: the paragraph
/// of segment `i` is item `i % 40` of batch `i / 40`, and that batch is
/// inserted where it ends up at position `3 + i`, right after the
/// three opening blocks and the segments before it.
pub proof fn law_segments_land_in_order(segs: Seq<Segment>, i: int)
    requires
        0 <= i < segs.len(),
    ensures
        segment_batch(segs, i / 40).1.len() > i % 40,
        segment_batch(segs, i / 40).1[i % 40] == DocBlockView::Paragraph(segment_line(segs[i])),
        segment_batch(segs, i / 40).0 + i % 40 == 3 + i,
{
    let k = i / 40;
    let j = i % 40;
    assert(k * 40 + j == i);
    assert(0 <= j < 40);
}

/// Batches follow one another: each one starts where the previous one ends,
/// the first right after the three opening blocks.
pub proof fn law_batches_are_contiguous(segs: Seq<Segment>, k: int)
    requires
        0 <= k,
        (k + 1) * 40 <= segs.len(),
    ensures
        segment_batch(segs, 0).0 == 3,
        segment_batch(segs, k + 1).0 == segment_batch(segs, k).0 + segment_batch(segs, k).1.len(),
{
}

/// A transcription request sends the model, and every hint the options
/// carry: the language as `language` and the prompt as `prompt`; a hint the
/// options leave out is not sent.
pub proof fn law_form_sends_every_hint(model: Seq<char>, language: Option<Seq<char>>, prompt: Option<Seq<char>>)
    ensures
        form_fields_spec(model, language, prompt).contains(("model"@, model)),
        language matches Some(l) ==> form_fields_spec(model, language, prompt).contains(("language"@, l)),
        prompt matches Some(p) ==> form_fields_spec(model, language, prompt).contains(("prompt"@, p)),
        prompt is None ==> forall|v: Seq<char>| !form_fields_spec(model, language, prompt).contains(("prompt"@, v)),
        language is None ==> forall|v: Seq<char>| !form_fields_spec(model, language, prompt).contains(("language"@, v)),
{
    let f = form_fields_spec(model, language, prompt);
    reveal_strlit("model");
    reveal_strlit("prompt");
    reveal_strlit("language");
    reveal_strlit("response_format");
    reveal_strlit("timestamp_granularities[]");
    assert(f[0] == ("model"@, model));
    let nl: int = if language is Some { 1 } else { 0 };
    if let Some(l) = language {
        assert(f[3] == ("language"@, l));
    }
    if let Some(p) = prompt {
        assert(f[3 + nl] == ("prompt"@, p));
    }
    assert("prompt"@[0] != "model"@[0]);
    assert("prompt"@[0] != "response_format"@[0]);
    assert("prompt"@[0] != "timestamp_granularities[]"@[0]);
    assert("prompt"@[0] != "language"@[0]);
    assert("language"@[0] != "model"@[0]);
    assert("language"@[0] != "response_format"@[0]);
    assert("language"@[0] != "timestamp_granularities[]"@[0]);
    if prompt is None {
        assert forall|v: Seq<char>| !f.contains(("prompt"@, v)) by {
            if f.contains(("prompt"@, v)) {
                let k = choose|k: int| 0 <= k < f.len() && f[k] == ("prompt"@, v);
            }
        }
    }
    if language is None {
        assert forall|v: Seq<char>| !f.contains(("language"@, v)) by {
            if f.contains(("language"@, v)) {
                let k = choose|k: int| 0 <= k < f.len() && f[k] == ("language"@, v);
            }
        }
    }
}

} // verus!
