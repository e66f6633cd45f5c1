use vstd::prelude::*;

use crate::playground::EditState;
use crate::playground::bump;
use crate::playground::edit_step;
use crate::events::EditView;
use crate::shader::frag_diag;
use crate::texture::rgba_decode;

verus! {

/// Law: a shader edit whose source fails to compile leaves the whole
/// edit-facing state — the bound pipeline and its generation included —
/// identical to what it was, and reports the compiler's diagnostic.
pub proof fn lemma_failed_compile_keeps_pipeline(s: EditState, source: Seq<char>)
    requires
        frag_diag(source) is Some,
    ensures
        edit_step(s, EditView::Shader(source)).0 == s,
        edit_step(s, EditView::Shader(source)).1 == frag_diag(source)->0,
{
}

/// Law: a shader edit whose source compiles reports exactly "ok", binds a
/// pipeline built from that source, and moves the loop to `Active`: the
/// pipeline generation leaves zero and never returns to it.
pub proof fn lemma_successful_compile_activates(s: EditState, source: Seq<char>)
    requires
        frag_diag(source) is None,
    ensures
        edit_step(s, EditView::Shader(source)).1 == "ok"@,
        edit_step(s, EditView::Shader(source)).0.shader == Some(source),
        edit_step(s, EditView::Shader(source)).0.shader_generation == bump(s.shader_generation),
        edit_step(s, EditView::Shader(source)).0.shader_generation > 0,
        edit_step(s, EditView::Shader(source)).0.texture == s.texture,
        edit_step(s, EditView::Shader(source)).0.texture_generation == s.texture_generation,
{
}

/// Law: a texture edit whose bytes fail to decode leaves the whole
/// edit-facing state — the bound texture and its generation included —
/// identical to what it was, and reports the decoder's diagnostic.
pub proof fn lemma_failed_decode_keeps_texture(s: EditState, bytes: Seq<u8>)
    requires
        rgba_decode(bytes) is Err,
    ensures
        edit_step(s, EditView::Texture(bytes)).0 == s,
        edit_step(s, EditView::Texture(bytes)).1 == rgba_decode(bytes)->Err_0,
{
}

/// Law: resubmitting the same valid shader source twice reports "ok" both
/// times and both times leaves a pipeline built from that same source
/// bound — rebuilt, so the generation moves, but functionally equal.
pub proof fn lemma_resubmit_same_source_idempotent(s: EditState, source: Seq<char>)
    requires
        frag_diag(source) is None,
    ensures
        ({
            let (s1, first) = edit_step(s, EditView::Shader(source));
            let (s2, second) = edit_step(s1, EditView::Shader(source));
            &&& first == "ok"@
            &&& second == "ok"@
            &&& s1.shader == Some(source)
            &&& s2.shader == s1.shader
            &&& s2.texture == s1.texture
            &&& s2.texture_generation == s1.texture_generation
            &&& s2.shader_generation == bump(s1.shader_generation)
        }),
{
}

/// The edit-facing state and the outcome strings after a whole sequence
/// of edit events, applied oldest first, one outcome per event.
pub open spec fn run_edits(s: EditState, events: Seq<EditView>) -> (EditState, Seq<Seq<char>>)
    decreases events.len(),
{
    if events.len() == 0 {
        (s, Seq::empty())
    } else {
        let (s1, first) = edit_step(s, events[0]);
        let (sf, rest) = run_edits(s1, events.drop_first());
        (sf, seq![first] + rest)
    }
}

/// A whole sequence of edits yields exactly one outcome per event.
pub proof fn lemma_one_outcome_per_event(s: EditState, events: Seq<EditView>)
    ensures
        run_edits(s, events).1.len() == events.len(),
    decreases events.len(),
{
    if events.len() > 0 {
        lemma_one_outcome_per_event(edit_step(s, events[0]).0, events.drop_first());
    }
}

/// Law: outcomes pair with events one-to-one and in FIFO order — the i-th
/// outcome is exactly what the i-th event yields against the state left
/// behind by the events before it. A host that awaits each outcome before
/// sending the next edit therefore never observes another edit's result.
pub proof fn lemma_outcome_matches_event(s: EditState, events: Seq<EditView>, i: int)
    requires
        0 <= i < events.len(),
    ensures
        run_edits(s, events).1.len() == events.len(),
        run_edits(s, events).1[i] == edit_step(run_edits(s, events.take(i)).0, events[i]).1,
    decreases events.len(),
{
    lemma_one_outcome_per_event(s, events);
    let (s1, first) = edit_step(s, events[0]);
    lemma_one_outcome_per_event(s1, events.drop_first());
    if i == 0 {
        assert(events.take(0) =~= Seq::<EditView>::empty());
    } else {
        lemma_outcome_matches_event(s1, events.drop_first(), i - 1);
        assert(events.drop_first().take(i - 1) =~= events.take(i).drop_first());
        assert(events.drop_first()[i - 1] == events[i]);
        assert(events.take(i)[0] == events[0]);
    }
}

/// Law: the pipeline bound after a sequence of edits ending in a valid
/// shader submission is the one compiled from that last source.
pub proof fn lemma_last_valid_shader_wins(s: EditState, events: Seq<EditView>, source: Seq<char>)
    requires
        events.len() > 0,
        events.last() == EditView::Shader(source),
        frag_diag(source) is None,
    ensures
        run_edits(s, events).0.shader == Some(source),
    decreases events.len(),
{
    if events.len() == 1 {
        assert(events[0] == events.last());
        assert(events.drop_first().len() == 0);
        assert(run_edits(edit_step(s, events[0]).0, events.drop_first()).0 == edit_step(
            s,
            events[0],
        ).0);
    } else {
        let (s1, first) = edit_step(s, events[0]);
        assert(events.drop_first().last() == events.last());
        lemma_last_valid_shader_wins(s1, events.drop_first(), source);
    }
}

} // verus!
