use vstd::prelude::*;
use crate::artifact::ArtifactRef;
use crate::model::{
    after_edit_request, can_edit, confirmed, current_ref, edit_decision, lemma_undone_wf,
    planned_edit, redone, undone, with_intensity, SessionModel,
};
use crate::ops::{EditOp, EditOutcome, EditPlan, State};
use crate::stack::{bounded_push, MAX_VERSIONS};

verus! {

/// A bounded history push never exceeds the bound, lands the new entry at
/// the back, and — when the stack is already full — evicts exactly the
/// oldest entry, shifting every other entry down by one.
pub proof fn lemma_bounded_push(h: Seq<ArtifactRef>, r: ArtifactRef)
    requires
        h.len() <= MAX_VERSIONS,
    ensures
        bounded_push(h, r).len() <= MAX_VERSIONS,
        bounded_push(h, r).last() == r,
        h.len() < MAX_VERSIONS ==> bounded_push(h, r) == h.push(r),
        h.len() == MAX_VERSIONS ==> bounded_push(h, r).len() == MAX_VERSIONS,
        h.len() == MAX_VERSIONS ==> forall|i: int|
            0 <= i < MAX_VERSIONS - 1 ==> bounded_push(h, r)[i] == h[i + 1],
{
}

/// In a well-formed session the history never exceeds its bound, and a
/// commit on a full history keeps it full, evicting exactly the oldest
/// entry while every younger one survives in order.
pub proof fn lemma_history_never_exceeds(m: SessionModel)
    requires
        m.wf(),
    ensures
        m.history.len() <= MAX_VERSIONS,
        confirmed(m).history.len() <= MAX_VERSIONS,
        m.history.len() == MAX_VERSIONS ==> {
            &&& confirmed(m).history.len() == MAX_VERSIONS
            &&& confirmed(m).history.last() == current_ref(m)
            &&& forall|i: int|
                0 <= i < MAX_VERSIONS - 1 ==> confirmed(m).history[i] == m.history[i + 1]
        },
{
    lemma_bounded_push(m.history, current_ref(m));
}

/// Every commit clears the redo stack entirely: no stale forward branch
/// survives a diverging edit, in particular not after a run of undos.
pub proof fn lemma_confirm_clears_redo(m: SessionModel)
    requires
        m.wf(),
        m.mode != State::Waiting,
    ensures
        confirmed(m).redo.len() == 0,
{
}

/// A blur of intensity zero is an identity: the preview becomes the
/// current artifact reference itself — the same handle, not merely equal
/// content — and neither the counter nor the stacks move, so no artifact
/// is written at all.
pub proof fn lemma_blur_zero_identity(m: SessionModel)
    requires
        m.wf(),
        can_edit(m, EditOp::Blur),
        m.intensity == 0,
    ensures
        edit_decision(m, EditOp::Blur) == EditOutcome::Identity,
        after_edit_request(m, EditOp::Blur).preview == m.current,
        after_edit_request(m, EditOp::Blur).current == m.current,
        after_edit_request(m, EditOp::Blur).version == m.version,
        after_edit_request(m, EditOp::Blur).history == m.history,
        after_edit_request(m, EditOp::Blur).redo == m.redo,
{
}

/// What an edit request decides is a function of the active mode, the
/// committed artifact, the version counter and the intensity alone — the
/// preview and the stacks play no part in it.
pub proof fn lemma_edit_deterministic(m1: SessionModel, m2: SessionModel, op: EditOp)
    requires
        m1.mode == m2.mode,
        m1.current == m2.current,
        m1.version == m2.version,
        m1.intensity == m2.intensity,
    ensures
        planned_edit(m1, op) == planned_edit(m2, op),
        edit_decision(m1, op) == edit_decision(m2, op),
{
}

/// Re-deriving the preview at intensity `b` never depends on the order of
/// earlier slider changes: a recompute at `b` after any interleaved
/// recompute at `a` decides exactly as a direct recompute at `b` would.
pub proof fn lemma_preview_recompute_independent(m: SessionModel, a: i32, b: i32)
    requires
        m.wf(),
    ensures
        ({
            let detour = after_edit_request(with_intensity(m, a), EditOp::Blur);
            edit_decision(with_intensity(detour, b), EditOp::Blur) == edit_decision(
                with_intensity(m, b),
                EditOp::Blur,
            )
        }),
{
    let detour = after_edit_request(with_intensity(m, a), EditOp::Blur);
    lemma_edit_deterministic(with_intensity(detour, b), with_intensity(m, b), EditOp::Blur);
}

/// A pending plan's output artifact is fresh: it is neither the committed
/// artifact nor any entry of either stack, so writing it can overwrite
/// nothing another slot still references.
pub proof fn lemma_pending_output_fresh(m: SessionModel, op: EditOp, plan: EditPlan)
    requires
        m.wf(),
        edit_decision(m, op) == EditOutcome::Pending(plan),
    ensures
        m.current != Some(plan.output),
        forall|i: int| 0 <= i < m.history.len() ==> m.history[i] != plan.output,
        forall|i: int| 0 <= i < m.redo.len() ==> m.redo[i] != plan.output,
{
    assert(plan.output == ArtifactRef::Version(m.version));
    assert forall|i: int| 0 <= i < m.history.len() implies m.history[i] != plan.output by {
        assert(crate::model::allocated_before(m.history[i], m.version));
    }
    assert forall|i: int| 0 <= i < m.redo.len() implies m.redo[i] != plan.output by {
        assert(crate::model::allocated_before(m.redo[i], m.version));
    }
}

/// One undo followed by one redo restores the session exactly.
pub proof fn lemma_undo_redo_roundtrip(m: SessionModel)
    requires
        m.wf(),
        m.mode == State::Waiting,
        m.history.len() > 0,
    ensures
        redone(undone(m)) == m,
{
    lemma_undone_wf(m);
    let u = undone(m);
    assert(u.redo.last() == current_ref(m));
    assert(u.redo.drop_last() =~= m.redo);
    assert(bounded_push(u.history, current_ref(u)) =~= m.history);
    assert(redone(u) =~= m);
}

/// `m` after `n` undos.
pub open spec fn undone_n(m: SessionModel, n: nat) -> SessionModel
    decreases n,
{
    if n == 0 {
        m
    } else {
        undone(undone_n(m, (n - 1) as nat))
    }
}

/// `m` after `n` redos.
pub open spec fn redone_n(m: SessionModel, n: nat) -> SessionModel
    decreases n,
{
    if n == 0 {
        m
    } else {
        redone_n(redone(m), (n - 1) as nat)
    }
}

/// The round trip in general: after any run of committed edits, undoing
/// `n` times and then redoing `n` times restores the very session — the
/// same committed artifact, the same stacks, entry for entry.  `n` can be
/// at most the history length: entries older than the bound allows have
/// been evicted and are honestly gone.
pub proof fn lemma_undo_redo_roundtrip_n(m: SessionModel, n: nat)
    requires
        m.wf(),
        m.mode == State::Waiting,
        n <= m.history.len(),
    ensures
        redone_n(undone_n(m, n), n) == m,
        undone_n(m, n).wf(),
        undone_n(m, n).mode == State::Waiting,
        undone_n(m, n).history.len() == m.history.len() - n,
    decreases n,
{
    if n > 0 {
        lemma_undo_redo_roundtrip_n(m, (n - 1) as nat);
        let u = undone_n(m, (n - 1) as nat);
        lemma_undone_wf(u);
        lemma_undo_redo_roundtrip(u);
        assert(undone_n(m, n) == undone(u));
        assert(redone_n(undone(u), n) == redone_n(redone(undone(u)), (n - 1) as nat));
        assert(redone(undone(u)) == u);
    }
}

} // verus!
