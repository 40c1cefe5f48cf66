use vstd::prelude::*;
use crate::artifact::ArtifactRef;
use crate::ops::{op_mode, parameterized, EditOp, EditOutcome, EditPlan, State};
use crate::stack::{bounded_push, MAX_VERSIONS};

verus! {

/// The mathematical content of a session: every field an editor carries,
/// with the two stacks as sequences (newest at the end).
#[verifier::ext_equal]
pub ghost struct SessionModel {
    /// The committed artifact: the source of truth for every new edit.
    pub current: Option<ArtifactRef>,
    /// The tentative artifact shown while an edit mode is active.
    pub preview: Option<ArtifactRef>,
    /// The active mode.
    pub mode: State,
    /// The shared parameter of the parameterized modes.
    pub intensity: i32,
    /// Monotonic counter naming new artifacts; bumped on every commit.
    pub version: u64,
    /// Committed past versions, oldest first, at most [`MAX_VERSIONS`].
    pub history: Seq<ArtifactRef>,
    /// Undone versions, oldest first; cleared by every new commit.
    pub redo: Seq<ArtifactRef>,
}

/// The committed artifact, meaningful only when one is loaded.
pub open spec fn current_ref(m: SessionModel) -> ArtifactRef {
    match m.current {
        Option::Some(c) => c,
        Option::None => ArtifactRef::Source,
    }
}

/// `r` was allocated strictly before the counter reached `v` (the source
/// image counts as allocated from the start).
pub open spec fn allocated_before(r: ArtifactRef, v: u64) -> bool {
    match r {
        ArtifactRef::Source => true,
        ArtifactRef::Version(k) => k < v,
    }
}

impl SessionModel {
    /// The session invariant, established at startup and preserved by
    /// every transition:
    /// - history never exceeds its bound;
    /// - with no image loaded everything is empty and idle;
    /// - while idle the preview is the committed artifact itself, and the
    ///   intensity is cleared outside the parameterized modes;
    /// - in an edit mode the preview is either the committed artifact or
    ///   the one scratch artifact of the running version;
    /// - everything committed or stacked was allocated under an earlier
    ///   counter value, so a fresh allocation can collide with none of it.
    pub open spec fn wf(self) -> bool {
        &&& self.history.len() <= MAX_VERSIONS
        &&& (self.current is None ==> {
            &&& self.preview is None
            &&& self.mode == State::Waiting
            &&& self.history.len() == 0
            &&& self.redo.len() == 0
            &&& self.version == 0
        })
        &&& (self.mode == State::Waiting ==> self.preview == self.current)
        &&& (!parameterized(self.mode) ==> self.intensity == 0)
        &&& (self.mode != State::Waiting ==> {
            &&& self.current is Some
            &&& (self.preview == self.current || self.preview == Some(
                ArtifactRef::Version(self.version),
            ))
        })
        &&& (self.current matches Some(c) ==> allocated_before(c, self.version))
        &&& (forall|i: int|
            0 <= i < self.history.len() ==> allocated_before(
                #[trigger] self.history[i],
                self.version,
            ))
        &&& (forall|i: int|
            0 <= i < self.redo.len() ==> allocated_before(#[trigger] self.redo[i], self.version))
    }

    /// The state a session starts in: nothing loaded, idle.
    pub open spec fn init() -> SessionModel {
        SessionModel {
            current: None,
            preview: None,
            mode: State::Waiting,
            intensity: 0,
            version: 0,
            history: Seq::empty(),
            redo: Seq::empty(),
        }
    }
}

/// Loading a base image, from any state: the counter restarts at zero,
/// both stacks empty out, and current and preview are the source itself.
pub open spec fn loaded() -> SessionModel {
    SessionModel {
        current: Some(ArtifactRef::Source),
        preview: Some(ArtifactRef::Source),
        mode: State::Waiting,
        intensity: 0,
        version: 0,
        history: Seq::empty(),
        redo: Seq::empty(),
    }
}

/// Entering edit mode `s`: the preview restarts from the committed
/// artifact and the intensity is cleared.  With no image loaded this is a
/// no-op, not an error.
pub open spec fn selected(m: SessionModel, s: State) -> SessionModel {
    if m.current is None {
        m
    } else {
        SessionModel { mode: s, preview: m.current, intensity: 0, ..m }
    }
}

/// Moving the slider to `v`.  Only the parameterized modes carry the
/// parameter; elsewhere this is a no-op.
pub open spec fn with_intensity(m: SessionModel, v: i32) -> SessionModel {
    if parameterized(m.mode) {
        SessionModel { intensity: v, ..m }
    } else {
        m
    }
}

/// Whether `op` is on offer: an image is loaded and the active mode is the
/// one that carries `op`.
pub open spec fn can_edit(m: SessionModel, op: EditOp) -> bool {
    m.current is Some && m.mode == op_mode(op)
}

/// The plan an edit request hands to the shell.  Its source is always the
/// *committed* current artifact — never the preview — and its output is the
/// scratch artifact of the running version, which nothing else references.
pub open spec fn planned_edit(m: SessionModel, op: EditOp) -> EditPlan {
    EditPlan {
        op,
        intensity: m.intensity,
        source: current_ref(m),
        output: ArtifactRef::Version(m.version),
    }
}

/// What a request for `op` comes to: ignored when `op` is not on offer, an
/// identity for a blur of intensity zero, and otherwise a pending plan.
pub open spec fn edit_decision(m: SessionModel, op: EditOp) -> EditOutcome {
    if !can_edit(m, op) {
        EditOutcome::Ignored
    } else if op == EditOp::Blur && m.intensity == 0 {
        EditOutcome::Identity
    } else {
        EditOutcome::Pending(planned_edit(m, op))
    }
}

/// The session after a request for `op`: only the identity case touches it
/// (the preview becomes the current artifact itself, with no work owed).
pub open spec fn after_edit_request(m: SessionModel, op: EditOp) -> SessionModel {
    if edit_decision(m, op) == EditOutcome::Identity {
        SessionModel { preview: m.current, ..m }
    } else {
        m
    }
}

/// The shell reports that a plan's output artifact is fully written: it
/// becomes the preview.  Nothing else moves; in particular the committed
/// artifact and the stacks are untouched, so a failed plan (which is simply
/// never reported) cannot corrupt them.
pub open spec fn completed(m: SessionModel, plan: EditPlan) -> SessionModel {
    SessionModel { preview: Some(plan.output), ..m }
}

/// Confirming the pending edit: the old current is pushed onto history
/// (evicting the oldest entry if the bound is reached), the preview is
/// committed, the redo stack is cleared, the counter advances, and the
/// session returns to idle.
pub open spec fn confirmed(m: SessionModel) -> SessionModel {
    SessionModel {
        current: m.preview,
        preview: m.preview,
        mode: State::Waiting,
        intensity: 0,
        version: (m.version + 1) as u64,
        history: bounded_push(m.history, current_ref(m)),
        redo: Seq::empty(),
    }
}

/// Undoing: the committed artifact moves onto the redo stack and the most
/// recent history entry becomes current (and preview, as the session is
/// idle).  Valid only while idle with a non-empty history.
pub open spec fn undone(m: SessionModel) -> SessionModel {
    SessionModel {
        current: Some(m.history.last()),
        preview: Some(m.history.last()),
        history: m.history.drop_last(),
        redo: m.redo.push(current_ref(m)),
        ..m
    }
}

/// Redoing: the committed artifact moves back onto history (bounded, as
/// every history push is) and the most recent redo entry becomes current.
/// Valid only while idle with a non-empty redo stack.
pub open spec fn redone(m: SessionModel) -> SessionModel {
    SessionModel {
        current: Some(m.redo.last()),
        preview: Some(m.redo.last()),
        history: bounded_push(m.history, current_ref(m)),
        redo: m.redo.drop_last(),
        ..m
    }
}

/// Every transition below preserves the session invariant; the editor's
/// methods lean on these to carry [`SessionModel::wf`] across each call.
pub proof fn lemma_init_wf()
    ensures
        SessionModel::init().wf(),
{
}

pub proof fn lemma_loaded_wf()
    ensures
        loaded().wf(),
{
}

pub proof fn lemma_selected_wf(m: SessionModel, s: State)
    requires
        m.wf(),
        s != State::Waiting,
    ensures
        selected(m, s).wf(),
{
}

pub proof fn lemma_with_intensity_wf(m: SessionModel, v: i32)
    requires
        m.wf(),
    ensures
        with_intensity(m, v).wf(),
{
}

pub proof fn lemma_after_edit_request_wf(m: SessionModel, op: EditOp)
    requires
        m.wf(),
    ensures
        after_edit_request(m, op).wf(),
{
}

pub proof fn lemma_completed_wf(m: SessionModel, plan: EditPlan)
    requires
        m.wf(),
        edit_decision(m, plan.op) == EditOutcome::Pending(plan),
    ensures
        completed(m, plan).wf(),
{
    crate::ops::lemma_op_mode_active(plan.op);
}

pub proof fn lemma_confirmed_wf(m: SessionModel)
    requires
        m.wf(),
        m.mode != State::Waiting,
        m.version < u64::MAX,
    ensures
        confirmed(m).wf(),
{
    let n = confirmed(m);
    assert forall|i: int| 0 <= i < n.history.len() implies allocated_before(
        #[trigger] n.history[i],
        n.version,
    ) by {
        if m.history.len() < MAX_VERSIONS {
            if i < m.history.len() {
                assert(n.history[i] == m.history[i]);
            }
        } else {
            if i < n.history.len() - 1 {
                assert(n.history[i] == m.history[i + 1]);
            }
        }
    }
}

pub proof fn lemma_undone_wf(m: SessionModel)
    requires
        m.wf(),
        m.mode == State::Waiting,
        m.history.len() > 0,
    ensures
        undone(m).wf(),
        undone(m).mode == State::Waiting,
        undone(m).history.len() == m.history.len() - 1,
        undone(m).redo.len() == m.redo.len() + 1,
        undone(m).version == m.version,
{
    let n = undone(m);
    assert forall|i: int| 0 <= i < n.history.len() implies allocated_before(
        #[trigger] n.history[i],
        n.version,
    ) by {
        assert(n.history[i] == m.history[i]);
    }
    assert forall|i: int| 0 <= i < n.redo.len() implies allocated_before(
        #[trigger] n.redo[i],
        n.version,
    ) by {
        if i < m.redo.len() {
            assert(n.redo[i] == m.redo[i]);
        }
    }
}

pub proof fn lemma_redone_wf(m: SessionModel)
    requires
        m.wf(),
        m.mode == State::Waiting,
        m.redo.len() > 0,
    ensures
        redone(m).wf(),
        redone(m).mode == State::Waiting,
        redone(m).redo.len() == m.redo.len() - 1,
        redone(m).version == m.version,
{
    let n = redone(m);
    assert forall|i: int| 0 <= i < n.history.len() implies allocated_before(
        #[trigger] n.history[i],
        n.version,
    ) by {
        if m.history.len() < MAX_VERSIONS {
            if i < m.history.len() {
                assert(n.history[i] == m.history[i]);
            }
        } else {
            if i < n.history.len() - 1 {
                assert(n.history[i] == m.history[i + 1]);
            }
        }
    }
    assert forall|i: int| 0 <= i < n.redo.len() implies allocated_before(
        #[trigger] n.redo[i],
        n.version,
    ) by {
        assert(n.redo[i] == m.redo[i]);
    }
}

} // verus!
