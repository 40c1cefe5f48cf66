use vstd::prelude::*;
use crate::artifact::ArtifactRef;
use crate::model::{
    after_edit_request, completed, confirmed, edit_decision, lemma_after_edit_request_wf,
    lemma_completed_wf, lemma_confirmed_wf, lemma_init_wf, lemma_loaded_wf, lemma_redone_wf,
    lemma_selected_wf, lemma_undone_wf, lemma_with_intensity_wf, loaded, redone, selected,
    undone, with_intensity, SessionModel,
};
use crate::ops::{mode_of, EditOp, EditOutcome, EditPlan, State};
use crate::stack::VersionStack;

verus! {

/// The session root: the committed and previewed artifacts, the active
/// mode and its parameter, the version counter, and the two stacks.
///
/// Each mutator realizes exactly one transition of the model in
/// [`crate::model`]; its postcondition names that transition, so a caller
/// (and every law in [`crate::laws`]) reasons purely over [`SessionModel`].
pub struct ImageEditor {
    current: Option<ArtifactRef>,
    preview: Option<ArtifactRef>,
    state: State,
    intensity: i32,
    version_number: u64,
    stack: VersionStack,
}

impl View for ImageEditor {
    type V = SessionModel;

    closed spec fn view(&self) -> SessionModel {
        SessionModel {
            current: self.current,
            preview: self.preview,
            mode: self.state,
            intensity: self.intensity,
            version: self.version_number,
            history: self.stack@.history,
            redo: self.stack@.redo,
        }
    }
}

impl ImageEditor {
    /// The session invariant; every method takes and returns a session
    /// satisfying it.
    pub open spec fn wf(self) -> bool {
        self@.wf()
    }

    /// A fresh session: nothing loaded, idle.
    pub fn new() -> (s: Self)
        ensures
            s.wf(),
            s@ == SessionModel::init(),
    {
        proof {
            lemma_init_wf();
        }
        let s = ImageEditor {
            current: None,
            preview: None,
            state: State::Waiting,
            intensity: 0,
            version_number: 0,
            stack: VersionStack::new(),
        };
        proof {
            assert(s@ =~= SessionModel::init());
        }
        s
    }

    /// Loads a base image, from any state: the counter restarts at zero,
    /// both stacks empty out, and the source becomes both the committed
    /// and the previewed artifact.  The shell keeps the mapping from
    /// [`ArtifactRef::Source`] to the picked file.
    pub fn load_image(&mut self)
        ensures
            final(self).wf(),
            final(self)@ == loaded(),
    {
        proof {
            lemma_loaded_wf();
        }
        self.current = Some(ArtifactRef::Source);
        self.preview = Some(ArtifactRef::Source);
        self.state = State::Waiting;
        self.intensity = 0;
        self.version_number = 0;
        self.stack = VersionStack::new();
        proof {
            assert(self@ =~= loaded());
        }
    }

    /// Enters edit mode `s`: the preview restarts from the committed
    /// artifact and the intensity is cleared.  With no image loaded this
    /// is a no-op, not an error.
    pub fn select_operation(&mut self, s: State)
        requires
            old(self).wf(),
            s != State::Waiting,
        ensures
            final(self).wf(),
            final(self)@ == selected(old(self)@, s),
    {
        proof {
            lemma_selected_wf(old(self)@, s);
        }
        if self.current.is_some() {
            self.state = s;
            self.preview = self.current;
            self.intensity = 0;
            proof {
                assert(self@ =~= selected(old(self)@, s));
            }
        }
    }

    /// Moves the intensity slider.  Only the parameterized modes carry
    /// the parameter; elsewhere this is a no-op.
    pub fn set_intensity(&mut self, v: i32)
        requires
            old(self).wf(),
        ensures
            final(self).wf(),
            final(self)@ == with_intensity(old(self)@, v),
    {
        proof {
            lemma_with_intensity_wf(old(self)@, v);
        }
        if self.state == State::Blur || self.state == State::Brighten || self.state
            == State::Contrast {
            self.intensity = v;
            proof {
                assert(self@ =~= with_intensity(old(self)@, v));
            }
        }
    }

    /// Asks for `op` over the committed current artifact, as the model's
    /// [`edit_decision`] rules: ignored when `op` is not on offer, an
    /// identity (the preview becomes the current artifact itself, zero
    /// work) for a blur of intensity zero, and otherwise a pending plan
    /// whose source is the committed artifact and whose output is the
    /// fresh scratch artifact of the running version.  A pending plan
    /// leaves the session untouched until [`Self::complete_edit`].
    pub fn request_edit(&mut self, op: EditOp) -> (r: EditOutcome)
        requires
            old(self).wf(),
        ensures
            final(self).wf(),
            r == edit_decision(old(self)@, op),
            final(self)@ == after_edit_request(old(self)@, op),
    {
        proof {
            lemma_after_edit_request_wf(old(self)@, op);
        }
        let offered = mode_of(op);
        if self.current.is_none() || !(self.state == offered) {
            return EditOutcome::Ignored;
        }
        if op == EditOp::Blur && self.intensity == 0 {
            self.preview = self.current;
            proof {
                assert(self@ =~= after_edit_request(old(self)@, op));
            }
            return EditOutcome::Identity;
        }
        let plan = EditPlan {
            op,
            intensity: self.intensity,
            source: self.current.unwrap(),
            output: ArtifactRef::Version(self.version_number),
        };
        EditOutcome::Pending(plan)
    }

    /// The shell reports that `plan`'s output artifact is fully written:
    /// it becomes the preview.  The plan must be the one the session
    /// currently hands out, which pins the preview to an artifact derived
    /// from the *committed* current image — never from a stale preview.
    /// Nothing else moves, so an edit that failed (and is simply never
    /// reported) leaves current and both stacks intact.
    pub fn complete_edit(&mut self, plan: EditPlan)
        requires
            old(self).wf(),
            edit_decision(old(self)@, plan.op) == EditOutcome::Pending(plan),
        ensures
            final(self).wf(),
            final(self)@ == completed(old(self)@, plan),
    {
        proof {
            lemma_completed_wf(old(self)@, plan);
        }
        self.preview = Some(plan.output);
        proof {
            assert(self@ =~= completed(old(self)@, plan));
        }
    }

    /// Commits the pending edit: the old current is pushed onto history
    /// (evicting the oldest entry when the bound is reached), the preview
    /// becomes current, the redo stack is cleared, the version counter
    /// advances, and the session returns to idle with the intensity
    /// cleared.
    pub fn confirm(&mut self)
        requires
            old(self).wf(),
            old(self)@.mode != State::Waiting,
            old(self)@.version < u64::MAX,
        ensures
            final(self).wf(),
            final(self)@ == confirmed(old(self)@),
    {
        proof {
            lemma_confirmed_wf(old(self)@);
        }
        let cur = self.current.unwrap();
        self.stack.push_history(cur);
        self.stack.clear_redo();
        self.version_number = self.version_number + 1;
        self.current = self.preview;
        self.state = State::Waiting;
        self.intensity = 0;
        proof {
            assert(self@ =~= confirmed(old(self)@));
        }
    }

    /// Steps back one version: the committed artifact moves onto the redo
    /// stack and the most recent history entry becomes current.  Emptiness
    /// and idleness are caller preconditions, checked via [`Self::can_undo`].
    pub fn undo(&mut self)
        requires
            old(self).wf(),
            old(self)@.mode == State::Waiting,
            old(self)@.history.len() > 0,
        ensures
            final(self).wf(),
            final(self)@ == undone(old(self)@),
    {
        proof {
            lemma_undone_wf(old(self)@);
        }
        let cur = self.current.unwrap();
        self.stack.push_redo(cur);
        let back = self.stack.pop_history();
        self.current = Some(back);
        self.preview = Some(back);
        proof {
            assert(self@ =~= undone(old(self)@));
        }
    }

    /// Steps forward one version: the committed artifact moves back onto
    /// history and the most recent redo entry becomes current.  Emptiness
    /// and idleness are caller preconditions, checked via [`Self::can_redo`].
    pub fn redo(&mut self)
        requires
            old(self).wf(),
            old(self)@.mode == State::Waiting,
            old(self)@.redo.len() > 0,
        ensures
            final(self).wf(),
            final(self)@ == redone(old(self)@),
    {
        proof {
            lemma_redone_wf(old(self)@);
        }
        let cur = self.current.unwrap();
        self.stack.push_history(cur);
        let fwd = self.stack.pop_redo();
        self.current = Some(fwd);
        self.preview = Some(fwd);
        proof {
            assert(self@ =~= redone(old(self)@));
        }
    }

    /// The committed artifact, the source of truth for new edits.
    pub fn current_img_path(&self) -> (r: Option<ArtifactRef>)
        ensures
            r == self@.current,
    {
        self.current
    }

    /// The previewed artifact shown while an edit mode is active.
    pub fn current_img_edited_path(&self) -> (r: Option<ArtifactRef>)
        ensures
            r == self@.preview,
    {
        self.preview
    }

    /// What the shell should display this frame: the committed artifact
    /// while idle, the preview while an edit mode is active.
    pub fn current_display_artifact(&self) -> (r: Option<ArtifactRef>)
        ensures
            r == if self@.mode == State::Waiting {
                self@.current
            } else {
                self@.preview
            },
    {
        if self.state == State::Waiting {
            self.current
        } else {
            self.preview
        }
    }

    pub fn state(&self) -> (s: State)
        ensures
            s == self@.mode,
    {
        self.state
    }

    pub fn intensity(&self) -> (v: i32)
        ensures
            v == self@.intensity,
    {
        self.intensity
    }

    pub fn version_number(&self) -> (n: u64)
        ensures
            n == self@.version,
    {
        self.version_number
    }

    /// The committed past versions, oldest first.
    pub fn versions(&self) -> (h: &Vec<ArtifactRef>)
        ensures
            h@ == self@.history,
    {
        self.stack.history()
    }

    /// The undone versions, oldest first.
    pub fn versions_discart(&self) -> (r: &Vec<ArtifactRef>)
        ensures
            r@ == self@.redo,
    {
        self.stack.redo_stack()
    }

    /// Whether [`Self::undo`] may be called.
    pub fn can_undo(&self) -> (b: bool)
        ensures
            b == (self@.mode == State::Waiting && self@.history.len() > 0),
    {
        self.state == State::Waiting && self.stack.history_len() > 0
    }

    /// Whether [`Self::redo`] may be called.
    pub fn can_redo(&self) -> (b: bool)
        ensures
            b == (self@.mode == State::Waiting && self@.redo.len() > 0),
    {
        self.state == State::Waiting && self.stack.redo_len() > 0
    }
}

} // verus!
