use vstd::prelude::*;
use crate::artifact::ArtifactRef;

verus! {

/// How many past versions are kept recoverable.  Pushing beyond this bound
/// silently evicts the oldest entry: the most recent five versions can
/// always be stepped back to, older ones are lost.
pub const MAX_VERSIONS: usize = 5;

/// The mathematical content of a [`VersionStack`]: the back stack of past
/// versions and the forward stack of undone ones, newest at the end.
#[verifier::ext_equal]
pub ghost struct StackModel {
    pub history: Seq<ArtifactRef>,
    pub redo: Seq<ArtifactRef>,
}

/// Pushing onto the bounded history: appended at the back, and when the
/// stack is already full the front (oldest) entry — exactly that one — is
/// evicted first.
pub open spec fn bounded_push(h: Seq<ArtifactRef>, r: ArtifactRef) -> Seq<ArtifactRef> {
    if h.len() < MAX_VERSIONS {
        h.push(r)
    } else {
        h.drop_first().push(r)
    }
}

/// A bounded back stack of past versions plus an unbounded forward stack of
/// undone ones.  Only references move through it; the files they denote are
/// reclaimed by the scratch store at teardown, never here.
pub struct VersionStack {
    history: Vec<ArtifactRef>,
    redo: Vec<ArtifactRef>,
}

impl View for VersionStack {
    type V = StackModel;

    closed spec fn view(&self) -> StackModel {
        StackModel { history: self.history@, redo: self.redo@ }
    }
}

impl VersionStack {
    /// The history bound holds at all times.
    pub open spec fn wf(self) -> bool {
        self@.history.len() <= MAX_VERSIONS
    }

    /// Two empty stacks.
    pub fn new() -> (s: Self)
        ensures
            s.wf(),
            s@.history == Seq::<ArtifactRef>::empty(),
            s@.redo == Seq::<ArtifactRef>::empty(),
    {
        VersionStack { history: Vec::new(), redo: Vec::new() }
    }

    /// Appends to the back of history; a full stack first evicts its
    /// oldest entry, so the bound is never exceeded.
    pub fn push_history(&mut self, r: ArtifactRef)
        requires
            old(self).wf(),
        ensures
            final(self).wf(),
            final(self)@.history == bounded_push(old(self)@.history, r),
            final(self)@.redo == old(self)@.redo,
    {
        if self.history.len() == MAX_VERSIONS {
            let ghost before = self.history@;
            self.history.remove(0);
            proof {
                assert(self.history@ =~= before.drop_first());
            }
        }
        self.history.push(r);
    }

    /// Removes and returns the most recent history entry.  Emptiness is a
    /// caller precondition, checked through [`Self::history_len`].
    pub fn pop_history(&mut self) -> (r: ArtifactRef)
        requires
            old(self).wf(),
            old(self)@.history.len() > 0,
        ensures
            final(self).wf(),
            r == old(self)@.history.last(),
            final(self)@.history == old(self)@.history.drop_last(),
            final(self)@.redo == old(self)@.redo,
    {
        let r = self.history.pop().unwrap();
        proof {
            assert(self.history@ =~= old(self)@.history.drop_last());
        }
        r
    }

    /// Appends to the back of the redo stack.
    pub fn push_redo(&mut self, r: ArtifactRef)
        requires
            old(self).wf(),
        ensures
            final(self).wf(),
            final(self)@.redo == old(self)@.redo.push(r),
            final(self)@.history == old(self)@.history,
    {
        self.redo.push(r);
    }

    /// Removes and returns the most recent redo entry.  Emptiness is a
    /// caller precondition, checked through [`Self::redo_len`].
    pub fn pop_redo(&mut self) -> (r: ArtifactRef)
        requires
            old(self).wf(),
            old(self)@.redo.len() > 0,
        ensures
            final(self).wf(),
            r == old(self)@.redo.last(),
            final(self)@.redo == old(self)@.redo.drop_last(),
            final(self)@.history == old(self)@.history,
    {
        let r = self.redo.pop().unwrap();
        proof {
            assert(self.redo@ =~= old(self)@.redo.drop_last());
        }
        r
    }

    /// Drops every redo entry; called when a new edit is committed, so no
    /// stale forward branch survives a diverging edit.
    pub fn clear_redo(&mut self)
        requires
            old(self).wf(),
        ensures
            final(self).wf(),
            final(self)@.redo == Seq::<ArtifactRef>::empty(),
            final(self)@.history == old(self)@.history,
    {
        self.redo.clear();
    }

    pub fn history_len(&self) -> (n: usize)
        ensures
            n == self@.history.len(),
    {
        self.history.len()
    }

    pub fn redo_len(&self) -> (n: usize)
        ensures
            n == self@.redo.len(),
    {
        self.redo.len()
    }

    /// The past versions, oldest first.
    pub fn history(&self) -> (h: &Vec<ArtifactRef>)
        ensures
            h@ == self@.history,
    {
        &self.history
    }

    /// The undone versions, oldest first.
    pub fn redo_stack(&self) -> (r: &Vec<ArtifactRef>)
        ensures
            r@ == self@.redo,
    {
        &self.redo
    }
}

} // verus!
