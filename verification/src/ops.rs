use vstd::prelude::*;
use crate::artifact::ArtifactRef;

verus! {

/// The mode the session is in: either idle (`Waiting`) or one of the edit
/// modes the user can enter from the operation menu.
#[derive(Clone, Copy, PartialEq, Eq, Structural, Debug)]
pub enum State {
    Waiting,
    Blur,
    Brighten,
    Contrast,
    Flip,
    Grayscale,
    Invert,
    Rotate,
}

/// One concrete filter the shell can run over a decoded image.
///
/// `Flip` and `Rotate` modes offer several buttons each, so they fan out
/// into several operations here; the parameterized modes (`Blur`,
/// `Brighten`, `Contrast`) read the session's intensity value.
#[derive(Clone, Copy, PartialEq, Eq, Structural, Debug)]
pub enum EditOp {
    Blur,
    Brighten,
    Contrast,
    FlipHorizontal,
    FlipVertical,
    FlipHorizontalVertical,
    Grayscale,
    Invert,
    Rotate90,
    Rotate180,
    Rotate270,
}

/// The mode in which an operation is offered to the user.
pub open spec fn op_mode(op: EditOp) -> State {
    match op {
        EditOp::Blur => State::Blur,
        EditOp::Brighten => State::Brighten,
        EditOp::Contrast => State::Contrast,
        EditOp::FlipHorizontal => State::Flip,
        EditOp::FlipVertical => State::Flip,
        EditOp::FlipHorizontalVertical => State::Flip,
        EditOp::Grayscale => State::Grayscale,
        EditOp::Invert => State::Invert,
        EditOp::Rotate90 => State::Rotate,
        EditOp::Rotate180 => State::Rotate,
        EditOp::Rotate270 => State::Rotate,
    }
}

/// The mode in which an operation is offered (exec counterpart of
/// [`op_mode`]).
pub fn mode_of(op: EditOp) -> (s: State)
    ensures
        s == op_mode(op),
{
    match op {
        EditOp::Blur => State::Blur,
        EditOp::Brighten => State::Brighten,
        EditOp::Contrast => State::Contrast,
        EditOp::FlipHorizontal => State::Flip,
        EditOp::FlipVertical => State::Flip,
        EditOp::FlipHorizontalVertical => State::Flip,
        EditOp::Grayscale => State::Grayscale,
        EditOp::Invert => State::Invert,
        EditOp::Rotate90 => State::Rotate,
        EditOp::Rotate180 => State::Rotate,
        EditOp::Rotate270 => State::Rotate,
    }
}

/// No operation is offered while idle.
pub proof fn lemma_op_mode_active(op: EditOp)
    ensures
        op_mode(op) != State::Waiting,
{
}

/// Whether a mode carries the intensity parameter.
pub open spec fn parameterized(s: State) -> bool {
    s == State::Blur || s == State::Brighten || s == State::Contrast
}

/// A unit of work for the shell: decode `source`, run `op` with
/// `intensity`, and encode the result as the artifact `output`.
///
/// The engine guarantees that `source` is always the *committed* current
/// artifact — never a previous preview — so repeating an edit with a new
/// parameter can never compound with the old one.
#[derive(Clone, Copy, PartialEq, Eq, Structural, Debug)]
pub struct EditPlan {
    pub op: EditOp,
    pub intensity: i32,
    pub source: ArtifactRef,
    pub output: ArtifactRef,
}

/// What an edit request came to.
#[derive(Clone, Copy, PartialEq, Eq, Structural, Debug)]
pub enum EditOutcome {
    /// No image is loaded or the operation is not offered in the active
    /// mode; the session is unchanged.
    Ignored,
    /// The edit is a no-op (a blur of intensity zero): the preview now is
    /// the current artifact itself and no work is owed.
    Identity,
    /// The shell must run the contained plan and report completion.
    Pending(EditPlan),
}

} // verus!
