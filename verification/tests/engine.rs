use image_editor::{ArtifactRef, EditOp, EditOutcome, EditPlan, ImageEditor, State};

/// Runs one full edit cycle: enter `mode`, request `op`, report the plan as
/// written, and confirm.  Returns the plan the engine handed out.
fn edit_and_confirm(e: &mut ImageEditor, mode: State, op: EditOp) -> EditPlan {
    e.select_operation(mode);
    let plan = match e.request_edit(op) {
        EditOutcome::Pending(p) => p,
        other => panic!("expected a pending plan, got {:?}", other),
    };
    e.complete_edit(plan);
    e.confirm();
    plan
}

#[test]
fn new_session_is_empty() {
    let e = ImageEditor::new();
    assert_eq!(e.version_number(), 0);
    assert_eq!(e.current_img_path(), None);
    assert_eq!(e.current_img_edited_path(), None);
    assert_eq!(e.state(), State::Waiting);
    assert_eq!(e.intensity(), 0);
    assert!(e.versions().is_empty());
    assert!(e.versions_discart().is_empty());
}

#[test]
fn load_sets_source_as_current_and_preview() {
    let mut e = ImageEditor::new();
    e.load_image();
    assert_eq!(e.current_img_path(), Some(ArtifactRef::Source));
    assert_eq!(e.current_img_edited_path(), Some(ArtifactRef::Source));
    assert_eq!(e.state(), State::Waiting);
    assert_eq!(e.version_number(), 0);
}

#[test]
fn load_resets_counter_and_empties_both_stacks() {
    let mut e = ImageEditor::new();
    e.load_image();
    edit_and_confirm(&mut e, State::Grayscale, EditOp::Grayscale);
    edit_and_confirm(&mut e, State::Invert, EditOp::Invert);
    e.undo();
    assert!(!e.versions().is_empty());
    assert!(!e.versions_discart().is_empty());
    e.load_image();
    assert_eq!(e.version_number(), 0);
    assert!(e.versions().is_empty());
    assert!(e.versions_discart().is_empty());
    assert_eq!(e.current_img_path(), Some(ArtifactRef::Source));
}

#[test]
fn history_never_exceeds_bound_and_evicts_oldest() {
    let mut e = ImageEditor::new();
    e.load_image();
    for _ in 0..7 {
        edit_and_confirm(&mut e, State::Invert, EditOp::Invert);
        assert!(e.versions().len() <= 5);
    }
    // Seven commits pushed Source, V0, V1, ..., V5; the two oldest fell out.
    let expect = vec![
        ArtifactRef::Version(1),
        ArtifactRef::Version(2),
        ArtifactRef::Version(3),
        ArtifactRef::Version(4),
        ArtifactRef::Version(5),
    ];
    assert_eq!(e.versions(), &expect);
    assert_eq!(e.version_number(), 7);
}

#[test]
fn sixth_entry_evicts_exactly_the_oldest() {
    let mut e = ImageEditor::new();
    e.load_image();
    for _ in 0..5 {
        edit_and_confirm(&mut e, State::Grayscale, EditOp::Grayscale);
    }
    let before = e.versions().clone();
    assert_eq!(before.len(), 5);
    edit_and_confirm(&mut e, State::Grayscale, EditOp::Grayscale);
    let after = e.versions().clone();
    assert_eq!(after.len(), 5);
    // All but the oldest survive, shifted down by one.
    assert_eq!(&after[..4], &before[1..]);
    assert_eq!(after[4], ArtifactRef::Version(4));
}

#[test]
fn blur_zero_is_identity_by_reference() {
    let mut e = ImageEditor::new();
    e.load_image();
    e.select_operation(State::Blur);
    assert_eq!(e.intensity(), 0);
    let r = e.request_edit(EditOp::Blur);
    assert_eq!(r, EditOutcome::Identity);
    // The preview is the very same handle as the committed artifact,
    // not merely an artifact of equal content.
    assert_eq!(e.current_img_edited_path(), e.current_img_path());
    assert_eq!(e.version_number(), 0);
}

#[test]
fn blur_zero_after_nonzero_returns_to_base_reference() {
    let mut e = ImageEditor::new();
    e.load_image();
    e.select_operation(State::Blur);
    e.set_intensity(6);
    let plan = match e.request_edit(EditOp::Blur) {
        EditOutcome::Pending(p) => p,
        other => panic!("expected a pending plan, got {:?}", other),
    };
    e.complete_edit(plan);
    assert_eq!(e.current_img_edited_path(), Some(plan.output));
    e.set_intensity(0);
    assert_eq!(e.request_edit(EditOp::Blur), EditOutcome::Identity);
    assert_eq!(e.current_img_edited_path(), e.current_img_path());
}

#[test]
fn preview_recompute_does_not_depend_on_slider_order() {
    // One session wanders over intensity 3 before settling on 5 ...
    let mut a = ImageEditor::new();
    a.load_image();
    a.select_operation(State::Blur);
    a.set_intensity(3);
    let detour = match a.request_edit(EditOp::Blur) {
        EditOutcome::Pending(p) => p,
        other => panic!("expected a pending plan, got {:?}", other),
    };
    a.complete_edit(detour);
    a.set_intensity(5);
    let via_detour = a.request_edit(EditOp::Blur);

    // ... the other goes to 5 directly.
    let mut b = ImageEditor::new();
    b.load_image();
    b.select_operation(State::Blur);
    b.set_intensity(5);
    let direct = b.request_edit(EditOp::Blur);

    assert_eq!(via_detour, direct);
    match via_detour {
        EditOutcome::Pending(p) => {
            assert_eq!(p.source, ArtifactRef::Source);
            assert_eq!(p.intensity, 5);
        }
        other => panic!("expected a pending plan, got {:?}", other),
    }
}

#[test]
fn confirm_after_undo_clears_redo_entirely() {
    let mut e = ImageEditor::new();
    e.load_image();
    edit_and_confirm(&mut e, State::Grayscale, EditOp::Grayscale);
    edit_and_confirm(&mut e, State::Invert, EditOp::Invert);
    e.undo();
    e.undo();
    assert_eq!(e.versions_discart().len(), 2);
    edit_and_confirm(&mut e, State::Rotate, EditOp::Rotate90);
    assert!(e.versions_discart().is_empty());
}

#[test]
fn scenario_two_edits_undo_then_diverge() {
    let mut e = ImageEditor::new();
    e.load_image();

    edit_and_confirm(&mut e, State::Grayscale, EditOp::Grayscale);
    assert_eq!(e.version_number(), 1);
    assert_eq!(e.versions(), &vec![ArtifactRef::Source]);

    edit_and_confirm(&mut e, State::Invert, EditOp::Invert);
    assert_eq!(e.version_number(), 2);
    assert_eq!(
        e.versions(),
        &vec![ArtifactRef::Source, ArtifactRef::Version(0)]
    );

    e.undo();
    assert_eq!(e.current_img_path(), Some(ArtifactRef::Version(0)));
    assert_eq!(e.versions_discart(), &vec![ArtifactRef::Version(1)]);
    assert_eq!(e.versions(), &vec![ArtifactRef::Source]);

    e.select_operation(State::Blur);
    e.set_intensity(4);
    let plan = match e.request_edit(EditOp::Blur) {
        EditOutcome::Pending(p) => p,
        other => panic!("expected a pending plan, got {:?}", other),
    };
    assert_eq!(plan.source, ArtifactRef::Version(0));
    e.complete_edit(plan);
    e.confirm();

    assert_eq!(e.version_number(), 3);
    assert!(e.versions_discart().is_empty());
    assert_eq!(
        e.versions(),
        &vec![ArtifactRef::Source, ArtifactRef::Version(0)]
    );
}

#[test]
fn undo_redo_roundtrip_restores_everything() {
    let mut e = ImageEditor::new();
    e.load_image();
    edit_and_confirm(&mut e, State::Grayscale, EditOp::Grayscale);
    edit_and_confirm(&mut e, State::Invert, EditOp::Invert);
    edit_and_confirm(&mut e, State::Flip, EditOp::FlipHorizontal);

    let current_before = e.current_img_path();
    let history_before = e.versions().clone();
    let redo_before = e.versions_discart().clone();
    let version_before = e.version_number();

    for _ in 0..3 {
        assert!(e.can_undo());
        e.undo();
    }
    assert_eq!(e.current_img_path(), Some(ArtifactRef::Source));
    for _ in 0..3 {
        assert!(e.can_redo());
        e.redo();
    }

    assert_eq!(e.current_img_path(), current_before);
    assert_eq!(e.versions(), &history_before);
    assert_eq!(e.versions_discart(), &redo_before);
    assert_eq!(e.version_number(), version_before);
}

#[test]
fn undo_redo_walk_visits_each_version() {
    let mut e = ImageEditor::new();
    e.load_image();
    edit_and_confirm(&mut e, State::Grayscale, EditOp::Grayscale);
    edit_and_confirm(&mut e, State::Invert, EditOp::Invert);
    assert_eq!(e.current_img_path(), Some(ArtifactRef::Version(1)));
    e.undo();
    assert_eq!(e.current_img_path(), Some(ArtifactRef::Version(0)));
    e.undo();
    assert_eq!(e.current_img_path(), Some(ArtifactRef::Source));
    assert!(!e.can_undo());
    e.redo();
    assert_eq!(e.current_img_path(), Some(ArtifactRef::Version(0)));
    e.redo();
    assert_eq!(e.current_img_path(), Some(ArtifactRef::Version(1)));
    assert!(!e.can_redo());
}

#[test]
fn edit_actions_without_image_are_ignored() {
    let mut e = ImageEditor::new();
    assert_eq!(e.request_edit(EditOp::Grayscale), EditOutcome::Ignored);
    e.select_operation(State::Grayscale);
    assert_eq!(e.state(), State::Waiting);
    assert_eq!(e.current_img_edited_path(), None);
}

#[test]
fn operation_outside_its_mode_is_ignored() {
    let mut e = ImageEditor::new();
    e.load_image();
    assert_eq!(e.request_edit(EditOp::Invert), EditOutcome::Ignored);
    e.select_operation(State::Blur);
    assert_eq!(e.request_edit(EditOp::Invert), EditOutcome::Ignored);
    e.select_operation(State::Flip);
    assert!(matches!(
        e.request_edit(EditOp::FlipVertical),
        EditOutcome::Pending(_)
    ));
}

#[test]
fn intensity_is_cleared_on_mode_entry_and_fixed_outside_sliders() {
    let mut e = ImageEditor::new();
    e.load_image();
    e.select_operation(State::Brighten);
    e.set_intensity(-40);
    assert_eq!(e.intensity(), -40);
    e.select_operation(State::Blur);
    assert_eq!(e.intensity(), 0);
    e.select_operation(State::Flip);
    e.set_intensity(7);
    assert_eq!(e.intensity(), 0);
}

#[test]
fn pending_plan_reads_committed_current_not_preview() {
    let mut e = ImageEditor::new();
    e.load_image();
    e.select_operation(State::Brighten);
    e.set_intensity(10);
    let first = match e.request_edit(EditOp::Brighten) {
        EditOutcome::Pending(p) => p,
        other => panic!("expected a pending plan, got {:?}", other),
    };
    e.complete_edit(first);
    // The preview now points at the scratch artifact, but a recompute
    // still reads the committed current image.
    e.set_intensity(20);
    let second = match e.request_edit(EditOp::Brighten) {
        EditOutcome::Pending(p) => p,
        other => panic!("expected a pending plan, got {:?}", other),
    };
    assert_eq!(first.source, ArtifactRef::Source);
    assert_eq!(second.source, ArtifactRef::Source);
    assert_eq!(first.output, second.output);
}

#[test]
fn display_artifact_follows_the_mode() {
    let mut e = ImageEditor::new();
    e.load_image();
    assert_eq!(e.current_display_artifact(), Some(ArtifactRef::Source));
    e.select_operation(State::Grayscale);
    let plan = match e.request_edit(EditOp::Grayscale) {
        EditOutcome::Pending(p) => p,
        other => panic!("expected a pending plan, got {:?}", other),
    };
    e.complete_edit(plan);
    assert_eq!(e.current_display_artifact(), Some(plan.output));
    e.confirm();
    assert_eq!(e.current_display_artifact(), Some(plan.output));
    assert_eq!(e.state(), State::Waiting);
}

#[test]
fn fresh_outputs_never_collide_with_stored_references() {
    let mut e = ImageEditor::new();
    e.load_image();
    let mut seen = vec![ArtifactRef::Source];
    for _ in 0..4 {
        e.select_operation(State::Invert);
        let plan = match e.request_edit(EditOp::Invert) {
            EditOutcome::Pending(p) => p,
            other => panic!("expected a pending plan, got {:?}", other),
        };
        assert!(!seen.contains(&plan.output));
        seen.push(plan.output);
        e.complete_edit(plan);
        e.confirm();
    }
    e.undo();
    // Even after stepping back, a diverging edit gets a fresh artifact.
    e.select_operation(State::Invert);
    let plan = match e.request_edit(EditOp::Invert) {
        EditOutcome::Pending(p) => p,
        other => panic!("expected a pending plan, got {:?}", other),
    };
    assert!(!seen.contains(&plan.output));
}
