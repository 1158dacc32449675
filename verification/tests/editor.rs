use image_editor::editor::{Editor, EditorElement, FirstStepOutcome, SliceOutcome};
use image_editor::image_data::ImageDataWrapper;

fn snap(bytes: Vec<u8>, width: u32, height: u32) -> ImageDataWrapper {
    ImageDataWrapper::new(bytes, width, height)
}

/// An editor with one loaded 1x1 image and its first snapshot in history.
fn loaded_editor() -> Editor {
    let mut editor = Editor::new();
    editor.set_image(1, 1);
    editor.setup_image_data(snap(vec![10, 200, 50, 255], 1, 1));
    editor
}

#[test]
fn test_setup_image_data_without_image_is_noop() {
    let mut editor = Editor::new();
    editor.setup_image_data(snap(vec![10, 200, 50, 255], 1, 1));
    assert!(!editor.have_image_data());
    assert!(editor.get_image_data().is_none());
}

#[test]
fn test_setup_image_data_with_image() {
    let editor = loaded_editor();
    assert!(editor.have_image_data());
    assert_eq!(editor.get_image_data().unwrap().data, vec![10, 200, 50, 255]);
}

#[test]
fn test_admission_through_editor() {
    let mut editor = Editor::new();
    let id = editor.try_run().unwrap();
    assert!(editor.try_run_id(id));
    assert!(editor.try_run().is_none());
    editor.to_idle();
    assert!(!editor.try_run_id(id));
    let next = editor.try_run().unwrap();
    assert!(next > id);
}

#[test]
fn test_full_binarization_pass() {
    let mut editor = loaded_editor();
    let id = editor.try_run().unwrap();
    let mut temp = match editor.first_step(id) {
        FirstStepOutcome::Ready(temp) => temp,
        other => panic!("expected Ready, got {:?}", other),
    };
    assert_eq!(temp.index, 0);
    assert_eq!(temp.max_index, 4);
    // The original snapshot was preserved and a working copy pushed.
    assert_eq!(editor.image_data.image_data_list.len(), 2);

    let mut slices = 0;
    loop {
        match editor.binarization_slice(id, &mut temp, 2) {
            SliceOutcome::Continue => slices += 1,
            SliceOutcome::Done => break,
            other => panic!("expected Continue or Done, got {:?}", other),
        }
        assert!(slices < 100);
    }
    assert!(editor.final_step(id));
    assert!(!editor.try_run_id(id));

    // The working copy is binarized, the original untouched.
    assert_eq!(editor.image_data.image_data_list[1].data, vec![0, 255, 0, 255]);
    assert_eq!(editor.image_data.image_data_list[0].data, vec![10, 200, 50, 255]);
    assert_eq!(editor.image_data.current_index, 1);

    // Undo returns to the original snapshot.
    let id = editor.try_run().unwrap();
    assert_eq!(editor.undo().unwrap().data, vec![10, 200, 50, 255]);
    editor.to_idle();
    let _ = id;
}

#[test]
fn test_first_step_without_data_releases() {
    let mut editor = Editor::new();
    let id = editor.try_run().unwrap();
    assert_eq!(editor.first_step(id), FirstStepOutcome::NoData);
    // The admission was released.
    assert!(editor.try_run().is_some());
}

#[test]
fn test_stale_continuation_mutates_nothing() {
    let mut editor = loaded_editor();
    // Drive the generation counter to 3 and admit the operation.
    for _ in 0..2 {
        editor.try_run().unwrap();
        editor.to_idle();
    }
    let id = editor.try_run().unwrap();
    assert_eq!(id, 3);
    let mut temp = match editor.first_step(id) {
        FirstStepOutcome::Ready(temp) => temp,
        other => panic!("expected Ready, got {:?}", other),
    };
    let bytes_before: Vec<Vec<u8>> = editor
        .image_data
        .image_data_list
        .iter()
        .map(|s| s.data.clone())
        .collect();

    // Supersede: the operation is reset and a new one admitted.
    editor.to_idle();
    let new_id = editor.try_run().unwrap();
    assert_eq!(new_id, 4);

    // The continuation still carrying generation 3 observes staleness and
    // performs no buffer mutation.
    assert!(!editor.try_run_id(id));
    let temp_before = temp;
    assert_eq!(editor.binarization_slice(id, &mut temp, 1000), SliceOutcome::Stale);
    assert_eq!(temp, temp_before);
    assert_eq!(editor.first_step(id), FirstStepOutcome::Stale);
    assert!(!editor.final_step(id));
    let bytes_after: Vec<Vec<u8>> = editor
        .image_data
        .image_data_list
        .iter()
        .map(|s| s.data.clone())
        .collect();
    assert_eq!(bytes_before, bytes_after);
    // The superseding operation still owns the editor.
    assert!(editor.try_run_id(new_id));
}

#[test]
fn test_backward_and_forward_clicked() {
    let mut editor = loaded_editor();
    editor.setup_image_data(snap(vec![99, 99, 99, 255], 1, 1));
    assert_eq!(editor.image_data.image_data_list.len(), 2);

    // Undo click: admitted, cursor moves back, caller gets the generation.
    let id = editor.backward_clicked().expect("undo should be admitted");
    assert_eq!(editor.image_data.current_index, 0);
    assert!(editor.try_run_id(id));
    // A second click while the redraw is pending is declined.
    assert!(editor.backward_clicked().is_none());
    assert!(editor.final_step(id));

    // Redo click: cursor moves forward again.
    let id = editor.forward_clicked().expect("redo should be admitted");
    assert_eq!(editor.image_data.current_index, 1);
    assert!(editor.final_step(id));

    // Redo at the last entry: admitted but immediately released, no movement.
    assert!(editor.forward_clicked().is_none());
    assert_eq!(editor.image_data.current_index, 1);
    assert!(editor.try_run().is_some());
    editor.to_idle();

    // Undo to the first entry, then undo again: released, no movement.
    let id = editor.backward_clicked().unwrap();
    assert!(editor.final_step(id));
    assert!(editor.backward_clicked().is_none());
    assert_eq!(editor.image_data.current_index, 0);
    assert!(editor.try_run().is_some());
}

#[test]
fn test_element_disabled_reflects_state() {
    let mut editor = Editor::new();
    // While an operation runs, everything is disabled.
    for element in [
        EditorElement::InputLabel,
        EditorElement::Input,
        EditorElement::Binarization,
        EditorElement::Save,
        EditorElement::Undo,
        EditorElement::Redo,
    ] {
        assert!(editor.element_disabled(element, true));
    }
    // Idle with an empty history: only the input controls are enabled.
    assert!(!editor.element_disabled(EditorElement::InputLabel, false));
    assert!(!editor.element_disabled(EditorElement::Input, false));
    assert!(editor.element_disabled(EditorElement::Binarization, false));
    assert!(editor.element_disabled(EditorElement::Save, false));
    assert!(editor.element_disabled(EditorElement::Undo, false));
    assert!(editor.element_disabled(EditorElement::Redo, false));

    // Two snapshots, cursor at the last: undo possible, redo not.
    editor.set_image(1, 1);
    editor.setup_image_data(snap(vec![1, 1, 1, 255], 1, 1));
    editor.setup_image_data(snap(vec![2, 2, 2, 255], 1, 1));
    assert!(!editor.element_disabled(EditorElement::Binarization, false));
    assert!(!editor.element_disabled(EditorElement::Save, false));
    assert!(!editor.element_disabled(EditorElement::Undo, false));
    assert!(editor.element_disabled(EditorElement::Redo, false));

    // With a third snapshot and the cursor in the middle, both directions
    // are open.
    editor.setup_image_data(snap(vec![3, 3, 3, 255], 1, 1));
    editor.undo();
    assert!(!editor.element_disabled(EditorElement::Undo, false));
    assert!(!editor.element_disabled(EditorElement::Redo, false));
}
