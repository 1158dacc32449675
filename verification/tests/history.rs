use image_editor::image_data::ImageDataWrapper;
use image_editor::image_data_list::{ImageDataList, MAX_IMAGE_DATA_LIST_SIZE};

/// A 1x1 RGBA snapshot whose bytes carry a marker value.
fn snap(marker: u8) -> ImageDataWrapper {
    ImageDataWrapper::new(vec![marker, marker, marker, 255], 1, 1)
}

fn marker_at(h: &ImageDataList, i: usize) -> u8 {
    h.image_data_list[i].data[0]
}

#[test]
fn test_push_keeps_bound_and_cursor() {
    let mut h = ImageDataList::new();
    assert!(h.is_empty());
    for i in 0..12u8 {
        h.push(snap(i));
        assert!(h.image_data_list.len() <= MAX_IMAGE_DATA_LIST_SIZE);
        assert_eq!(h.current_index, h.image_data_list.len() - 1);
    }
    assert_eq!(h.image_data_list.len(), MAX_IMAGE_DATA_LIST_SIZE);
}

#[test]
fn test_push_evicts_oldest_when_full() {
    let mut h = ImageDataList::new();
    for i in 0..10u8 {
        h.push(snap(i));
    }
    assert_eq!(marker_at(&h, 0), 0);
    h.push(snap(10));
    assert_eq!(h.image_data_list.len(), 10);
    // The oldest entry (marker 0) is gone; the list now starts at marker 1.
    assert_eq!(marker_at(&h, 0), 1);
    assert_eq!(marker_at(&h, 9), 10);
}

#[test]
fn test_undo_redo_round_trip() {
    let mut h = ImageDataList::new();
    h.push(snap(1));
    h.push(snap(2));
    let before_cursor = h.current_index;
    let before_bytes = h.image_data_list[h.current_index].data.clone();

    let undone = h.undo().expect("undo with an earlier entry yields a snapshot");
    assert_eq!(undone.data[0], 1);
    assert_eq!(h.current_index, 0);

    let redone = h.redo().expect("redo after undo yields a snapshot");
    assert_eq!(redone.data[0], 2);
    assert_eq!(h.current_index, before_cursor);
    assert_eq!(h.image_data_list[h.current_index].data, before_bytes);
}

#[test]
fn test_push_after_undo_truncates() {
    let mut h = ImageDataList::new();
    h.push(snap(1)); // A
    h.push(snap(2)); // B
    h.push(snap(3)); // C
    assert!(h.undo().is_some()); // cursor at B
    h.push(snap(4)); // D
    // [A, B, D], not [A, B, C, D].
    assert_eq!(h.image_data_list.len(), 3);
    assert_eq!(marker_at(&h, 0), 1);
    assert_eq!(marker_at(&h, 1), 2);
    assert_eq!(marker_at(&h, 2), 4);
    assert_eq!(h.current_index, 2);
}

#[test]
fn test_undo_at_first_is_noop() {
    let mut h = ImageDataList::new();
    h.push(snap(7));
    assert!(h.undo().is_none());
    assert_eq!(h.current_index, 0);
    assert_eq!(h.image_data_list.len(), 1);
}

#[test]
fn test_redo_at_last_is_noop() {
    let mut h = ImageDataList::new();
    assert!(h.redo().is_none());
    h.push(snap(7));
    assert!(h.redo().is_none());
    assert_eq!(h.current_index, 0);
}

#[test]
fn test_clone_push_on_empty_is_noop() {
    let mut h = ImageDataList::new();
    h.clone_push();
    assert!(h.is_empty());
    assert_eq!(h.current_index, 0);
}

#[test]
fn test_clone_push_duplicates_current() {
    let mut h = ImageDataList::new();
    h.push(snap(9));
    h.clone_push();
    assert_eq!(h.image_data_list.len(), 2);
    assert_eq!(h.current_index, 1);
    // Same content in both entries...
    assert_eq!(h.image_data_list[0].data, h.image_data_list[1].data);
    assert_eq!(h.image_data_list[0].width, h.image_data_list[1].width);
    assert_eq!(h.image_data_list[0].height, h.image_data_list[1].height);
    // ...but distinct buffers: mutating the copy leaves the original alone.
    h.image_data_list[1].data[0] = 42;
    assert_eq!(marker_at(&h, 0), 9);
    assert_eq!(marker_at(&h, 1), 42);
}

#[test]
fn test_get_image_data_and_flags() {
    let mut h = ImageDataList::new();
    assert!(h.get_image_data().is_none());
    assert!(h.is_first());
    assert!(h.is_last());
    h.push(snap(5));
    assert_eq!(h.get_image_data().unwrap().data[0], 5);
    assert!(h.is_first());
    assert!(h.is_last());
    h.push(snap(6));
    assert!(!h.is_first());
    assert!(h.is_last());
    h.undo();
    assert!(h.is_first());
    assert!(!h.is_last());
    assert_eq!(h.get_image_data().unwrap().data[0], 5);
}
