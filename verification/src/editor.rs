//! Editor composition: one image, one history, one admission guard.
//!
//! Every UI event goes through the same discipline: acquire an admission
//! from the [`ModeManager`]; if granted, mutate the history and schedule any
//! continuations under the granted generation; on the completion path,
//! release the admission. A continuation that observes a foreign generation
//! abandons itself without touching any buffer.
//!
//! The host application owns the rendering surface and the element registry;
//! it calls the decision functions here and applies their outcomes (drawing,
//! enabling or disabling elements, scheduling the next slice) outside this
//! crate.

use vstd::prelude::*;

use crate::binarization::{apply_range, binarization_step, Temp};
use crate::image_data::ImageDataWrapper;
use crate::image_data_list::{kept_after_push, ImageDataList};
use crate::mode_manager::{Mode, ModeManager};

verus! {

/// The UI elements whose enabled state follows the editor's state.
#[derive(Clone, Copy, Debug, PartialEq, Eq, Hash, Structural)]
pub enum EditorElement {
    InputLabel,
    Input,
    Binarization,
    Save,
    Undo,
    Redo,
}

/// What a freshly admitted binarization pass found when it started.
#[derive(Clone, Copy, Debug, PartialEq, Eq, Structural)]
pub enum FirstStepOutcome {
    /// The admission has been superseded; abandon silently.
    Stale,
    /// Nothing to binarize; the admission has been released.
    NoData,
    /// The snapshot to mutate is in place; run slices with this cursor.
    Ready(Temp),
}

/// What one rescheduled slice of a binarization pass did.
#[derive(Clone, Copy, Debug, PartialEq, Eq, Structural)]
pub enum SliceOutcome {
    /// The admission has been superseded; nothing was mutated.
    Stale,
    /// The history emptied out from under the pass; nothing was mutated.
    NoData,
    /// One slice was binarized; schedule the next one.
    Continue,
    /// The pass is complete; finalize and release the admission.
    Done,
}

/// The editor state shared by all event handlers: the source image's size
/// once one is loaded, the snapshot history, and the admission guard.
#[derive(Debug)]
pub struct Editor {
    pub image: Option<(u32, u32)>,
    pub image_data: ImageDataList,
    pub mode_manager: ModeManager,
}

impl Editor {
    pub open spec fn wf(self) -> bool {
        &&& self.image_data.wf()
        &&& self.mode_manager.wf()
    }

    pub fn new() -> (r: Editor)
        ensures
            r.image is None,
            r.image_data.image_data_list@.len() == 0,
            r.mode_manager.mode is Idle,
            r.mode_manager.id == 0,
            r.wf(),
    {
        Editor {
            image: None,
            image_data: ImageDataList::new(),
            mode_manager: ModeManager::new(),
        }
    }

    /// Admission check for a user-triggered operation.
    pub fn try_run(&mut self) -> (r: Option<u16>)
        requires
            old(self).mode_manager.mode is Idle ==> old(self).mode_manager.id < u16::MAX,
        ensures
            (final(self).mode_manager, r) == old(self).mode_manager.spec_try_run(),
            final(self).image_data == old(self).image_data,
            final(self).image == old(self).image,
            old(self).wf() ==> final(self).wf(),
    {
        self.mode_manager.try_run()
    }

    /// True exactly when the operation of generation `id` still owns the
    /// editor.
    pub fn try_run_id(&self, id: u16) -> (r: bool)
        ensures
            r == (self.mode_manager.mode == Mode::Run(id)),
    {
        self.mode_manager.match_run_id(id)
    }

    /// The snapshot at the history cursor, if any.
    pub fn get_image_data(&self) -> (r: Option<&ImageDataWrapper>)
        requires
            self.wf(),
        ensures
            self.image_data.image_data_list@.len() == 0 ==> r is None,
            self.image_data.image_data_list@.len() > 0 ==> (r matches Some(s)
                && *s == self.image_data.image_data_list@[self.image_data.current_index as int]),
    {
        self.image_data.get_image_data()
    }

    pub fn have_image_data(&self) -> (r: bool)
        ensures
            r == (self.image_data.image_data_list@.len() > 0),
    {
        !self.image_data.is_empty()
    }

    /// Record the dimensions of the loaded source image.
    pub fn set_image(&mut self, width: u32, height: u32)
        ensures
            final(self).image == Some((width, height)),
            final(self).image_data == old(self).image_data,
            final(self).mode_manager == old(self).mode_manager,
            old(self).wf() ==> final(self).wf(),
    {
        self.image = Some((width, height));
    }

    /// Enter the decoded image's first snapshot into the history. A no-op
    /// when no source image has been recorded.
    pub fn setup_image_data(&mut self, image_data: ImageDataWrapper)
        requires
            old(self).wf(),
            image_data.wf(),
        ensures
            final(self).wf(),
            final(self).image == old(self).image,
            final(self).mode_manager == old(self).mode_manager,
            old(self).image is None ==> *final(self) == *old(self),
            old(self).image is Some ==> ({
                &&& final(self).image_data.image_data_list@ == kept_after_push(
                    old(self).image_data.image_data_list@,
                    old(self).image_data.current_index as int,
                ).push(image_data)
                &&& final(self).image_data.current_index
                    == final(self).image_data.image_data_list@.len() - 1
            }),
    {
        if self.image.is_some() {
            self.image_data.push(image_data);
        }
    }

    /// Snapshot-before-mutate on the history.
    pub fn clone_push(&mut self)
        requires
            old(self).wf(),
        ensures
            final(self).wf(),
            final(self).image == old(self).image,
            final(self).mode_manager == old(self).mode_manager,
            old(self).image_data.image_data_list@.len() == 0 ==> *final(self) == *old(self),
            old(self).image_data.image_data_list@.len() > 0 ==> ({
                let kept = kept_after_push(
                    old(self).image_data.image_data_list@,
                    old(self).image_data.current_index as int,
                );
                &&& final(self).image_data.image_data_list@.len() == kept.len() + 1
                &&& final(self).image_data.image_data_list@.drop_last() == kept
                &&& final(self).image_data.image_data_list@.last().same_image(
                    old(self).image_data.image_data_list@[old(self).image_data.current_index as int])
                &&& final(self).image_data.current_index
                    == final(self).image_data.image_data_list@.len() - 1
            }),
    {
        self.image_data.clone_push();
    }

    /// Move the history cursor one step back, returning the snapshot now
    /// current.
    pub fn undo(&mut self) -> (r: Option<&ImageDataWrapper>)
        requires
            old(self).wf(),
        ensures
            final(self).wf(),
            final(self).image == old(self).image,
            final(self).mode_manager == old(self).mode_manager,
            final(self).image_data == old(self).image_data.spec_undo(),
            old(self).image_data.current_index == 0 ==> r is None,
            old(self).image_data.current_index > 0 ==> (r matches Some(s)
                && *s == final(self).image_data.image_data_list@[
                    final(self).image_data.current_index as int]),
    {
        self.image_data.undo()
    }

    /// Move the history cursor one step forward, returning the snapshot now
    /// current.
    pub fn redo(&mut self) -> (r: Option<&ImageDataWrapper>)
        requires
            old(self).wf(),
        ensures
            final(self).wf(),
            final(self).image == old(self).image,
            final(self).mode_manager == old(self).mode_manager,
            final(self).image_data == old(self).image_data.spec_redo(),
            (old(self).image_data.image_data_list@.len() == 0
                || old(self).image_data.current_index
                    == old(self).image_data.image_data_list@.len() - 1) ==> r is None,
            (old(self).image_data.image_data_list@.len() > 0
                && old(self).image_data.current_index
                    < old(self).image_data.image_data_list@.len() - 1) ==> (r matches Some(s)
                && *s == final(self).image_data.image_data_list@[
                    final(self).image_data.current_index as int]),
    {
        self.image_data.redo()
    }

    /// Release the admission.
    pub fn to_idle(&mut self)
        ensures
            final(self).mode_manager == old(self).mode_manager.spec_to_idle(),
            final(self).image_data == old(self).image_data,
            final(self).image == old(self).image,
            old(self).wf() ==> final(self).wf(),
    {
        self.mode_manager.to_idle();
    }

    /// Whether `element` should be disabled: during any running operation
    /// every element is; when idle, undo requires an earlier entry, redo a
    /// later one, and the edit and save actions a non-empty history.
    pub open spec fn spec_element_disabled(self, element: EditorElement, busy: bool) -> bool {
        busy || match element {
            EditorElement::InputLabel | EditorElement::Input => false,
            EditorElement::Undo => self.image_data.current_index == 0,
            EditorElement::Redo => self.image_data.image_data_list@.len() == 0
                || self.image_data.current_index == self.image_data.image_data_list@.len() - 1,
            EditorElement::Binarization | EditorElement::Save =>
                self.image_data.image_data_list@.len() == 0,
        }
    }

    /// The enabled-state decision the host applies to its element registry.
    pub fn element_disabled(&self, element: EditorElement, busy: bool) -> (r: bool)
        ensures
            r == self.spec_element_disabled(element, busy),
    {
        if busy {
            true
        } else {
            match element {
                EditorElement::InputLabel | EditorElement::Input => false,
                EditorElement::Undo => self.image_data.is_first(),
                EditorElement::Redo => self.image_data.is_last(),
                EditorElement::Binarization | EditorElement::Save => self.image_data.is_empty(),
            }
        }
    }

    /// The undo button was clicked: admit, move the cursor back, and return
    /// the granted generation, under which the caller schedules the redraw
    /// continuation. Declined when busy; released immediately when there is
    /// nothing to undo.
    pub fn backward_clicked(&mut self) -> (r: Option<u16>)
        requires
            old(self).wf(),
            old(self).mode_manager.mode is Idle ==> old(self).mode_manager.id < u16::MAX,
        ensures
            final(self).wf(),
            final(self).image == old(self).image,
            !(old(self).mode_manager.mode is Idle) ==> r is None && *final(self) == *old(self),
            (old(self).mode_manager.mode is Idle && old(self).image_data.current_index == 0)
                ==> ({
                &&& r is None
                &&& final(self).mode_manager.mode is Idle
                &&& final(self).mode_manager.id == old(self).mode_manager.id + 1
                &&& final(self).image_data == old(self).image_data
            }),
            (old(self).mode_manager.mode is Idle && old(self).image_data.current_index > 0)
                ==> ({
                &&& r == Some((old(self).mode_manager.id + 1) as u16)
                &&& final(self).mode_manager.mode == Mode::Run((old(self).mode_manager.id + 1) as u16)
                &&& final(self).image_data == old(self).image_data.spec_undo()
            }),
    {
        let admitted = self.mode_manager.try_run();
        let id = match admitted {
            Some(id) => id,
            None => {
                return None;
            },
        };
        let undone = self.image_data.undo().is_some();
        if undone {
            Some(id)
        } else {
            self.mode_manager.to_idle();
            None
        }
    }

    /// The redo button was clicked: the mirror image of
    /// [`Editor::backward_clicked`].
    pub fn forward_clicked(&mut self) -> (r: Option<u16>)
        requires
            old(self).wf(),
            old(self).mode_manager.mode is Idle ==> old(self).mode_manager.id < u16::MAX,
        ensures
            final(self).wf(),
            final(self).image == old(self).image,
            !(old(self).mode_manager.mode is Idle) ==> r is None && *final(self) == *old(self),
            (old(self).mode_manager.mode is Idle
                && (old(self).image_data.image_data_list@.len() == 0
                    || old(self).image_data.current_index
                        == old(self).image_data.image_data_list@.len() - 1)) ==> ({
                &&& r is None
                &&& final(self).mode_manager.mode is Idle
                &&& final(self).mode_manager.id == old(self).mode_manager.id + 1
                &&& final(self).image_data == old(self).image_data
            }),
            (old(self).mode_manager.mode is Idle
                && old(self).image_data.image_data_list@.len() > 0
                && old(self).image_data.current_index
                    < old(self).image_data.image_data_list@.len() - 1) ==> ({
                &&& r == Some((old(self).mode_manager.id + 1) as u16)
                &&& final(self).mode_manager.mode == Mode::Run((old(self).mode_manager.id + 1) as u16)
                &&& final(self).image_data == old(self).image_data.spec_redo()
            }),
    {
        let admitted = self.mode_manager.try_run();
        let id = match admitted {
            Some(id) => id,
            None => {
                return None;
            },
        };
        let redone = self.image_data.redo().is_some();
        if redone {
            Some(id)
        } else {
            self.mode_manager.to_idle();
            None
        }
    }

    /// The first continuation of an admitted binarization pass: re-validate
    /// the generation, duplicate the current snapshot so the original stays
    /// in history, and hand back the slice cursor covering the whole buffer.
    pub fn first_step(&mut self, id: u16) -> (r: FirstStepOutcome)
        requires
            old(self).wf(),
        ensures
            final(self).wf(),
            final(self).image == old(self).image,
            old(self).mode_manager.mode != Mode::Run(id) ==> r == FirstStepOutcome::Stale
                && *final(self) == *old(self),
            (old(self).mode_manager.mode == Mode::Run(id)
                && old(self).image_data.image_data_list@.len() == 0) ==> ({
                &&& r == FirstStepOutcome::NoData
                &&& final(self).mode_manager == old(self).mode_manager.spec_to_idle()
                &&& final(self).image_data == old(self).image_data
            }),
            (old(self).mode_manager.mode == Mode::Run(id)
                && old(self).image_data.image_data_list@.len() > 0) ==> ({
                let kept = kept_after_push(
                    old(self).image_data.image_data_list@,
                    old(self).image_data.current_index as int,
                );
                &&& (r matches FirstStepOutcome::Ready(temp)
                    && temp.index == 0
                    && temp.max_index
                        == final(self).image_data.image_data_list@.last().data@.len())
                &&& final(self).mode_manager == old(self).mode_manager
                &&& final(self).image_data.image_data_list@.len() == kept.len() + 1
                &&& final(self).image_data.image_data_list@.drop_last() == kept
                &&& final(self).image_data.image_data_list@.last().same_image(
                    old(self).image_data.image_data_list@[old(self).image_data.current_index as int])
                &&& final(self).image_data.current_index
                    == final(self).image_data.image_data_list@.len() - 1
            }),
    {
        if !self.mode_manager.match_run_id(id) {
            return FirstStepOutcome::Stale;
        }
        if self.image_data.is_empty() {
            self.mode_manager.to_idle();
            return FirstStepOutcome::NoData;
        }
        self.image_data.clone_push();
        let len = match self.image_data.get_image_data() {
            Some(image_data) => image_data.len(),
            None => 0,
        };
        FirstStepOutcome::Ready(Temp::new(0, len))
    }

    /// One rescheduled slice of a binarization pass: re-validate the
    /// generation, then binarize one bounded slice of the current snapshot
    /// in place. A stale or dataless slice mutates nothing.
    pub fn binarization_slice(&mut self, id: u16, temp: &mut Temp, step: usize) -> (r: SliceOutcome)
        requires
            old(self).wf(),
            old(temp).wf(),
            (old(self).mode_manager.mode == Mode::Run(id)
                && old(self).image_data.image_data_list@.len() > 0)
                ==> old(temp).max_index <= old(self).image_data.image_data_list@[
                    old(self).image_data.current_index as int].data@.len(),
        ensures
            final(self).wf(),
            final(temp).wf(),
            final(self).image == old(self).image,
            final(self).mode_manager == old(self).mode_manager,
            old(self).mode_manager.mode != Mode::Run(id) ==> r == SliceOutcome::Stale
                && *final(self) == *old(self) && *final(temp) == *old(temp),
            (old(self).mode_manager.mode == Mode::Run(id)
                && old(self).image_data.image_data_list@.len() == 0) ==> r == SliceOutcome::NoData
                && *final(self) == *old(self) && *final(temp) == *old(temp),
            (old(self).mode_manager.mode == Mode::Run(id)
                && old(self).image_data.image_data_list@.len() > 0) ==> ({
                let cursor = old(self).image_data.current_index as int;
                let cur = old(self).image_data.image_data_list@[cursor];
                let hi = if old(temp).index + step <= old(temp).max_index {
                    old(temp).index + step
                } else {
                    old(temp).max_index as int
                };
                &&& final(temp).max_index == old(temp).max_index
                &&& final(temp).index == hi
                &&& final(self).image_data.image_data_list@.len()
                    == old(self).image_data.image_data_list@.len()
                &&& final(self).image_data.current_index == old(self).image_data.current_index
                &&& (forall|j: int|
                    0 <= j < old(self).image_data.image_data_list@.len() && j != cursor
                        ==> final(self).image_data.image_data_list@[j]
                            == old(self).image_data.image_data_list@[j])
                &&& final(self).image_data.image_data_list@[cursor].data@
                    == apply_range(cur.data@, old(temp).index as int, hi)
                &&& final(self).image_data.image_data_list@[cursor].width == cur.width
                &&& final(self).image_data.image_data_list@[cursor].height == cur.height
                &&& r == (if old(temp).index + step > old(temp).max_index {
                    SliceOutcome::Done
                } else {
                    SliceOutcome::Continue
                })
            }),
    {
        if !self.mode_manager.match_run_id(id) {
            return SliceOutcome::Stale;
        }
        if self.image_data.is_empty() {
            return SliceOutcome::NoData;
        }
        let cursor = self.image_data.current_index;
        let done = binarization_step(
            &mut self.image_data.image_data_list[cursor].data,
            temp,
            step,
        );
        if done {
            SliceOutcome::Done
        } else {
            SliceOutcome::Continue
        }
    }

    /// The completion continuation of an operation: if the generation still
    /// owns the editor, release the admission and report that the caller
    /// should finalize (redraw and re-enable the elements); otherwise the
    /// continuation is stale and must abandon.
    pub fn final_step(&mut self, id: u16) -> (r: bool)
        ensures
            final(self).image == old(self).image,
            final(self).image_data == old(self).image_data,
            r == (old(self).mode_manager.mode == Mode::Run(id)),
            r ==> final(self).mode_manager == old(self).mode_manager.spec_to_idle(),
            !r ==> *final(self) == *old(self),
            old(self).wf() ==> final(self).wf(),
    {
        if self.mode_manager.match_run_id(id) {
            self.mode_manager.to_idle();
            true
        } else {
            false
        }
    }
}

} // verus!
