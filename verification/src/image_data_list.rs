//! Bounded undo/redo history of bitmap snapshots.
//!
//! The history is an ordered sequence of [`ImageDataWrapper`] snapshots with
//! a cursor. `push` appends after the cursor, discarding any snapshots beyond
//! it (branch truncation) and evicting the oldest entry when the bound of
//! [`MAX_IMAGE_DATA_LIST_SIZE`] would be exceeded; `undo` and `redo` move the
//! cursor without mutating the list.

use vstd::prelude::*;

use crate::image_data::ImageDataWrapper;

verus! {

/// Upper bound on the number of snapshots the history retains. Once the
/// bound is reached, a further push silently evicts the oldest entry: an
/// accepted information loss that keeps memory bounded.
pub const MAX_IMAGE_DATA_LIST_SIZE: usize = 10;

/// The snapshots that survive a push: everything up to and including the
/// cursor, minus the oldest entry when the bound is already reached.
pub open spec fn kept_after_push(s: Seq<ImageDataWrapper>, cursor: int) -> Seq<ImageDataWrapper> {
    let t = if s.len() == 0 {
        s
    } else {
        s.take(cursor + 1)
    };
    if t.len() == MAX_IMAGE_DATA_LIST_SIZE {
        t.skip(1)
    } else {
        t
    }
}

/// Bounded ordered sequence of snapshots with a cursor.
#[derive(Debug)]
pub struct ImageDataList {
    pub image_data_list: Vec<ImageDataWrapper>,
    pub current_index: usize,
}

impl ImageDataList {
    /// The cursor stays inside the list (and at zero when the list is
    /// empty), the list respects the bound, and every snapshot is
    /// well-formed.
    pub open spec fn wf(self) -> bool {
        &&& self.image_data_list@.len() <= MAX_IMAGE_DATA_LIST_SIZE
        &&& (self.image_data_list@.len() == 0 ==> self.current_index == 0)
        &&& (self.image_data_list@.len() > 0 ==> self.current_index < self.image_data_list@.len())
        &&& (forall|i: int|
            0 <= i < self.image_data_list@.len() ==> (#[trigger] self.image_data_list@[i]).wf())
    }

    /// The cursor movement taken by [`ImageDataList::undo`].
    pub open spec fn spec_undo(self) -> ImageDataList {
        if self.current_index > 0 {
            ImageDataList {
                image_data_list: self.image_data_list,
                current_index: (self.current_index - 1) as usize,
            }
        } else {
            self
        }
    }

    /// The cursor movement taken by [`ImageDataList::redo`].
    pub open spec fn spec_redo(self) -> ImageDataList {
        if self.image_data_list@.len() > 0
            && self.current_index < self.image_data_list@.len() - 1 {
            ImageDataList {
                image_data_list: self.image_data_list,
                current_index: (self.current_index + 1) as usize,
            }
        } else {
            self
        }
    }

    pub fn new() -> (r: ImageDataList)
        ensures
            r.image_data_list@.len() == 0,
            r.current_index == 0,
            r.wf(),
    {
        ImageDataList { image_data_list: Vec::new(), current_index: 0 }
    }

    /// The snapshot at the cursor, if the history is non-empty.
    pub fn get_image_data(&self) -> (r: Option<&ImageDataWrapper>)
        requires
            self.wf(),
        ensures
            self.image_data_list@.len() == 0 ==> r is None,
            self.image_data_list@.len() > 0 ==> (r matches Some(s)
                && *s == self.image_data_list@[self.current_index as int]),
    {
        if self.current_index < self.image_data_list.len() {
            Some(&self.image_data_list[self.current_index])
        } else {
            None
        }
    }

    pub fn is_empty(&self) -> (r: bool)
        ensures
            r == (self.image_data_list@.len() == 0),
    {
        self.image_data_list.is_empty()
    }

    /// At the first entry: nothing to undo.
    pub fn is_first(&self) -> (r: bool)
        ensures
            r == (self.current_index == 0),
    {
        self.current_index == 0
    }

    /// At the last entry (or empty): nothing to redo.
    pub fn is_last(&self) -> (r: bool)
        ensures
            r == (self.image_data_list@.len() == 0
                || self.current_index == self.image_data_list@.len() - 1),
    {
        self.is_empty() || self.current_index == self.image_data_list.len() - 1
    }

    /// Branch-truncating bounded append: discard the snapshots after the
    /// cursor, evict the oldest entry when the bound is reached, append the
    /// new snapshot, and move the cursor to it.
    pub fn push(&mut self, image_data: ImageDataWrapper)
        requires
            old(self).wf(),
            image_data.wf(),
        ensures
            final(self).image_data_list@
                == kept_after_push(old(self).image_data_list@, old(self).current_index as int)
                    .push(image_data),
            final(self).image_data_list@.len() <= MAX_IMAGE_DATA_LIST_SIZE,
            final(self).current_index == final(self).image_data_list@.len() - 1,
            final(self).wf(),
    {
        let ghost s0 = self.image_data_list@;
        let ghost c0 = self.current_index as int;
        self.image_data_list.truncate(self.current_index + 1);
        let ghost t = self.image_data_list@;
        proof {
            if s0.len() == 0 {
                assert(t =~= s0);
            } else {
                assert(t =~= s0.take(c0 + 1));
            }
        }
        if self.image_data_list.len() == MAX_IMAGE_DATA_LIST_SIZE {
            self.image_data_list.remove(0);
            proof {
                assert(self.image_data_list@ =~= t.skip(1));
            }
        }
        proof {
            assert(self.image_data_list@ =~= kept_after_push(s0, c0));
        }
        self.image_data_list.push(image_data);
        self.current_index = self.image_data_list.len() - 1;
        proof {
            assert(self.image_data_list@ == kept_after_push(s0, c0).push(image_data));
            assert forall|i: int| 0 <= i < self.image_data_list@.len() implies
                (#[trigger] self.image_data_list@[i]).wf() by {
                if i < self.image_data_list@.len() - 1 {
                    assert(self.image_data_list@[i] == kept_after_push(s0, c0)[i]);
                }
            }
        }
    }

    /// Snapshot-before-mutate: duplicate the snapshot at the cursor and push
    /// the copy, so the original is preserved in history while the copy is
    /// mutated in place. A no-op on an empty history.
    pub fn clone_push(&mut self)
        requires
            old(self).wf(),
        ensures
            final(self).wf(),
            old(self).image_data_list@.len() == 0 ==> *final(self) == *old(self),
            old(self).image_data_list@.len() > 0 ==> ({
                let kept = kept_after_push(
                    old(self).image_data_list@,
                    old(self).current_index as int,
                );
                &&& final(self).image_data_list@.len() == kept.len() + 1
                &&& final(self).image_data_list@.drop_last() == kept
                &&& final(self).image_data_list@.last().same_image(
                    old(self).image_data_list@[old(self).current_index as int])
                &&& final(self).image_data_list@.last().wf()
                &&& final(self).current_index == final(self).image_data_list@.len() - 1
            }),
    {
        if !self.image_data_list.is_empty() {
            let dup = self.image_data_list[self.current_index].duplicate();
            self.push(dup);
            proof {
                assert(self.image_data_list@.drop_last()
                    =~= kept_after_push(old(self).image_data_list@, old(self).current_index as int));
            }
        }
    }

    /// Move the cursor one step back and return the snapshot now at the
    /// cursor; a no-op returning nothing when already at the first entry.
    pub fn undo(&mut self) -> (r: Option<&ImageDataWrapper>)
        requires
            old(self).wf(),
        ensures
            *final(self) == old(self).spec_undo(),
            final(self).wf(),
            old(self).current_index == 0 ==> r is None,
            old(self).current_index > 0 ==> (r matches Some(s)
                && *s == final(self).image_data_list@[final(self).current_index as int]),
    {
        if self.current_index > 0 {
            self.current_index = self.current_index - 1;
            Some(&self.image_data_list[self.current_index])
        } else {
            None
        }
    }

    /// Move the cursor one step forward and return the snapshot now at the
    /// cursor; a no-op returning nothing when already at the last entry (or
    /// when the history is empty).
    pub fn redo(&mut self) -> (r: Option<&ImageDataWrapper>)
        requires
            old(self).wf(),
        ensures
            *final(self) == old(self).spec_redo(),
            final(self).wf(),
            (old(self).image_data_list@.len() == 0
                || old(self).current_index == old(self).image_data_list@.len() - 1) ==> r is None,
            (old(self).image_data_list@.len() > 0
                && old(self).current_index < old(self).image_data_list@.len() - 1) ==> (
                r matches Some(s)
                && *s == final(self).image_data_list@[final(self).current_index as int]),
    {
        if !self.image_data_list.is_empty()
            && self.current_index < self.image_data_list.len() - 1 {
            self.current_index = self.current_index + 1;
            Some(&self.image_data_list[self.current_index])
        } else {
            None
        }
    }
}

/// Law: undo followed by redo, with no intervening push, restores the
/// history exactly — same cursor, same snapshots, byte for byte.
pub proof fn lemma_undo_redo_round_trip(h: ImageDataList)
    requires
        h.wf(),
        h.current_index > 0,
    ensures
        h.spec_undo().spec_redo() == h,
{
}

/// Law: redo followed by undo, with no intervening push, likewise restores
/// the history exactly.
pub proof fn lemma_redo_undo_round_trip(h: ImageDataList)
    requires
        h.wf(),
        h.image_data_list@.len() > 0,
        h.current_index < h.image_data_list@.len() - 1,
    ensures
        h.spec_redo().spec_undo() == h,
{
}

} // verus!
