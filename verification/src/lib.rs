//! Concurrency and state-consistency core of an interactive bitmap editor.
//!
//! The editor's UI events (file selection, button clicks, media-preference
//! changes) all mutate one shared piece of state: an in-memory bitmap and its
//! edit history, while a long-running pixel transform executes in bounded
//! time-slices so the host UI thread never freezes. This crate holds the
//! verified engine that keeps that safe:
//!
//! - a single-flight admission guard with a generation counter
//!   ([`mode_manager`]);
//! - a bounded undo/redo history of bitmap snapshots ([`image_data_list`]);
//! - a cooperative, chunked pixel transform that is resumable from any cursor
//!   position ([`binarization`]);
//! - a one-shot completion signal for bridging externally-fired callbacks into
//!   sequential control flow ([`one_shot`]);
//! - the editor composition that sequences the above ([`editor`]).
//!
//! Rendering, decoding and DOM plumbing are external collaborators: the host
//! application performs them and feeds plain values (pixel buffers, sizes,
//! events) into the decision functions of this crate.

pub mod binarization;
pub mod editor;
pub mod image_data;
pub mod image_data_list;
pub mod mode_manager;
pub mod one_shot;
pub mod theme;
