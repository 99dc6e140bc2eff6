//! Decision logic of the N-Top overlay: edit/pass-through modes, hover tracking,
//! window placement on monitors, settings persistence steps and the history of
//! text snapshots.

pub mod clock;
pub mod geometry;
pub mod history;
pub mod hover;
pub mod menu;
pub mod mode;
pub mod settings;
pub mod state;
pub mod text;
