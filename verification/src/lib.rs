//! Interaction core of a full-screen todo-list application: a cyclic
//! selection list, a modal popup editor, the key-event state machine that
//! drives them, and the pure geometry of the screen regions.

pub mod app;
pub mod editor;
pub mod layout;
pub mod list;
