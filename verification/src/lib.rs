//! A small interactive core: the user picks a display language, presses a
//! button, and the tool shows the localized name of a randomly drawn musical
//! key from the circle of fifths.
//!
//! The crate is split into three parts: the fixed catalog of 24 keys, the
//! trilingual name table, and the session state machine that ties user
//! intents to the displayed text. A host (a UI event loop) delivers intents
//! and paints the rendered view; it is not part of this crate.

pub mod catalog;
pub mod machine;
pub mod names;

pub use catalog::Key;
pub use machine::Control;
pub use machine::Model;
pub use machine::Msg;
pub use machine::ViewDescription;
pub use machine::init;
pub use machine::update;
pub use machine::view;
pub use names::Languages;
pub use names::key_name;
