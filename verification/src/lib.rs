//! Interaction core of a pop-up symbol picker: preferences, the category
//! catalog, the picker state machine and the commit pipeline's decisions.

pub mod catalog;
pub mod commit;
pub mod laws;
pub mod picker;
pub mod prefs;
pub mod store;
pub mod text;
