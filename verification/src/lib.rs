pub mod editor;
pub mod laws;
pub mod layout;
