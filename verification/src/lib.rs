pub mod amp;
pub mod editor;
