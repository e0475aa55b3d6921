pub mod buffer;
pub mod cursor;
pub mod editor;
pub mod file;
pub mod moves;
pub mod popup;
pub mod screen;
pub mod selection;
pub mod text;
pub mod utils;
pub mod viewport;
