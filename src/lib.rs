//! The logic of a small desktop text editor: the editor session's state
//! machine, the steps of opening and saving a file, and the encoding guess
//! shown in the status bar.

pub mod encoding_detector;
pub mod file_access;
pub mod fonts;
pub mod theme;
pub mod messages;
pub mod editor;
pub mod laws;
