//! The events that drive the editor session, and the file work it asks for.

use crate::file_access::Error;
use crate::theme::HighlightTheme;
use std::path::PathBuf;
use std::sync::Arc;
use vstd::prelude::*;

verus! {

/// What an action in the text widget left behind: the whole text, the
/// cursor as line and column (both from 0), and whether the action changed
/// the text (as opposed to moving the cursor, selecting or scrolling).
#[derive(Debug)]
pub struct EditOutcome {
    pub text: String,
    pub cursor: (usize, usize),
    pub is_edit: bool,
}

/// An event: a user action, or the completion of file work.
#[derive(Debug)]
pub enum EditorMessage {
    /// The user acted in the text widget.
    Edit(EditOutcome),
    /// The user asked to open a file.
    Open,
    /// The user asked for a fresh, empty document.
    New,
    /// The user asked to save, to the known path if there is one.
    Save,
    /// The user asked to save to a newly chosen location.
    SaveAs,
    /// The file-open dialog closed, with the chosen file or without one.
    OpenPathChosen(Option<PathBuf>),
    /// The save dialog closed, with the chosen destination or without one.
    SavePathChosen(Option<PathBuf>),
    /// Opening finished: the text read and where from, or the failure.
    FileOpened(Result<(Arc<String>, Option<PathBuf>), Error>),
    /// Saving finished: where the text went, or the failure.
    FileSaved(Result<PathBuf, Error>),
    /// The user picked another highlighting theme.
    ThemeChanged(HighlightTheme),
}

/// File work that the session asks its host to carry out. Each one ends in
/// an event handed back to the session.
#[derive(Debug)]
pub enum Effect {
    /// Show a dialog to choose a file to open; answer with `OpenPathChosen`.
    ChooseFileToOpen,
    /// Read the file; answer with `FileOpened`.
    ReadFile(PathBuf),
    /// Show a dialog to choose where to save; answer with `SavePathChosen`.
    ChooseSaveLocation,
    /// Write the text to the file, replacing it; answer with `FileSaved`.
    WriteFile(PathBuf, String),
}

/// An effect, with the text to write seen as characters.
pub enum EffectView {
    ChooseFileToOpen,
    ReadFile(PathBuf),
    ChooseSaveLocation,
    WriteFile(PathBuf, Seq<char>),
}

impl View for Effect {
    type V = EffectView;

    open spec fn view(&self) -> EffectView {
        match self {
            Effect::ChooseFileToOpen => EffectView::ChooseFileToOpen,
            Effect::ReadFile(p) => EffectView::ReadFile(*p),
            Effect::ChooseSaveLocation => EffectView::ChooseSaveLocation,
            Effect::WriteFile(p, s) => EffectView::WriteFile(*p, s@),
        }
    }
}

/// An optional effect, seen as its view.
pub open spec fn effect_view(e: Option<Effect>) -> Option<EffectView> {
    match e {
        Some(e) => Some(e@),
        None => None,
    }
}

} // verus!
