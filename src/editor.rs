//! The editor session: its state, and the next state and file work for each event.

use crate::file_access::Error;
use crate::messages::{effect_view, Effect, EditorMessage, EffectView};
use crate::theme::{spec_is_dark, Appearance, HighlightTheme};
use std::path::PathBuf;
use vstd::prelude::*;

verus! {

/// The session's state as mathematical values.
pub struct EditorView {
    pub text: Seq<char>,
    /// Line and column, both from 0.
    pub cursor: (usize, usize),
    pub path: Option<PathBuf>,
    pub is_modified: bool,
    pub error: Option<Error>,
    pub theme: HighlightTheme,
    /// File work has been asked for and its last event has not come back.
    pub busy: bool,
}

/// The state after an event.
pub open spec fn step(s: EditorView, m: EditorMessage) -> EditorView {
    match m {
        EditorMessage::Edit(o) => EditorView {
            text: o.text@,
            cursor: o.cursor,
            is_modified: s.is_modified || o.is_edit,
            error: None,
            ..s
        },
        EditorMessage::New => EditorView {
            text: Seq::empty(),
            cursor: (0, 0),
            path: None,
            is_modified: false,
            error: None,
            ..s
        },
        EditorMessage::Open | EditorMessage::Save | EditorMessage::SaveAs => if s.busy {
            s
        } else {
            EditorView { busy: true, error: None, ..s }
        },
        EditorMessage::OpenPathChosen(chosen) | EditorMessage::SavePathChosen(chosen) => match chosen {
            Some(_) => s,
            None => EditorView { busy: false, error: Some(Error::DialogClosed), ..s },
        },
        EditorMessage::FileOpened(result) => match result {
            Ok((content, path)) => EditorView {
                text: content@,
                cursor: (0, 0),
                path: path,
                is_modified: false,
                error: None,
                busy: false,
                ..s
            },
            Err(e) => EditorView { busy: false, error: Some(e), ..s },
        },
        EditorMessage::FileSaved(result) => match result {
            Ok(p) => EditorView { path: Some(p), is_modified: false, error: None, busy: false, ..s },
            Err(e) => EditorView { busy: false, error: Some(e), ..s },
        },
        EditorMessage::ThemeChanged(t) => EditorView { theme: t, ..s },
    }
}

/// The file work that an event asks for.
pub open spec fn issued(s: EditorView, m: EditorMessage) -> Option<EffectView> {
    match m {
        EditorMessage::Open => if s.busy {
            None
        } else {
            Some(EffectView::ChooseFileToOpen)
        },
        EditorMessage::Save => if s.busy {
            None
        } else {
            match s.path {
                Some(p) => Some(EffectView::WriteFile(p, s.text)),
                None => Some(EffectView::ChooseSaveLocation),
            }
        },
        EditorMessage::SaveAs => if s.busy {
            None
        } else {
            Some(EffectView::ChooseSaveLocation)
        },
        EditorMessage::OpenPathChosen(Some(p)) => Some(EffectView::ReadFile(p)),
        EditorMessage::SavePathChosen(Some(p)) => Some(EffectView::WriteFile(p, s.text)),
        _ => None,
    }
}

/// The state of the one editing session of the process.
pub struct EditorState {
    text: String,
    cursor: (usize, usize),
    path: Option<PathBuf>,
    is_modified: bool,
    error: Option<Error>,
    theme: HighlightTheme,
    busy: bool,
}

impl View for EditorState {
    type V = EditorView;

    closed spec fn view(&self) -> EditorView {
        EditorView {
            text: self.text@,
            cursor: self.cursor,
            path: self.path,
            is_modified: self.is_modified,
            error: self.error,
            theme: self.theme,
            busy: self.busy,
        }
    }
}

impl EditorState {
    /// The session at startup: an empty, unmodified document with no path.
    pub fn new() -> (r: EditorState)
        ensures
            r@.text == Seq::<char>::empty(),
            r@.cursor == (0usize, 0usize),
            r@.path is None,
            !r@.is_modified,
            r@.error is None,
            r@.theme == HighlightTheme::SolarizedDark,
            !r@.busy,
    {
        EditorState {
            text: String::new(),
            cursor: (0, 0),
            path: None,
            is_modified: false,
            error: None,
            theme: HighlightTheme::SolarizedDark,
            busy: false,
        }
    }

    /// Takes an event: moves to the next state and returns the file work it
    /// asks for, if any.
    pub fn update(&mut self, message: EditorMessage) -> (r: Option<Effect>)
        ensures
            final(self)@ == step(old(self)@, message),
            effect_view(r) == issued(old(self)@, message),
    {
        match message {
            EditorMessage::Edit(outcome) => {
                self.text = outcome.text;
                self.cursor = outcome.cursor;
                self.is_modified = self.is_modified || outcome.is_edit;
                self.error = None;
                None
            },
            EditorMessage::New => {
                self.text = String::new();
                self.cursor = (0, 0);
                self.path = None;
                self.is_modified = false;
                self.error = None;
                None
            },
            EditorMessage::Open => {
                if self.busy {
                    None
                } else {
                    self.busy = true;
                    self.error = None;
                    Some(Effect::ChooseFileToOpen)
                }
            },
            EditorMessage::Save => {
                if self.busy {
                    None
                } else {
                    self.busy = true;
                    self.error = None;
                    match &self.path {
                        Some(p) => Some(Effect::WriteFile(p.clone(), self.text.clone())),
                        None => Some(Effect::ChooseSaveLocation),
                    }
                }
            },
            EditorMessage::SaveAs => {
                if self.busy {
                    None
                } else {
                    self.busy = true;
                    self.error = None;
                    Some(Effect::ChooseSaveLocation)
                }
            },
            EditorMessage::OpenPathChosen(chosen) => match chosen {
                Some(p) => Some(Effect::ReadFile(p)),
                None => {
                    self.busy = false;
                    self.error = Some(Error::DialogClosed);
                    None
                },
            },
            EditorMessage::SavePathChosen(chosen) => match chosen {
                Some(p) => Some(Effect::WriteFile(p, self.text.clone())),
                None => {
                    self.busy = false;
                    self.error = Some(Error::DialogClosed);
                    None
                },
            },
            EditorMessage::FileOpened(result) => {
                match result {
                    Ok((content, path)) => {
                        self.text = content.as_str().to_owned();
                        self.cursor = (0, 0);
                        self.path = path;
                        self.is_modified = false;
                        self.error = None;
                    },
                    Err(e) => {
                        self.error = Some(e);
                    },
                }
                self.busy = false;
                None
            },
            EditorMessage::FileSaved(result) => {
                match result {
                    Ok(p) => {
                        self.path = Some(p);
                        self.is_modified = false;
                        self.error = None;
                    },
                    Err(e) => {
                        self.error = Some(e);
                    },
                }
                self.busy = false;
                None
            },
            EditorMessage::ThemeChanged(t) => {
                self.theme = t;
                None
            },
        }
    }
    /// The text, as a string.
    pub fn text(&self) -> (r: String)
        ensures
            r@ == self@.text,
    {
        self.text.clone()
    }

    /// The cursor's line and column, both counted from 0.
    pub fn cursor_position(&self) -> (r: (usize, usize))
        ensures
            r == self@.cursor,
    {
        self.cursor
    }

    /// The file that the text belongs to, if any.
    pub fn file_path(&self) -> (r: &Option<PathBuf>)
        ensures
            *r == self@.path,
    {
        &self.path
    }

    /// Whether the text changed since it was last loaded or saved.
    pub fn is_modified(&self) -> (r: bool)
        ensures
            r == self@.is_modified,
    {
        self.is_modified
    }

    /// The failure of the last file operation, until something succeeds.
    pub fn last_error(&self) -> (r: Option<Error>)
        ensures
            r == self@.error,
    {
        self.error
    }

    /// The highlighting theme in use.
    pub fn highlight_theme(&self) -> (r: HighlightTheme)
        ensures
            r == self@.theme,
    {
        self.theme
    }

    /// Whether file work is under way.
    pub fn is_busy(&self) -> (r: bool)
        ensures
            r == self@.busy,
    {
        self.busy
    }

    /// The window's look, which follows the highlighting theme.
    pub fn theme(&self) -> (r: Appearance)
        ensures
            r == (if spec_is_dark(self@.theme) {
                Appearance::Dark
            } else {
                Appearance::Light
            }),
    {
        self.theme.appearance()
    }

    /// The window's title.
    pub fn title(&self) -> (r: String)
        ensures
            r@ == "Simple text editor in Rust"@,
    {
        "Simple text editor in Rust".to_owned()
    }

    /// What the save button sends: saving is offered only for modified text.
    pub fn save_message(&self) -> (r: Option<EditorMessage>)
        ensures
            self@.is_modified ==> r == Some(EditorMessage::Save),
            !self@.is_modified ==> r is None,
    {
        if self.is_modified {
            Some(EditorMessage::Save)
        } else {
            None
        }
    }

    /// What the status bar reports: the last failure, else the file being
    /// edited, else that the document is new.
    pub fn status(&self) -> (r: Status)
        ensures
            r == status_of(self@),
    {
        match self.error {
            Some(e) => Status::Failed(e),
            None => match &self.path {
                Some(p) => Status::Editing(p.clone()),
                None => Status::NewFile,
            },
        }
    }
}

/// What the status bar reports.
#[derive(Debug)]
pub enum Status {
    Failed(Error),
    Editing(PathBuf),
    NewFile,
}

/// The status bar's report for a state.
pub open spec fn status_of(s: EditorView) -> Status {
    match s.error {
        Some(e) => Status::Failed(e),
        None => match s.path {
            Some(p) => Status::Editing(p),
            None => Status::NewFile,
        },
    }
}

/// The event that a keyboard shortcut stands for: with the command modifier
/// held, S saves, O opens and N starts a new document.
pub open spec fn shortcut_for(command: bool, key: char) -> Option<EditorMessage> {
    if !command {
        None
    } else if key == 's' || key == 'S' {
        Some(EditorMessage::Save)
    } else if key == 'o' || key == 'O' {
        Some(EditorMessage::Open)
    } else if key == 'n' || key == 'N' {
        Some(EditorMessage::New)
    } else {
        None
    }
}

/// The event for a key pressed with or without the command modifier.
pub fn shortcut(command: bool, key: char) -> (r: Option<EditorMessage>)
    ensures
        r == shortcut_for(command, key),
{
    if !command {
        None
    } else if key == 's' || key == 'S' {
        Some(EditorMessage::Save)
    } else if key == 'o' || key == 'O' {
        Some(EditorMessage::Open)
    } else if key == 'n' || key == 'N' {
        Some(EditorMessage::New)
    } else {
        None
    }
}

} // verus!
