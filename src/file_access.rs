//! The outcome types of file access, and the path type that the session keeps.

use crate::messages::EditorMessage;
use std::io::ErrorKind;
use std::path::PathBuf;
use std::sync::Arc;
use vstd::prelude::*;
use vstd::utf8::{decode_utf8, valid_utf8};

verus! {

/// std's classification of an I/O failure, carried through unchanged.
#[verifier::external_type_specification]
#[verifier::external_body]
pub struct ExErrorKind(ErrorKind);

/// A location on persistent storage, carried through unchanged.
#[verifier::external_type_specification]
#[verifier::external_body]
pub struct ExPathBuf(PathBuf);

/// Relies on `PathBuf::clone`: the copy is the same path.
pub assume_specification[ <PathBuf as Clone>::clone ](p: &PathBuf) -> (r: PathBuf)
    ensures
        r == *p,
;

/// Why opening or saving a file failed.
#[derive(Clone, Copy, Debug)]
pub enum Error {
    /// The user closed a file-choose dialog without choosing.
    DialogClosed,
    /// Reading or writing failed; the kind says how.
    IO(ErrorKind),
}

/// The text that UTF-8 decoding of `bytes` gives when each invalid sequence
/// becomes U+FFFD.
pub uninterp spec fn utf8_lossy(bytes: Seq<u8>) -> Seq<char>;

/// Relies on `String::from_utf8_lossy`: decodes UTF-8, putting U+FFFD in
/// place of each invalid sequence, so that no input fails; valid UTF-8
/// decodes exactly.
#[verifier::external_body]
fn decode_lossy(bytes: &[u8]) -> (r: String)
    ensures
        r@ == utf8_lossy(bytes@),
        valid_utf8(bytes@) ==> r@ == decode_utf8(bytes@),
{
    String::from_utf8_lossy(bytes).into_owned()
}

/// The event that ends the reading of `path`: the decoded text, or the
/// kind of the I/O failure. Invalid bytes do not fail the read; valid UTF-8
/// is decoded exactly.
pub fn file_read(path: PathBuf, read: Result<Vec<u8>, ErrorKind>) -> (r: EditorMessage)
    ensures
        match read {
            Ok(bytes) => match r {
                EditorMessage::FileOpened(Ok((content, p))) => content@ == utf8_lossy(bytes@) && (
                valid_utf8(bytes@) ==> content@ == decode_utf8(bytes@)) && p == Some(path),
                _ => false,
            },
            Err(kind) => r == EditorMessage::FileOpened(Err(Error::IO(kind))),
        },
{
    match read {
        Ok(bytes) => EditorMessage::FileOpened(
            Ok((Arc::new(decode_lossy(bytes.as_slice())), Some(path))),
        ),
        Err(kind) => EditorMessage::FileOpened(Err(Error::IO(kind))),
    }
}

/// The event that ends the writing of `path`: the path written, or the kind
/// of the I/O failure.
pub fn file_written(path: PathBuf, written: Result<(), ErrorKind>) -> (r: EditorMessage)
    ensures
        match written {
            Ok(()) => r == EditorMessage::FileSaved(Ok(path)),
            Err(kind) => r == EditorMessage::FileSaved(Err(Error::IO(kind))),
        },
{
    match written {
        Ok(()) => EditorMessage::FileSaved(Ok(path)),
        Err(kind) => EditorMessage::FileSaved(Err(Error::IO(kind))),
    }
}

} // verus!
