//! Laws of the editor session, proved over `step` and `issued`, which
//! `EditorState::update` follows exactly.

use crate::editor::{issued, step, EditorView};
use crate::file_access::Error;
use crate::messages::{EditOutcome, EditorMessage, EffectView};
use std::path::PathBuf;
use std::sync::Arc;
use vstd::prelude::*;
use vstd::utf8::{decode_utf8, decode_utf8_encode_utf8, encode_utf8, valid_utf8};

verus! {

/// The state after a sequence of events, taken in order.
pub open spec fn run(s: EditorView, msgs: Seq<EditorMessage>) -> EditorView
    decreases msgs.len(),
{
    if msgs.len() == 0 {
        s
    } else {
        step(run(s, msgs.drop_last()), msgs.last())
    }
}

/// The events that carry the given edit outcomes, in the same order.
pub open spec fn edit_events(outcomes: Seq<EditOutcome>) -> Seq<EditorMessage> {
    outcomes.map_values(|o: EditOutcome| EditorMessage::Edit(o))
}

/// Some outcome among the first `n` changed the text.
pub open spec fn some_edit(outcomes: Seq<EditOutcome>, n: int) -> bool {
    exists|i: int| 0 <= i < n && #[trigger] outcomes[i].is_edit
}

/// Replaying edit events leaves the text and cursor of the last one, in
/// order, keeps the path, and marks the document modified exactly when it
/// already was or one of them changed the text.
pub proof fn edits_replay(s: EditorView, outcomes: Seq<EditOutcome>)
    ensures
        outcomes.len() > 0 ==> run(s, edit_events(outcomes)).text == outcomes.last().text@,
        outcomes.len() > 0 ==> run(s, edit_events(outcomes)).cursor == outcomes.last().cursor,
        outcomes.len() == 0 ==> run(s, edit_events(outcomes)) == s,
        run(s, edit_events(outcomes)).path == s.path,
        run(s, edit_events(outcomes)).is_modified == (s.is_modified || some_edit(
            outcomes,
            outcomes.len() as int,
        )),
    decreases outcomes.len(),
{
    if outcomes.len() > 0 {
        let n = outcomes.len() - 1;
        assert(edit_events(outcomes).drop_last() =~= edit_events(outcomes.drop_last()));
        edits_replay(s, outcomes.drop_last());
        if some_edit(outcomes.drop_last(), n) {
            let i = choose|i: int| 0 <= i < n && #[trigger] outcomes.drop_last()[i].is_edit;
            assert(outcomes[i].is_edit);
        }
        if some_edit(outcomes, n) {
            let i = choose|i: int| 0 <= i < n && #[trigger] outcomes[i].is_edit;
            assert(outcomes.drop_last()[i].is_edit);
        }
        if outcomes[n].is_edit {
            assert(some_edit(outcomes, n + 1));
        } else if some_edit(outcomes, n + 1) {
            let i = choose|i: int| 0 <= i < n + 1 && #[trigger] outcomes[i].is_edit;
            assert(some_edit(outcomes, n));
        }
    }
}

/// A cursor move, selection or scroll leaves the modified flag as it was.
pub proof fn non_edit_keeps_modified(s: EditorView, o: EditOutcome)
    requires
        !o.is_edit,
    ensures
        step(s, EditorMessage::Edit(o)).is_modified == s.is_modified,
{
}

/// A new document is empty, has no path and is unmodified, whatever came before.
pub proof fn new_resets(s: EditorView)
    ensures
        step(s, EditorMessage::New).text == Seq::<char>::empty(),
        step(s, EditorMessage::New).path is None,
        !step(s, EditorMessage::New).is_modified,
        issued(s, EditorMessage::New) is None,
{
}

/// A successful open leaves the loaded text, unmodified; a failed one keeps
/// the text and path and records the error.
pub proof fn open_outcome(s: EditorView, content: Arc<String>, path: Option<PathBuf>, e: Error)
    ensures
        step(s, EditorMessage::FileOpened(Ok((content, path)))).text == content@,
        step(s, EditorMessage::FileOpened(Ok((content, path)))).path == path,
        !step(s, EditorMessage::FileOpened(Ok((content, path)))).is_modified,
        step(s, EditorMessage::FileOpened(Err(e))).text == s.text,
        step(s, EditorMessage::FileOpened(Err(e))).path == s.path,
        step(s, EditorMessage::FileOpened(Err(e))).error == Some(e),
{
}

/// Saving with a known path writes there without a dialog; saving without
/// one, or saving as, asks for a destination. Holds when no file work is
/// under way; while it is, these events ask for nothing.
pub proof fn save_destination(s: EditorView)
    requires
        !s.busy,
    ensures
        s.path is Some ==> issued(s, EditorMessage::Save) == Some(
            EffectView::WriteFile(s.path->0, s.text),
        ),
        s.path is None ==> issued(s, EditorMessage::Save) == Some(EffectView::ChooseSaveLocation),
        issued(s, EditorMessage::SaveAs) == Some(EffectView::ChooseSaveLocation),
{
}

/// Saving with a known path never asks for a destination, busy or not.
pub proof fn known_path_never_prompts(s: EditorView)
    requires
        s.path is Some,
    ensures
        issued(s, EditorMessage::Save) != Some(EffectView::ChooseSaveLocation),
{
}

/// The event leaves the path as it is.
pub open spec fn keeps_path(m: EditorMessage) -> bool {
    !(m is New || m matches EditorMessage::FileOpened(Ok(_)) || m matches EditorMessage::FileSaved(
        Ok(_),
    ))
}

/// The event leaves the text as it is.
pub open spec fn keeps_text(m: EditorMessage) -> bool {
    !(m is Edit || m is New || m matches EditorMessage::FileOpened(Ok(_)))
}

/// Events that keep the path, or the text, keep them over a whole sequence.
pub proof fn run_keeps(s: EditorView, msgs: Seq<EditorMessage>)
    ensures
        (forall|i: int| 0 <= i < msgs.len() ==> keeps_path(#[trigger] msgs[i])) ==> run(s, msgs).path
            == s.path,
        (forall|i: int| 0 <= i < msgs.len() ==> keeps_text(#[trigger] msgs[i])) ==> run(s, msgs).text
            == s.text,
    decreases msgs.len(),
{
    if msgs.len() > 0 {
        run_keeps(s, msgs.drop_last());
        if forall|i: int| 0 <= i < msgs.len() ==> keeps_path(#[trigger] msgs[i]) {
            assert forall|i: int| 0 <= i < msgs.drop_last().len() implies keeps_path(
                #[trigger] msgs.drop_last()[i],
            ) by {
                assert(keeps_path(msgs[i]));
            }
            assert(keeps_path(msgs[msgs.len() - 1]));
        }
        if forall|i: int| 0 <= i < msgs.len() ==> keeps_text(#[trigger] msgs[i]) {
            assert forall|i: int| 0 <= i < msgs.drop_last().len() implies keeps_text(
                #[trigger] msgs.drop_last()[i],
            ) by {
                assert(keeps_text(msgs[i]));
            }
            assert(keeps_text(msgs[msgs.len() - 1]));
        }
    }
}

/// After a successful save to `p`, and any events that keep the path, a
/// save never asks for a destination: it writes the current text to `p`,
/// or asks for nothing while other file work is under way.
pub proof fn save_remembers_path(s: EditorView, p: PathBuf, msgs: Seq<EditorMessage>)
    requires
        forall|i: int| 0 <= i < msgs.len() ==> keeps_path(#[trigger] msgs[i]),
    ensures
        step(s, EditorMessage::FileSaved(Ok(p))).path == Some(p),
        !step(s, EditorMessage::FileSaved(Ok(p))).is_modified,
        ({
            let t = run(step(s, EditorMessage::FileSaved(Ok(p))), msgs);
            issued(t, EditorMessage::Save) == if t.busy {
                None
            } else {
                Some(EffectView::WriteFile(p, t.text))
            }
        }),
{
    run_keeps(step(s, EditorMessage::FileSaved(Ok(p))), msgs);
}

/// Opening a file and then saving, with no event between that changes the
/// text or the path, writes the loaded text back to the file it came from
/// (or asks for nothing while other file work is under way).
pub proof fn open_then_save_writes_back(
    s: EditorView,
    content: Arc<String>,
    p: PathBuf,
    msgs: Seq<EditorMessage>,
)
    requires
        forall|i: int| 0 <= i < msgs.len() ==> keeps_path(#[trigger] msgs[i]),
        forall|i: int| 0 <= i < msgs.len() ==> keeps_text(#[trigger] msgs[i]),
    ensures
        ({
            let t = run(step(s, EditorMessage::FileOpened(Ok((content, Some(p))))), msgs);
            issued(t, EditorMessage::Save) == if t.busy {
                None
            } else {
                Some(EffectView::WriteFile(p, content@))
            }
        }),
{
    run_keeps(step(s, EditorMessage::FileOpened(Ok((content, Some(p))))), msgs);
}

/// Text decoded from valid UTF-8 encodes back to the very same bytes, so
/// writing back an unchanged file that was valid UTF-8 reproduces it byte
/// for byte.
pub proof fn decoded_text_encodes_back(bytes: Seq<u8>, text: Seq<char>)
    requires
        valid_utf8(bytes),
        text == decode_utf8(bytes),
    ensures
        encode_utf8(text) == bytes,
{
    decode_utf8_encode_utf8(bytes);
}

/// Closing the open dialog without a choice records that, keeps the text and
/// path, and reads nothing.
pub proof fn open_cancelled(s: EditorView)
    ensures
        step(s, EditorMessage::OpenPathChosen(None)).error == Some(Error::DialogClosed),
        step(s, EditorMessage::OpenPathChosen(None)).text == s.text,
        step(s, EditorMessage::OpenPathChosen(None)).path == s.path,
        issued(s, EditorMessage::OpenPathChosen(None)) is None,
{
}

/// Closing the save dialog without a choice records that and writes nothing.
pub proof fn save_cancelled(s: EditorView)
    ensures
        step(s, EditorMessage::SavePathChosen(None)).error == Some(Error::DialogClosed),
        step(s, EditorMessage::SavePathChosen(None)).text == s.text,
        step(s, EditorMessage::SavePathChosen(None)).path == s.path,
        issued(s, EditorMessage::SavePathChosen(None)) is None,
{
}

/// While file work is under way, further requests to open or save ask for
/// nothing and change nothing.
pub proof fn busy_ignores_requests(s: EditorView)
    requires
        s.busy,
    ensures
        step(s, EditorMessage::Open) == s,
        step(s, EditorMessage::Save) == s,
        step(s, EditorMessage::SaveAs) == s,
        issued(s, EditorMessage::Open) is None,
        issued(s, EditorMessage::Save) is None,
        issued(s, EditorMessage::SaveAs) is None,
{
}

} // verus!
