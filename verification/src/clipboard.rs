//! Bidirectional text clipboard sync.
//!
//! The manager remembers the last text it saw or applied, so a value arriving
//! from the peer does not bounce straight back as a "local change" (an echo
//! loop). The OS clipboard itself is reached through `arboard`.

use vstd::prelude::*;
use arboard::Clipboard;

verus! {

#[verifier::external_type_specification]
#[verifier::external_body]
pub struct ExClipboard(Clipboard);

#[verifier::external_type_specification]
#[verifier::external_body]
pub struct ExArboardError(arboard::Error);

/// The text last handed to this clipboard handle through `set_text`, if any.
/// It records what the library asked the clipboard to hold, not what the OS
/// clipboard holds now (other programs may have changed it since).
pub uninterp spec fn clipboard_handed(cb: Clipboard) -> Option<Seq<char>>;

/// `arboard::Clipboard::new()`: a handle on the OS clipboard, or why there is
/// none (e.g. no desktop session). A new handle has been handed no text.
#[verifier::external_body]
fn clipboard_open() -> (r: Result<Clipboard, arboard::Error>)
    ensures
        r matches Ok(cb) ==> clipboard_handed(cb) is None,
{
    Clipboard::new()
}

/// `Clipboard::get_text`: the clipboard's current text. It depends on what
/// other programs put there, so nothing is stated of it; reading hands the
/// clipboard no text.
#[verifier::external_body]
fn clipboard_text(cb: &mut Clipboard) -> (r: Result<String, arboard::Error>)
    ensures
        clipboard_handed(*final(cb)) == clipboard_handed(*old(cb)),
{
    cb.get_text()
}

/// `Clipboard::set_text`: put `text` on the clipboard. The handle has then
/// been handed `text`, whether or not the platform accepted it.
#[verifier::external_body]
fn clipboard_set(cb: &mut Clipboard, text: String) -> (r: Result<(), arboard::Error>)
    ensures
        clipboard_handed(*final(cb)) == Some(text@),
{
    cb.set_text(text)
}

/// The message of an `arboard` error (its `Display`). Nothing is stated of it.
#[verifier::external_body]
fn arboard_error_text(e: &arboard::Error) -> String {
    e.to_string()
}

/// A clipboard operation failed; the message of the platform's error.
#[derive(Clone, Debug, PartialEq, Eq)]
pub struct ClipboardError {
    pub message: String,
}

/// Commands for the clipboard sync thread.
#[derive(Clone, Debug, PartialEq, Eq)]
pub enum ClipCmd {
    /// Put text received from the peer on the local clipboard.
    ApplyRemote(String),
    Stop,
}

/// The text a local clipboard reading reports to the peer: nothing for an empty
/// clipboard or for the text last seen or applied, the text otherwise.
pub open spec fn local_change(last_seen: Option<Seq<char>>, text: Seq<char>) -> Option<Seq<char>> {
    if text.len() == 0 {
        None
    } else if last_seen == Some(text) {
        None
    } else {
        Some(text)
    }
}

pub open spec fn opt_view(s: Option<String>) -> Option<Seq<char>> {
    match s {
        Some(t) => Some(t@),
        None => None,
    }
}

/// Decide whether a reading of the local clipboard is a change to report,
/// remembering it if so.
pub fn observe_local_text(last_seen: &mut Option<String>, text: String) -> (r: Option<String>)
    ensures
        opt_view(r) == local_change(opt_view(*old(last_seen)), text@),
        r is Some ==> opt_view(*final(last_seen)) == Some(text@),
        r is None ==> opt_view(*final(last_seen)) == opt_view(*old(last_seen)),
{
    if text.as_str().is_empty() {
        return None;
    }
    let echo = match last_seen {
        Some(prev) => *prev == text,
        None => false,
    };
    if echo {
        None
    } else {
        *last_seen = Some(text.clone());
        Some(text)
    }
}

/// Text just applied from the peer is not reported back as a local change
/// while the clipboard still holds it.
pub proof fn law_applied_text_does_not_echo(text: Seq<char>)
    ensures
        local_change(Some(text), text) is None,
{
}

/// The local clipboard with echo suppression.
pub struct ClipboardManager {
    cb: Clipboard,
    last_seen: Option<String>,
}

impl ClipboardManager {
    /// The text last seen locally or applied from the peer.
    pub closed spec fn last_seen_spec(&self) -> Option<Seq<char>> {
        opt_view(self.last_seen)
    }

    /// The text last handed to the OS clipboard by this manager, if any.
    pub closed spec fn handed(&self) -> Option<Seq<char>> {
        clipboard_handed(self.cb)
    }

    /// Open the OS clipboard; nothing has been seen yet.
    pub fn new() -> (r: Result<Self, ClipboardError>)
        ensures
            r matches Ok(m) ==> m.last_seen_spec() is None && m.handed() is None,
    {
        match clipboard_open() {
            Ok(cb) => Ok(ClipboardManager { cb, last_seen: None }),
            Err(e) => Err(ClipboardError { message: arboard_error_text(&e) }),
        }
    }

    /// `Some(text)` if the local clipboard text changed since it was last seen
    /// or applied; `None` for the same text, an empty or non-text clipboard, or
    /// a failed read.
    pub fn poll_local_change(&mut self) -> (r: Option<String>)
        ensures
            r matches Some(t) ==> t@.len() > 0 && old(self).last_seen_spec() != Some(t@)
                && final(self).last_seen_spec() == Some(t@),
            r is None ==> final(self).last_seen_spec() == old(self).last_seen_spec(),
            final(self).handed() == old(self).handed(),
    {
        match clipboard_text(&mut self.cb) {
            Ok(text) => observe_local_text(&mut self.last_seen, text),
            Err(_) => None,
        }
    }

    /// Apply text received from the peer, remembering it so that it is not
    /// echoed back.
    pub fn apply_remote(&mut self, text: &str) -> (r: Result<(), ClipboardError>)
        ensures
            final(self).last_seen_spec() == Some(text@),
            final(self).handed() == Some(text@),
    {
        self.last_seen = Some(String::from_str(text));
        match clipboard_set(&mut self.cb, String::from_str(text)) {
            Ok(()) => Ok(()),
            Err(e) => Err(ClipboardError { message: arboard_error_text(&e) }),
        }
    }
}

} // verus!
