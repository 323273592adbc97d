//! Putting the result on the clipboard: the text as the clipboard holds it, and how
//! long opening the clipboard is retried while another program holds it.
use crate::text::{utf16, wide};
use vstd::prelude::*;

verus! {

/// How long opening the clipboard is tried, in milliseconds.
pub const OPEN_TIMEOUT_MS: u64 = 200;

/// The pause between two tries, in milliseconds.
pub const OPEN_RETRY_PAUSE_MS: u64 = 10;

/// What to do after trying to open the clipboard.
#[derive(Clone, Copy, Debug, PartialEq, Eq)]
pub enum OpenStep {
    /// The clipboard is open.
    Opened,
    /// Stop trying and report the failure.
    GiveUp,
    /// Wait this many milliseconds and try again.
    RetryAfter(u64),
}

/// What follows a try to open the clipboard, `elapsed_ms` milliseconds after the first.
pub fn after_open_attempt(opened: bool, elapsed_ms: u64) -> (res: OpenStep)
    ensures
        res == (if opened {
            OpenStep::Opened
        } else if elapsed_ms >= OPEN_TIMEOUT_MS {
            OpenStep::GiveUp
        } else {
            OpenStep::RetryAfter(OPEN_RETRY_PAUSE_MS)
        }),
{
    if opened {
        OpenStep::Opened
    } else if elapsed_ms >= OPEN_TIMEOUT_MS {
        OpenStep::GiveUp
    } else {
        OpenStep::RetryAfter(OPEN_RETRY_PAUSE_MS)
    }
}

/// The text as the clipboard holds it (Unicode text format): its UTF-16 units followed
/// by a terminating zero, and the size of that block in bytes.
pub fn clipboard_text(text: &str) -> (res: (Vec<u16>, usize))
    requires
        2 * (utf16(text@).len() + 1) <= usize::MAX,
    ensures
        res.0@ == utf16(text@).push(0),
        res.1 == 2 * res.0@.len(),
{
    let units = wide(text);
    let bytes = units.len() * 2;
    (units, bytes)
}

} // verus!
