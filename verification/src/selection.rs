//! Decisions around copying a selection, transforming it and pasting it back.

use vstd::prelude::*;

use crate::text::{chars_of, push_char, str_eq};
use crate::transform::{spec_apply, Transform};

verus! {

/// How many times the daemon sends Ctrl+C before it gives up on a selection.
pub const COPY_ATTEMPTS: u32 = 5;

/// `s` without its leading byte-order marks (U+FEFF).
pub open spec fn without_leading_bom(s: Seq<char>) -> Seq<char>
    decreases s.len(),
{
    if s.len() > 0 && s[0] == '\u{FEFF}' {
        without_leading_bom(s.drop_first())
    } else {
        s
    }
}

/// Dropping the leading byte-order marks removes a run of them from the front and
/// nothing else: the rest of the text is kept, and it does not start with one.
pub proof fn lemma_without_leading_bom(s: Seq<char>)
    ensures
        without_leading_bom(s).len() <= s.len(),
        forall|i: int| 0 <= i < s.len() - without_leading_bom(s).len() ==> s[i] == '\u{FEFF}',
        s.skip(s.len() - without_leading_bom(s).len()) == without_leading_bom(s),
        without_leading_bom(s).len() == 0 || without_leading_bom(s)[0] != '\u{FEFF}',
    decreases s.len(),
{
    if s.len() > 0 && s[0] == '\u{FEFF}' {
        let rest = s.drop_first();
        lemma_without_leading_bom(rest);
        let r = without_leading_bom(rest);
        assert forall|i: int| 0 <= i < s.len() - r.len() implies s[i] == '\u{FEFF}' by {
            if i > 0 {
                assert(s[i] == rest[i - 1]);
            }
        }
        assert(s.skip(s.len() - r.len()) =~= rest.skip(rest.len() - r.len()));
    } else {
        assert(s.skip(0) =~= s);
    }
}

/// Drops the byte-order marks (U+FEFF) at the start of a clipboard text.
pub fn strip_bom(text: &str) -> (r: String)
    ensures
        r@ == without_leading_bom(text@),
        r@.len() <= text@.len(),
        forall|i: int| 0 <= i < text@.len() - r@.len() ==> text@[i] == '\u{FEFF}',
        text@.skip(text@.len() - r@.len()) == r@,
        r@.len() == 0 || r@[0] != '\u{FEFF}',
{
    proof {
        lemma_without_leading_bom(text@);
    }
    let v = chars_of(text);
    let n = v.len();
    let mut start: usize = 0;
    assert(text@.skip(0) =~= text@);
    while start < n && v[start] == '\u{FEFF}'
        invariant
            n == v@.len(),
            v@ == text@,
            start <= n,
            without_leading_bom(text@) == without_leading_bom(text@.skip(start as int)),
        decreases n - start,
    {
        assert(text@.skip(start as int).drop_first() =~= text@.skip(start + 1));
        start += 1;
    }
    let mut out = String::new();
    for i in start..n
        invariant
            n == v@.len(),
            v@ == text@,
            start <= i <= n,
            out@ == text@.subrange(start as int, i as int),
    {
        push_char(&mut out, v[i]);
        assert(text@.subrange(start as int, i + 1) =~= text@.subrange(start as int, i as int).push(
            v@[i as int],
        ));
    }
    assert(text@.subrange(start as int, n as int) =~= text@.skip(start as int));
    out
}

/// What one attempt to copy the selection tells.
#[derive(Clone, Debug)]
pub enum CopyStep {
    /// The clipboard now holds the selected text.
    Copied(String),
    /// Nothing new in the clipboard yet: send Ctrl+C again.
    Retry,
    /// Nothing new after the last attempt: nothing is selected.
    GiveUp,
}

/// After attempt `attempt` (counted from 1) the clipboard holds `after`, where
/// `marker` was put before copying: a non-empty text other than the marker is
/// the selection; otherwise the daemon tries again, up to `COPY_ATTEMPTS` attempts.
pub fn copy_step(attempt: u32, after: &str, marker: &str) -> (r: CopyStep)
    ensures
        (after@.len() > 0 && after@ != marker@) ==> (r matches CopyStep::Copied(s) && s@ == after@),
        !(after@.len() > 0 && after@ != marker@) ==> (r is Retry <==> attempt < COPY_ATTEMPTS),
        !(after@.len() > 0 && after@ != marker@) ==> (r is GiveUp <==> attempt >= COPY_ATTEMPTS),
{
    if !after.is_empty() && !str_eq(after, marker) {
        CopyStep::Copied(after.to_owned())
    } else if attempt < COPY_ATTEMPTS {
        CopyStep::Retry
    } else {
        CopyStep::GiveUp
    }
}

/// What to do with a selection once it has been transformed.
#[derive(Clone, Debug)]
pub enum PasteDecision {
    /// Nothing was selected: do nothing.
    NothingSelected,
    /// The transformation leaves the text as it is: paste nothing.
    Unchanged,
    /// Paste this text over the selection.
    Paste(String),
}

/// Applies `transform` to the selected text and decides whether to paste.
pub fn decide_paste(transform: Transform, selected: &str) -> (r: PasteDecision)
    ensures
        selected@.len() == 0 ==> r is NothingSelected,
        selected@.len() > 0 && spec_apply(transform, selected@) == selected@ ==> r is Unchanged,
        selected@.len() > 0 && spec_apply(transform, selected@) != selected@ ==> (r matches PasteDecision::Paste(
            s,
        ) && s@ == spec_apply(transform, selected@)),
{
    if selected.is_empty() {
        return PasteDecision::NothingSelected;
    }
    let transformed = transform.apply(selected);
    if str_eq(transformed.as_str(), selected) {
        PasteDecision::Unchanged
    } else {
        PasteDecision::Paste(transformed)
    }
}

/// The pauses around pasting, in milliseconds.
#[derive(Clone, Copy, Debug, PartialEq, Eq, Structural)]
pub struct PasteTimings {
    /// Between putting the text in the clipboard and sending Ctrl+V.
    pub before_paste_ms: u64,
    /// Between sending Ctrl+V and restoring the old clipboard.
    pub after_paste_ms: u64,
}

/// Windows: half the configured delay before pasting, the whole delay after.
pub fn windows_timings(delay_ms: u64) -> (r: PasteTimings)
    ensures
        r.before_paste_ms == delay_ms / 2,
        r.after_paste_ms == delay_ms,
{
    PasteTimings { before_paste_ms: delay_ms / 2, after_paste_ms: delay_ms }
}

/// Wayland: the configured delay, but at least 80 ms before pasting and at
/// least 100 ms after.
pub fn wayland_timings(delay_ms: u64) -> (r: PasteTimings)
    ensures
        r.before_paste_ms == if delay_ms > 80 { delay_ms } else { 80 },
        r.after_paste_ms == if delay_ms > 100 { delay_ms } else { 100 },
{
    let before = if delay_ms > 80 { delay_ms } else { 80 };
    let after = if delay_ms > 100 { delay_ms } else { 100 };
    PasteTimings { before_paste_ms: before, after_paste_ms: after }
}

/// On Wayland: how long to wait for the modifiers of the triggering hotkey to be
/// released before copying, in milliseconds.
pub const WAYLAND_RELEASE_DELAY_MS: u64 = 350;

/// On Wayland: how long to wait for the clipboard to become empty after clearing it.
pub const WAYLAND_CLEAR_TIMEOUT_MS: u64 = 500;

/// On Wayland: the pause between two reads while waiting for the clipboard to clear.
pub const WAYLAND_CLEAR_POLL_MS: u64 = 25;

/// On Wayland: how long to wait for Ctrl+C to fill the clipboard.
pub const WAYLAND_COPY_TIMEOUT_MS: u64 = 900;

/// On Wayland: the pause before each read while waiting for Ctrl+C to fill the clipboard.
pub const WAYLAND_COPY_POLL_MS: u64 = 40;

/// Where the Wayland copy of a selection stands, once the clipboard has been cleared.
#[derive(Clone, Copy, Debug, PartialEq, Eq, Structural)]
pub enum WaylandCopyPhase {
    /// Waiting for the cleared clipboard to read as empty.
    Clearing,
    /// Reading the clipboard once more to be sure no old text is left in it.
    ConfirmCleared,
    /// Ctrl+C has been sent: waiting for the selection to arrive.
    Copying,
}

/// What to do next while copying a selection on Wayland.
#[derive(Clone, Copy, Debug, PartialEq, Eq, Structural)]
pub enum WaylandCopyAction {
    /// Stay in the same phase and read again (after the phase's pause).
    PollAgain,
    /// Go on to read the clipboard once more, to confirm it is empty.
    ConfirmCleared,
    /// The clipboard is empty: send Ctrl+C and wait for the selection.
    SendCtrlC,
    /// The text just read is the selection.
    Copied,
    /// The clipboard still holds old text after clearing: refuse to go on.
    FailStale,
    /// Ctrl+C did not fill the clipboard in time: nothing is selected.
    FailNothingCopied,
}

/// One step of copying the selection on Wayland. `deadline_passed` says whether
/// the phase's time is up (checked before reading; then nothing is read), and
/// `read_nonempty` whether the clipboard read in this step held text (a failed
/// read counts as empty).
pub fn wayland_copy_step(phase: WaylandCopyPhase, read_nonempty: bool, deadline_passed: bool) -> (r:
    WaylandCopyAction)
    ensures
        phase == WaylandCopyPhase::Clearing ==> r == if deadline_passed || !read_nonempty {
            WaylandCopyAction::ConfirmCleared
        } else {
            WaylandCopyAction::PollAgain
        },
        phase == WaylandCopyPhase::ConfirmCleared ==> r == if read_nonempty {
            WaylandCopyAction::FailStale
        } else {
            WaylandCopyAction::SendCtrlC
        },
        phase == WaylandCopyPhase::Copying ==> r == if deadline_passed {
            WaylandCopyAction::FailNothingCopied
        } else if read_nonempty {
            WaylandCopyAction::Copied
        } else {
            WaylandCopyAction::PollAgain
        },
{
    match phase {
        WaylandCopyPhase::Clearing => {
            if deadline_passed || !read_nonempty {
                WaylandCopyAction::ConfirmCleared
            } else {
                WaylandCopyAction::PollAgain
            }
        },
        WaylandCopyPhase::ConfirmCleared => {
            if read_nonempty {
                WaylandCopyAction::FailStale
            } else {
                WaylandCopyAction::SendCtrlC
            }
        },
        WaylandCopyPhase::Copying => {
            if deadline_passed {
                WaylandCopyAction::FailNothingCopied
            } else if read_nonempty {
                WaylandCopyAction::Copied
            } else {
                WaylandCopyAction::PollAgain
            }
        },
    }
}

} // verus!
