//! The change detector of the clipboard monitor.
//!
//! Once per poll tick the caller reads the clipboard and hands the reading
//! over. The monitor keeps the last snapshot it announced and answers with
//! the message to broadcast, if the content has changed.

use vstd::prelude::*;
use crate::snapshot::{view_of, wire_form, ClipboardSnapshot, SnapshotView};

verus! {

/// The pause between two readings of the clipboard, in seconds.
pub const POLL_INTERVAL_SECS: u64 = 1;

/// Whether a reading differs from the retained snapshot. A failed reading
/// counts as no change.
pub open spec fn changed(last: Option<SnapshotView>, reading: Option<SnapshotView>) -> bool {
    reading is Some && last != reading
}

/// The snapshot retained after a reading.
pub open spec fn retained(last: Option<SnapshotView>, reading: Option<SnapshotView>) -> Option<
    SnapshotView,
> {
    if changed(last, reading) {
        reading
    } else {
        last
    }
}

/// The message to broadcast after a reading, if any.
pub open spec fn announcement(last: Option<SnapshotView>, reading: Option<SnapshotView>) -> Option<
    Seq<char>,
> {
    if changed(last, reading) {
        Some(wire_form(reading.unwrap()))
    } else {
        None
    }
}

/// The retained snapshot of the clipboard monitor.
#[derive(Debug)]
pub struct ClipboardMonitor {
    last: Option<ClipboardSnapshot>,
}

impl View for ClipboardMonitor {
    type V = Option<SnapshotView>;

    closed spec fn view(&self) -> Option<SnapshotView> {
        view_of(self.last)
    }
}

impl ClipboardMonitor {
    /// A monitor that has seen nothing yet: any first reading is a change.
    pub fn new() -> (monitor: Self)
        ensures
            monitor@ is None,
    {
        ClipboardMonitor { last: None }
    }

    /// Takes the reading of one poll tick, `None` where the clipboard could
    /// not be read. Where the reading differs from the retained snapshot it
    /// is retained and its message is returned; else nothing changes.
    pub fn observe(&mut self, reading: Option<ClipboardSnapshot>) -> (message: Option<String>)
        ensures
            final(self)@ == retained(old(self)@, view_of(reading)),
            message is Some <==> changed(old(self)@, view_of(reading)),
            message is Some ==> Some(message.unwrap()@) == announcement(
                old(self)@,
                view_of(reading),
            ),
    {
        match reading {
            None => None,
            Some(snapshot) => {
                let same = match &self.last {
                    Some(previous) => previous.eq(&snapshot),
                    None => false,
                };
                if same {
                    assert(self.last.unwrap()@ == snapshot@);
                    None
                } else {
                    let message = snapshot.to_message();
                    self.last = Some(snapshot);
                    Some(message)
                }
            },
        }
    }
}

/// The same content read twice in a row is announced at most once: after
/// any reading of `snapshot`, a second reading of it changes nothing and
/// gives no message.
pub proof fn law_same_content_announced_once(last: Option<SnapshotView>, snapshot: SnapshotView)
    ensures
        announcement(retained(last, Some(snapshot)), Some(snapshot)) is None,
        retained(retained(last, Some(snapshot)), Some(snapshot)) == retained(last, Some(snapshot)),
{
}

/// A failed reading is no change: nothing is announced and the retained
/// snapshot stays.
pub proof fn law_failed_reading_is_no_change(last: Option<SnapshotView>)
    ensures
        announcement(last, None) is None,
        retained(last, None) == last,
{
}

} // verus!
