//! A single reminder and its classification against a clock reading.
//!
//! Times are whole seconds on the Unix time line. Remaining time saturates at
//! zero, so an item whose due time has arrived and one that is long past both
//! have zero seconds left and count as overdue.

use vstd::prelude::*;
use crate::text::{append_decimal, decimal};

verus! {

/// Length of the "due soon" window, in seconds.
pub const DUE_SOON_SECS: u64 = 3600;

/// Seconds from `now` until `due`, or zero once `due` has arrived.
pub open spec fn remaining(due: i64, now: i64) -> nat {
    if due > now {
        (due - now) as nat
    } else {
        0
    }
}

pub open spec fn due_soon(due: i64, now: i64) -> bool {
    0 < remaining(due, now) <= DUE_SOON_SECS
}

pub open spec fn overdue(due: i64, now: i64) -> bool {
    remaining(due, now) == 0
}

/// The status tag of a line, with its leading space, or nothing.
pub open spec fn status_suffix(due: i64, now: i64) -> Seq<char> {
    if overdue(due, now) {
        " OVERDUE"@
    } else if due_soon(due, now) {
        " DUE SOON"@
    } else {
        Seq::empty()
    }
}

/// The display line `<name>[ <STATUS>] (due in <N> minutes)`, where `N` is the
/// number of whole minutes left.
pub open spec fn line_of(name: Seq<char>, due: i64, now: i64) -> Seq<char> {
    name + status_suffix(due, now) + " (due in "@ + decimal(remaining(due, now) / 60) + " minutes)"@
}

pub struct TodoItem {
    pub name: String,
    pub due_time: i64,
}

impl View for TodoItem {
    type V = (Seq<char>, i64);

    open spec fn view(&self) -> (Seq<char>, i64) {
        (self.name@, self.due_time)
    }
}

impl TodoItem {
    pub fn new(name: &str, due_time: i64) -> (r: TodoItem)
        ensures
            r@ == (name@, due_time),
    {
        TodoItem { name: String::from_str(name), due_time }
    }

    /// Seconds left until the item is due at clock reading `now`.
    pub fn time_until_due(&self, now: i64) -> (r: u64)
        ensures
            r == remaining(self.due_time, now),
    {
        if self.due_time > now {
            (self.due_time as i128 - now as i128) as u64
        } else {
            0
        }
    }

    pub fn is_due_soon(&self, now: i64) -> (r: bool)
        ensures
            r == due_soon(self.due_time, now),
    {
        let left = self.time_until_due(now);
        left <= DUE_SOON_SECS && left > 0
    }

    pub fn is_overdue(&self, now: i64) -> (r: bool)
        ensures
            r == overdue(self.due_time, now),
    {
        self.time_until_due(now) == 0
    }

    /// The item's display line at clock reading `now`.
    pub fn display_line(&self, now: i64) -> (r: String)
        ensures
            r@ == line_of(self.name@, self.due_time, now),
    {
        let mut line = self.name.clone();
        if self.is_overdue(now) {
            line.append(" OVERDUE");
        } else if self.is_due_soon(now) {
            line.append(" DUE SOON");
        }
        line.append(" (due in ");
        append_decimal(&mut line, self.time_until_due(now) / 60);
        line.append(" minutes)");
        assert(line@ =~= line_of(self.name@, self.due_time, now));
        line
    }
}

} // verus!
