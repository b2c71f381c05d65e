//! Properties of the store operations, stated over the entry model that their
//! contracts use.

use vstd::prelude::*;
use crate::item::{line_of, remaining, status_suffix, DUE_SOON_SECS};
use crate::store::{
    added, has_name, named_other_than, removed, retimed, snapshot, unique_names, Entries,
};

verus! {

/// After adding `name` due at `due`, exactly one entry carries `name`; it is
/// due at `due`, and its snapshot line is the line of `name` due at `due`.
pub proof fn law_add_then_snapshot(s: Entries, name: Seq<char>, due: i64, now: i64)
    requires
        unique_names(s),
    ensures
        unique_names(added(s, name, due)),
        snapshot(added(s, name, due), now).len() == added(s, name, due).len(),
        exists|i: int|
            0 <= i < added(s, name, due).len() && #[trigger] added(s, name, due)[i] == (name, due)
                && snapshot(added(s, name, due), now)[i] == line_of(name, due, now) && forall|
                j: int,
            |
                0 <= j < added(s, name, due).len() && j != i ==> (#[trigger] added(
                    s,
                    name,
                    due,
                )[j]).0 != name,
{
    let t = added(s, name, due);
    if has_name(s, name) {
        let i = choose|i: int| 0 <= i < s.len() && (#[trigger] s[i]).0 == name;
        assert forall|j: int| 0 <= j < t.len() && j != i implies (#[trigger] t[j]).0 != name by {
            assert(s[j].0 != s[i].0);
        }
        assert(t[i] == (name, due));
        assert forall|x: int, y: int| 0 <= x < t.len() && 0 <= y < t.len() && x != y implies (
        #[trigger] t[x]).0 != (#[trigger] t[y]).0 by {
            assert(s[x].0 != s[y].0);
        }
    } else {
        let i = s.len() as int;
        assert(t[i] == (name, due));
        assert forall|j: int| 0 <= j < t.len() && j != i implies (#[trigger] t[j]).0 != name by {
            assert(t[j] == s[j]);
        }
        assert forall|x: int, y: int| 0 <= x < t.len() && 0 <= y < t.len() && x != y implies (
        #[trigger] t[x]).0 != (#[trigger] t[y]).0 by {
            if x < s.len() && y < s.len() {
                assert(s[x].0 != s[y].0);
            }
        }
    }
}

/// After removing `name`, no entry carries `name`, whether or not one did
/// before.
pub proof fn law_remove_then_absent(s: Entries, name: Seq<char>)
    ensures
        !has_name(removed(s, name), name),
{
    let t = removed(s, name);
    assert forall|i: int| 0 <= i < t.len() implies (#[trigger] t[i]).0 != name by {
        s.lemma_filter_pred(named_other_than(name), i);
    }
}

/// Changing the due time of a name that is absent leaves the entries, and so
/// every snapshot, unchanged.
pub proof fn law_settime_absent(s: Entries, name: Seq<char>, due: i64, now: i64)
    requires
        !has_name(s, name),
    ensures
        retimed(s, name, due) == s,
        snapshot(retimed(s, name, due), now) == snapshot(s, now),
{
    assert(retimed(s, name, due) =~= s);
}

/// Changing the due time of a present name gives its one entry the new due
/// time, so its snapshot line is computed from that time, and leaves every
/// other entry as it was.
pub proof fn law_settime_present(s: Entries, name: Seq<char>, due: i64, now: i64)
    requires
        unique_names(s),
        has_name(s, name),
    ensures
        retimed(s, name, due).len() == s.len(),
        exists|i: int|
            0 <= i < s.len() && #[trigger] retimed(s, name, due)[i] == (name, due) && snapshot(
                retimed(s, name, due),
                now,
            )[i] == line_of(name, due, now) && forall|j: int|
                0 <= j < s.len() && j != i ==> #[trigger] retimed(s, name, due)[j] == s[j]
                    && s[j].0 != name,
{
    let t = retimed(s, name, due);
    let i = choose|i: int| 0 <= i < s.len() && (#[trigger] s[i]).0 == name;
    assert(t[i] == (name, due));
    assert forall|j: int| 0 <= j < s.len() && j != i implies #[trigger] t[j] == s[j] && s[j].0
        != name by {
        assert(s[j].0 != s[i].0);
    }
}

/// Status tags: zero seconds left is `OVERDUE`; more than zero and at most an
/// hour is `DUE SOON`; more than an hour carries no tag.
pub proof fn law_status_tags(due: i64, now: i64)
    ensures
        remaining(due, now) == 0 ==> status_suffix(due, now) == " OVERDUE"@,
        0 < remaining(due, now) <= DUE_SOON_SECS ==> status_suffix(due, now) == " DUE SOON"@,
        remaining(due, now) > DUE_SOON_SECS ==> status_suffix(due, now) == Seq::<char>::empty(),
{
}

} // verus!
