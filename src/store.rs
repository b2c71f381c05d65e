//! The reminder store: a collection of items keyed by name, with at most one
//! item per name.
//!
//! The store is modelled as the sequence of its entries `(name, due)`. Display
//! order follows that sequence; callers must not rely on it.

use vstd::prelude::*;
use crate::clock::now_timestamp;
use crate::item::{due_soon, line_of, TodoItem};
use crate::text::{same_text, texts};

verus! {

pub type Entries = Seq<(Seq<char>, i64)>;

pub open spec fn has_name(s: Entries, name: Seq<char>) -> bool {
    exists|i: int| 0 <= i < s.len() && (#[trigger] s[i]).0 == name
}

pub open spec fn unique_names(s: Entries) -> bool {
    forall|i: int, j: int|
        0 <= i < s.len() && 0 <= j < s.len() && i != j ==> (#[trigger] s[i]).0 != (#[trigger] s[j]).0
}

/// The entries after adding `name` due at `due`: an existing entry of that name
/// takes the new due time, else the entry is appended.
pub open spec fn added(s: Entries, name: Seq<char>, due: i64) -> Entries {
    if has_name(s, name) {
        s.map_values(|e: (Seq<char>, i64)| if e.0 == name { (name, due) } else { e })
    } else {
        s.push((name, due))
    }
}

pub open spec fn named_other_than(name: Seq<char>) -> spec_fn((Seq<char>, i64)) -> bool {
    |e: (Seq<char>, i64)| e.0 != name
}

/// The entries without the one named `name`.
pub open spec fn removed(s: Entries, name: Seq<char>) -> Entries {
    s.filter(named_other_than(name))
}

/// The entries with the due time of `name` changed to `due`.
pub open spec fn retimed(s: Entries, name: Seq<char>, due: i64) -> Entries {
    s.map_values(|e: (Seq<char>, i64)| if e.0 == name { (e.0, due) } else { e })
}

/// One display line per entry, at clock reading `now`.
pub open spec fn snapshot(s: Entries, now: i64) -> Seq<Seq<char>> {
    s.map_values(|e: (Seq<char>, i64)| line_of(e.0, e.1, now))
}

/// One alert line per entry that is due soon at `now`.
pub open spec fn alerts(s: Entries, now: i64) -> Seq<Seq<char>> {
    s.filter(|e: (Seq<char>, i64)| due_soon(e.1, now)).map_values(
        |e: (Seq<char>, i64)| "Due soon: "@ + line_of(e.0, e.1, now),
    )
}

/// Filtering keeps a sequence whose elements all pass.
proof fn lemma_filter_all_pass(s: Entries, p: spec_fn((Seq<char>, i64)) -> bool)
    requires
        forall|i: int| 0 <= i < s.len() ==> p(#[trigger] s[i]),
    ensures
        s.filter(p) == s,
    decreases s.len(),
{
    reveal(Seq::filter);
    if s.len() > 0 {
        lemma_filter_all_pass(s.drop_last(), p);
        assert(s.drop_last().push(s.last()) =~= s);
    }
}

/// Removing the one entry of a name is filtering it out.
proof fn lemma_remove_is_filter(s: Entries, name: Seq<char>, i: int)
    requires
        unique_names(s),
        0 <= i < s.len(),
        s[i].0 == name,
    ensures
        s.remove(i) == removed(s, name),
        unique_names(s.remove(i)),
{
    let p = named_other_than(name);
    let a = s.take(i);
    let one = seq![s[i]];
    let b = s.skip(i + 1);
    assert(s =~= (a + one) + b);
    assert forall|j: int| 0 <= j < a.len() implies p(#[trigger] a[j]) by {
        assert(a[j] == s[j]);
    }
    assert forall|j: int| 0 <= j < b.len() implies p(#[trigger] b[j]) by {
        assert(b[j] == s[i + 1 + j]);
    }
    lemma_filter_all_pass(a, p);
    lemma_filter_all_pass(b, p);
    assert(one.filter(p) =~= Seq::<(Seq<char>, i64)>::empty()) by {
        reveal(Seq::filter);
        assert(one.drop_last() =~= Seq::<(Seq<char>, i64)>::empty());
        assert(one.drop_last().filter(p) =~= Seq::<(Seq<char>, i64)>::empty());
    }
    Seq::filter_distributes_over_add(a + one, b, p);
    Seq::filter_distributes_over_add(a, one, p);
    assert(s.remove(i) =~= a + b);
    assert(removed(s, name) =~= a + b);
    let r = s.remove(i);
    assert forall|x: int, y: int| 0 <= x < r.len() && 0 <= y < r.len() && x != y implies (
    #[trigger] r[x]).0 != (#[trigger] r[y]).0 by {
        let sx = if x < i { x } else { x + 1 };
        let sy = if y < i { y } else { y + 1 };
        assert(r[x] == s[sx]);
        assert(r[y] == s[sy]);
    }
}

/// What `Result` a store operation that may miss its item yields.
#[derive(PartialEq, Eq, Structural, Debug, Clone, Copy)]
pub enum TodoError {
    /// No item has the given name.
    NotFound,
}

impl TodoError {
    pub fn message(&self) -> (r: &'static str)
        ensures
            r@ == "Item not found."@,
    {
        "Item not found."
    }
}

pub struct TodoList {
    items: Vec<TodoItem>,
}

impl View for TodoList {
    type V = Entries;

    closed spec fn view(&self) -> Entries {
        self.items@.map_values(|it: TodoItem| it@)
    }
}

impl TodoList {
    /// Well-formedness: no two items share a name.
    pub open spec fn wf(&self) -> bool {
        unique_names(self@)
    }

    /// An empty store.
    pub fn new() -> (r: TodoList)
        ensures
            r@ == Seq::<(Seq<char>, i64)>::empty(),
            r.wf(),
    {
        let r = TodoList { items: Vec::new() };
        assert(r@ =~= Seq::<(Seq<char>, i64)>::empty());
        r
    }

    fn find(&self, name: &str) -> (r: Option<usize>)
        ensures
            match r {
                Some(i) => i < self@.len() && self@[i as int].0 == name@,
                None => !has_name(self@, name@),
            },
    {
        let mut i: usize = 0;
        while i < self.items.len()
            invariant
                i <= self.items@.len(),
                self@.len() == self.items@.len(),
                forall|j: int| 0 <= j < i ==> (#[trigger] self@[j]).0 != name@,
            decreases self.items@.len() - i,
        {
            if same_text(self.items[i].name.as_str(), name) {
                return Some(i);
            }
            i = i + 1;
        }
        None
    }

    /// Adds `name` due at `due_time`, replacing the due time of an item of the
    /// same name.
    pub fn add_item(&mut self, name: &str, due_time: i64)
        requires
            old(self).wf(),
        ensures
            final(self)@ == added(old(self)@, name@, due_time),
            final(self).wf(),
    {
        let ghost s = self@;
        match self.find(name) {
            Some(i) => {
                self.items.set(i, TodoItem::new(name, due_time));
                proof {
                    assert forall|j: int| 0 <= j < s.len() && j != i implies s[j].0 != name@ by {
                        assert(s[j].0 != s[i as int].0);
                    }
                    assert(self@ =~= added(s, name@, due_time));
                }
            },
            None => {
                self.items.push(TodoItem::new(name, due_time));
                proof {
                    assert(self@ =~= added(s, name@, due_time));
                }
            },
        }
    }

    /// Removes the item named `name`, if there is one.
    pub fn remove_item(&mut self, name: &str)
        requires
            old(self).wf(),
        ensures
            final(self)@ == removed(old(self)@, name@),
            final(self).wf(),
    {
        let ghost s = self@;
        match self.find(name) {
            Some(i) => {
                self.items.remove(i);
                proof {
                    lemma_remove_is_filter(s, name@, i as int);
                    assert(self@ =~= s.remove(i as int));
                }
            },
            None => {
                proof {
                    lemma_filter_all_pass(s, named_other_than(name@));
                }
            },
        }
    }

    /// Changes the due time of the item named `name`; fails with `NotFound`,
    /// changing nothing, when there is none.
    pub fn set_item_time(&mut self, name: &str, due_time: i64) -> (r: Result<(), TodoError>)
        requires
            old(self).wf(),
        ensures
            r is Ok <==> has_name(old(self)@, name@),
            r == Err::<(), TodoError>(TodoError::NotFound) <==> !has_name(old(self)@, name@),
            final(self)@ == retimed(old(self)@, name@, due_time),
            r is Err ==> final(self)@ == old(self)@,
            final(self).wf(),
    {
        let ghost s = self@;
        match self.find(name) {
            Some(i) => {
                let it = TodoItem::new(name, due_time);
                self.items.set(i, it);
                proof {
                    assert forall|j: int| 0 <= j < s.len() && j != i implies s[j].0 != name@ by {
                        assert(s[j].0 != s[i as int].0);
                    }
                    assert(self@ =~= retimed(s, name@, due_time));
                }
                Ok(())
            },
            None => {
                assert(retimed(s, name@, due_time) =~= s);
                Err(TodoError::NotFound)
            },
        }
    }

    /// The display lines of all items at clock reading `now`, one per item.
    pub fn items_at(&self, now: i64) -> (r: Vec<String>)
        ensures
            texts(r@) == snapshot(self@, now),
    {
        let mut out: Vec<String> = Vec::new();
        let mut k: usize = 0;
        while k < self.items.len()
            invariant
                k <= self.items@.len(),
                self@.len() == self.items@.len(),
                texts(out@) == snapshot(self@.take(k as int), now),
            decreases self.items@.len() - k,
        {
            let line = self.items[k].display_line(now);
            let ghost prev = out@;
            out.push(line);
            proof {
                assert(self@[k as int] == self.items@[k as int]@);
                assert(self@.take(k + 1) =~= self@.take(k as int).push(self@[k as int]));
                assert(texts(out@) =~= texts(prev).push(line@));
                assert(texts(out@) =~= snapshot(self@.take(k + 1), now));
            }
            k = k + 1;
        }
        assert(self@.take(k as int) =~= self@);
        out
    }

    /// The display lines of all items at the current time.
    pub fn get_items(&self) -> (r: Vec<String>)
        ensures
            exists|now: i64| texts(r@) == #[trigger] snapshot(self@, now),
    {
        let now = now_timestamp();
        self.items_at(now)
    }

    /// The alerts for the items due within the hour at the current time.
    pub fn due_alerts(&self) -> (r: Vec<String>)
        ensures
            exists|now: i64| texts(r@) == #[trigger] alerts(self@, now),
    {
        let now = now_timestamp();
        self.due_alerts_at(now)
    }

    /// One `Due soon: <line>` alert per item due within the hour at `now`.
    pub fn due_alerts_at(&self, now: i64) -> (r: Vec<String>)
        ensures
            texts(r@) == alerts(self@, now),
    {
        let mut out: Vec<String> = Vec::new();
        let mut k: usize = 0;
        let ghost p = |e: (Seq<char>, i64)| due_soon(e.1, now);
        while k < self.items.len()
            invariant
                k <= self.items@.len(),
                self@.len() == self.items@.len(),
                p == (|e: (Seq<char>, i64)| due_soon(e.1, now)),
                texts(out@) == alerts(self@.take(k as int), now),
            decreases self.items@.len() - k,
        {
            let ghost before = self@.take(k as int);
            let ghost after = self@.take(k + 1);
            proof {
                reveal(Seq::filter);
                assert(after.drop_last() =~= before);
            }
            let ghost prev = out@;
            let ghost e = self@[k as int];
            assert(e == self.items@[k as int]@);
            assert(after.last() == e);
            if self.items[k].is_due_soon(now) {
                let mut line = String::from_str("Due soon: ");
                line.append(self.items[k].display_line(now).as_str());
                out.push(line);
                proof {
                    assert(after.filter(p) == before.filter(p).push(e));
                    assert(texts(out@) =~= texts(prev).push(line@));
                    assert(texts(out@) =~= alerts(after, now));
                }
            } else {
                assert(after.filter(p) == before.filter(p));
                assert(texts(out@) =~= alerts(after, now));
            }
            k = k + 1;
        }
        assert(self@.take(k as int) =~= self@);
        out
    }
}

} // verus!
