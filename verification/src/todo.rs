//! A small task list maintained alongside the restore tool.
//!
//! Items carry a numeric identifier, a title and a completion flag.  New
//! items are numbered from the current length of the list, so identifiers
//! are unique only until items are removed; removal and completion therefore
//! take the identifier as the key, and completion marks the first match.
//! Reading and writing the list's file form lives in the front end; the
//! operations here are pure list logic.

use vstd::prelude::*;

verus! {

/// One task: identifier, title, completion flag.
#[derive(Debug)]
pub struct TodoItem {
    /// Identifier the operator refers to the task by.
    pub id: u64,
    /// The task's text.
    pub title: String,
    /// Whether the task is done.
    pub completed: bool,
}

/// The task list.
#[derive(Debug)]
pub struct TodoList {
    /// The tasks, in insertion order.
    pub items: Vec<TodoItem>,
}

/// The items that survive removing identifier `id`.
pub open spec fn spec_keeps(id: u64) -> spec_fn(TodoItem) -> bool {
    |it: TodoItem| it.id != id
}

/// `j` indexes the first item of `s` carrying identifier `id`.
pub open spec fn spec_first_match(s: Seq<TodoItem>, id: u64, j: int) -> bool {
    0 <= j < s.len() && s[j].id == id && forall|k: int| 0 <= k < j ==> s[k].id != id
}

impl TodoList {
    /// An empty list.
    pub fn new() -> (r: Self)
        ensures
            r.items@ == Seq::<TodoItem>::empty(),
    {
        let r = TodoList { items: Vec::new() };
        proof {
            assert(r.items@ =~= Seq::<TodoItem>::empty());
        }
        r
    }

    /// Append a fresh, uncompleted item titled `title`, numbered one past
    /// the current length.
    pub fn add_item(&mut self, title: String)
        requires
            old(self).items@.len() < u64::MAX,
        ensures
            final(self).items@ == old(self).items@.push(
                TodoItem {
                    id: (old(self).items@.len() + 1) as u64,
                    title,
                    completed: false,
                },
            ),
    {
        let id = self.items.len() as u64 + 1;
        self.items.push(TodoItem { id, title, completed: false });
    }

    /// Remove every item carrying identifier `id`, keeping the order of the
    /// rest.
    pub fn remove_item(&mut self, id: u64)
        ensures
            final(self).items@ == old(self).items@.filter(spec_keeps(id)),
    {
        let n = self.items.len();
        let mut kept: Vec<TodoItem> = Vec::new();
        let mut i: usize = 0;
        proof {
            reveal(Seq::filter);
            assert(old(self).items@.subrange(0, 0) =~= Seq::<TodoItem>::empty());
            assert(kept@ =~= old(self).items@.subrange(0, 0).filter(spec_keeps(id)));
        }
        while i < n
            invariant
                self.items@ == old(self).items@,
                n == self.items@.len(),
                i <= n,
                kept@ == old(self).items@.subrange(0, i as int).filter(spec_keeps(id)),
            decreases n - i,
        {
            let it = &self.items[i];
            let ghost pre = old(self).items@.subrange(0, i as int);
            let ghost ext = old(self).items@.subrange(0, i + 1);
            if it.id != id {
                kept.push(TodoItem { id: it.id, title: it.title.clone(), completed: it.completed });
                proof {
                    assert(kept@.last() == old(self).items@[i as int]);
                }
            }
            proof {
                reveal(Seq::filter);
                assert(ext.drop_last() =~= pre);
                assert(ext.last() == old(self).items@[i as int]);
                assert(kept@ == ext.filter(spec_keeps(id)));
            }
            i += 1;
        }
        proof {
            assert(old(self).items@.subrange(0, n as int) =~= old(self).items@);
        }
        self.items = kept;
    }

    /// Mark the first item carrying identifier `id` as completed; without a
    /// match the list is unchanged.
    pub fn mark_completed(&mut self, id: u64)
        ensures
            final(self).items@.len() == old(self).items@.len(),
            forall|j: int|
                0 <= j < old(self).items@.len() && !spec_first_match(old(self).items@, id, j)
                    ==> final(self).items@[j] == old(self).items@[j],
            forall|j: int|
                spec_first_match(old(self).items@, id, j) ==> final(self).items@[j] == (TodoItem {
                    completed: true,
                    ..old(self).items@[j]
                }),
    {
        let n = self.items.len();
        let mut out: Vec<TodoItem> = Vec::new();
        let mut found = false;
        let mut i: usize = 0;
        while i < n
            invariant
                self.items@ == old(self).items@,
                n == self.items@.len(),
                i <= n,
                out@.len() == i as int,
                found == exists|k: int| 0 <= k < i && old(self).items@[k].id == id,
                forall|j: int|
                    0 <= j < i && !spec_first_match(old(self).items@, id, j) ==> out@[j] == old(
                        self,
                    ).items@[j],
                forall|j: int|
                    spec_first_match(old(self).items@, id, j) && j < i ==> out@[j] == (TodoItem {
                        completed: true,
                        ..old(self).items@[j]
                    }),
            decreases n - i,
        {
            let it = &self.items[i];
            let mark = !found && it.id == id;
            if mark {
                found = true;
                proof {
                    assert(old(self).items@[i as int].id == id);
                }
            }
            out.push(TodoItem { id: it.id, title: it.title.clone(), completed: it.completed || mark });
            proof {
                if mark {
                    assert(spec_first_match(old(self).items@, id, i as int));
                }
            }
            i += 1;
        }
        self.items = out;
    }
}

} // verus!
