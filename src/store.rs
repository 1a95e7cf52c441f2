//! An in-memory store of items, scoped by owner, that keeps the contract of
//! the service's storage adapter: every change is one step that matches on
//! identifier and owner together.

use crate::object_id::{TodoId, ID_LEN};
use crate::todo::{ApiError, MatchResult, Todo, TodoView};
use vstd::prelude::*;

verus! {

/// The views of a sequence of items.
pub open spec fn views(v: Seq<Todo>) -> Seq<TodoView> {
    v.map_values(|t: Todo| t@)
}

/// The identifier that the store gives its `n`th item: four zero bytes, then
/// `n` in eight bytes, most significant first.
pub open spec fn counter_id(n: u64) -> Seq<u8> {
    seq![
        0u8,
        0u8,
        0u8,
        0u8,
        (n >> 56u64) as u8,
        (n >> 48u64) as u8,
        (n >> 40u64) as u8,
        (n >> 32u64) as u8,
        (n >> 24u64) as u8,
        (n >> 16u64) as u8,
        (n >> 8u64) as u8,
        n as u8,
    ]
}

/// The item has the identifier and belongs to the user.
pub open spec fn owns(t: TodoView, id: Seq<u8>, user_id: Seq<char>) -> bool {
    t.id == id && t.user_id == user_id
}

/// Some item of the user has the identifier.
pub open spec fn has_match(s: Seq<TodoView>, id: Seq<u8>, user_id: Seq<char>) -> bool {
    exists|i: int| 0 <= i < s.len() && owns(#[trigger] s[i], id, user_id)
}

/// No two items share an identifier.
pub open spec fn ids_unique(s: Seq<TodoView>) -> bool {
    forall|i: int, j: int| 0 <= i < s.len() && 0 <= j < s.len() && i != j ==> s[i].id != s[j].id
}

/// The items of one user, in store order.
pub open spec fn owned_by(s: Seq<TodoView>, user_id: Seq<char>) -> Seq<TodoView>
    decreases s.len(),
{
    if s.len() == 0 {
        Seq::empty()
    } else {
        let rest = owned_by(s.drop_last(), user_id);
        if s.last().user_id == user_id {
            rest.push(s.last())
        } else {
            rest
        }
    }
}

/// A newly created item with the given completion flag.
pub open spec fn new_item(id: Seq<u8>, user_id: Seq<char>, title: Seq<char>, done: bool) -> TodoView {
    TodoView { id, user_id, title, done }
}

/// A newly created item that is not done yet.
pub open spec fn created_item(id: Seq<u8>, user_id: Seq<char>, title: Seq<char>) -> TodoView {
    new_item(id, user_id, title, false)
}

/// The item with its completion flag set to `done`.
pub open spec fn with_done(t: TodoView, done: bool) -> TodoView {
    TodoView { done, ..t }
}

proof fn lemma_counter_id_injective(a: u64, b: u64)
    requires
        counter_id(a) == counter_id(b),
    ensures
        a == b,
{
    assert(counter_id(a)[4] == counter_id(b)[4]);
    assert(counter_id(a)[5] == counter_id(b)[5]);
    assert(counter_id(a)[6] == counter_id(b)[6]);
    assert(counter_id(a)[7] == counter_id(b)[7]);
    assert(counter_id(a)[8] == counter_id(b)[8]);
    assert(counter_id(a)[9] == counter_id(b)[9]);
    assert(counter_id(a)[10] == counter_id(b)[10]);
    assert(counter_id(a)[11] == counter_id(b)[11]);
    assert(a == b) by (bit_vector)
        requires
            (a >> 56u64) as u8 == (b >> 56u64) as u8,
            (a >> 48u64) as u8 == (b >> 48u64) as u8,
            (a >> 40u64) as u8 == (b >> 40u64) as u8,
            (a >> 32u64) as u8 == (b >> 32u64) as u8,
            (a >> 24u64) as u8 == (b >> 24u64) as u8,
            (a >> 16u64) as u8 == (b >> 16u64) as u8,
            (a >> 8u64) as u8 == (b >> 8u64) as u8,
            a as u8 == b as u8,
    ;
}

fn id_for_counter(n: u64) -> (r: TodoId)
    ensures
        r@ == counter_id(n),
{
    let r = TodoId {
        bytes: [
            0,
            0,
            0,
            0,
            (n >> 56u64) as u8,
            (n >> 48u64) as u8,
            (n >> 40u64) as u8,
            (n >> 32u64) as u8,
            (n >> 24u64) as u8,
            (n >> 16u64) as u8,
            (n >> 8u64) as u8,
            n as u8,
        ],
    };
    assert(r@ =~= counter_id(n));
    r
}

/// Items held in memory, each under the identifier the store gave it.
pub struct TodoStore {
    items: Vec<Todo>,
    next: u64,
}

impl View for TodoStore {
    type V = Seq<TodoView>;

    closed spec fn view(&self) -> Seq<TodoView> {
        views(self.items@)
    }
}

impl TodoStore {
    /// How many identifiers the store has handed out.
    pub closed spec fn issued(&self) -> u64 {
        self.next
    }

    /// Identifiers are unique and each was handed out by the store.
    pub closed spec fn wf(&self) -> bool {
        &&& ids_unique(self@)
        &&& forall|i: int|
            0 <= i < self@.len() ==> exists|k: u64|
                k < self.next && #[trigger] self@[i].id == counter_id(k)
    }

    /// A well-formed store holds no two items with one identifier.
    pub proof fn lemma_ids_unique(&self)
        requires
            self.wf(),
        ensures
            ids_unique(self@),
    {
    }

    /// An empty store.
    pub fn new() -> (r: TodoStore)
        ensures
            r.wf(),
            r@ == Seq::<TodoView>::empty(),
    {
        let r = TodoStore { items: Vec::new(), next: 0 };
        assert(r@ =~= Seq::<TodoView>::empty());
        r
    }

    /// The items of `user_id`, in the order they were created.
    pub fn list(&self, user_id: &String) -> (r: Vec<Todo>)
        requires
            self.wf(),
        ensures
            views(r@) == owned_by(self@, user_id@),
    {
        let mut r: Vec<Todo> = Vec::new();
        let mut i: usize = 0;
        while i < self.items.len()
            invariant
                i <= self.items@.len(),
                self@ == views(self.items@),
                views(r@) == owned_by(self@.subrange(0, i as int), user_id@),
            decreases self.items@.len() - i,
        {
            let ghost before = r@;
            let t = &self.items[i];
            if t.user_id == *user_id {
                r.push(t.copied());
                assert(views(r@) =~= views(before).push(t@));
            }
            assert(self@.subrange(0, i + 1).drop_last() =~= self@.subrange(0, i as int));
            i = i + 1;
        }
        assert(self@.subrange(0, i as int) =~= self@);
        r
    }

    /// Stores a new item of `user_id` with the given title and completion
    /// flag under a fresh identifier, and returns it. Fails, changing
    /// nothing, only once every identifier has been handed out.
    pub fn create(&mut self, user_id: &String, title: &String, done: bool) -> (r: Result<Todo, ApiError>)
        requires
            old(self).wf(),
        ensures
            final(self).wf(),
            r.is_ok() <==> old(self).issued() < u64::MAX,
            r matches Ok(t) ==> {
                &&& t@ == new_item(counter_id(old(self).issued()), user_id@, title@, done)
                &&& forall|i: int| 0 <= i < old(self)@.len() ==> old(self)@[i].id != t@.id
                &&& final(self)@ == old(self)@.push(t@)
            },
            r matches Err(e) ==> e == ApiError::StorageUnavailable && final(self)@ == old(self)@,
    {
        if self.next == u64::MAX {
            return Err(ApiError::StorageUnavailable);
        }
        let id = id_for_counter(self.next);
        let t = Todo { id, user_id: user_id.clone(), title: title.clone(), done };
        let out = t.copied();
        let ghost s0 = self@;
        let ghost n0 = self.next;
        assert forall|i: int| 0 <= i < s0.len() implies s0[i].id != t@.id by {
            let k = choose|k: u64| k < n0 && #[trigger] s0[i].id == counter_id(k);
            if s0[i].id == t@.id {
                lemma_counter_id_injective(k, n0);
            }
        }
        self.items.push(t);
        self.next = self.next + 1;
        assert(self@ =~= s0.push(out@));
        assert forall|i: int| 0 <= i < self@.len() implies exists|k: u64|
            k < self.next && #[trigger] self@[i].id == counter_id(k) by {
            if i < s0.len() {
                let k = choose|k: u64| k < n0 && #[trigger] s0[i].id == counter_id(k);
                assert(self@[i].id == counter_id(k));
            } else {
                assert(self@[i].id == counter_id(n0));
            }
        }
        Ok(out)
    }

    /// The position of the item of `user_id` with identifier `id`, if any.
    fn position(&self, user_id: &String, id: &TodoId) -> (r: Option<usize>)
        requires
            self.wf(),
        ensures
            r is None <==> !has_match(self@, id@, user_id@),
            r matches Some(i) ==> i < self@.len() && owns(self@[i as int], id@, user_id@),
    {
        let mut i: usize = 0;
        while i < self.items.len()
            invariant
                i <= self.items@.len(),
                self@ == views(self.items@),
                forall|j: int| 0 <= j < i ==> !owns(#[trigger] self@[j], id@, user_id@),
            decreases self.items@.len() - i,
        {
            let t = &self.items[i];
            if t.id.same_as(id) && t.user_id == *user_id {
                assert(owns(self@[i as int], id@, user_id@));
                return Some(i);
            }
            i = i + 1;
        }
        None
    }

    /// The item of `user_id` with identifier `id`, if the user has one.
    pub fn get(&self, user_id: &String, id: &TodoId) -> (r: Option<Todo>)
        requires
            self.wf(),
        ensures
            r is None <==> !has_match(self@, id@, user_id@),
            r matches Some(t) ==> exists|i: int|
                0 <= i < self@.len() && owns(#[trigger] self@[i], id@, user_id@) && t@ == self@[i],
    {
        match self.position(user_id, id) {
            None => None,
            Some(i) => Some(self.items[i].copied()),
        }
    }

    /// Sets the completion flag of the item of `user_id` with identifier
    /// `id`. `NotFound`, changing nothing, where the user has no such item.
    pub fn update_done(&mut self, user_id: &String, id: &TodoId, done: bool) -> (r: MatchResult)
        requires
            old(self).wf(),
        ensures
            final(self).wf(),
            final(self).issued() == old(self).issued(),
            (r == MatchResult::Updated) <==> has_match(old(self)@, id@, user_id@),
            r == MatchResult::Updated ==> exists|i: int|
                0 <= i < old(self)@.len() && owns(#[trigger] old(self)@[i], id@, user_id@)
                    && final(self)@ == old(self)@.update(i, with_done(old(self)@[i], done)),
            r == MatchResult::NotFound ==> final(self)@ == old(self)@,
    {
        match self.position(user_id, id) {
            None => MatchResult::NotFound,
            Some(i) => {
                let ghost s0 = self@;
                let mut t = self.items[i].copied();
                t.done = done;
                self.items.set(i, t);
                assert(self@ =~= s0.update(i as int, with_done(s0[i as int], done)));
                assert forall|j: int| 0 <= j < self@.len() implies exists|k: u64|
                    k < self.next && #[trigger] self@[j].id == counter_id(k) by {
                    assert(self@[j].id == s0[j].id);
                }
                MatchResult::Updated
            },
        }
    }

    /// Removes the item of `user_id` with identifier `id`. `NotFound`,
    /// changing nothing, where the user has no such item.
    pub fn delete(&mut self, user_id: &String, id: &TodoId) -> (r: MatchResult)
        requires
            old(self).wf(),
        ensures
            final(self).wf(),
            final(self).issued() == old(self).issued(),
            (r == MatchResult::Updated) <==> has_match(old(self)@, id@, user_id@),
            r == MatchResult::Updated ==> exists|i: int|
                0 <= i < old(self)@.len() && owns(#[trigger] old(self)@[i], id@, user_id@)
                    && final(self)@ == old(self)@.remove(i),
            r == MatchResult::NotFound ==> final(self)@ == old(self)@,
    {
        match self.position(user_id, id) {
            None => MatchResult::NotFound,
            Some(i) => {
                let ghost s0 = self@;
                self.items.remove(i);
                assert(self@ =~= s0.remove(i as int));
                assert forall|j: int| 0 <= j < self@.len() implies exists|k: u64|
                    k < self.next && #[trigger] self@[j].id == counter_id(k) by {
                    if j < i {
                        assert(self@[j].id == s0[j].id);
                    } else {
                        assert(self@[j].id == s0[j + 1].id);
                    }
                }
                MatchResult::Updated
            },
        }
    }
}

} // verus!
