//! What holds across several operations of the store.

use crate::object_id::{hex_text, ID_LEN};
use crate::store::{created_item, has_match, ids_unique, owned_by, owns, with_done};
use crate::todo::TodoView;
use vstd::prelude::*;

verus! {

/// How many of the items have the identifier.
pub open spec fn count_with_id(s: Seq<TodoView>, id: Seq<u8>) -> nat
    decreases s.len(),
{
    if s.len() == 0 {
        0
    } else {
        count_with_id(s.drop_last(), id) + if s.last().id == id {
            1nat
        } else {
            0nat
        }
    }
}

/// How many of the items have the title.
pub open spec fn count_with_title(s: Seq<TodoView>, title: Seq<char>) -> nat
    decreases s.len(),
{
    if s.len() == 0 {
        0
    } else {
        count_with_title(s.drop_last(), title) + if s.last().title == title {
            1nat
        } else {
            0nat
        }
    }
}

/// Every item of a user's list is an item of the store and belongs to the
/// user; every item of the user in the store is in the list.
pub proof fn lemma_owned_by_members(s: Seq<TodoView>, user_id: Seq<char>)
    ensures
        forall|j: int|
            0 <= j < owned_by(s, user_id).len() ==> (#[trigger] owned_by(s, user_id)[j]).user_id
                == user_id && exists|i: int| 0 <= i < s.len() && s[i] == owned_by(s, user_id)[j],
        forall|i: int|
            0 <= i < s.len() && (#[trigger] s[i]).user_id == user_id ==> exists|j: int|
                0 <= j < owned_by(s, user_id).len() && owned_by(s, user_id)[j] == s[i],
    decreases s.len(),
{
    if s.len() > 0 {
        let p = s.drop_last();
        lemma_owned_by_members(p, user_id);
        let o = owned_by(s, user_id);
        let op = owned_by(p, user_id);
        assert forall|j: int| 0 <= j < o.len() implies (#[trigger] o[j]).user_id == user_id
            && exists|i: int| 0 <= i < s.len() && s[i] == o[j] by {
            if j < op.len() {
                assert(o[j] == op[j]);
                let i = choose|i: int| 0 <= i < p.len() && p[i] == op[j];
                assert(s[i] == o[j]);
            } else {
                assert(o[j] == s[s.len() - 1]);
            }
        }
        assert forall|i: int| 0 <= i < s.len() && (#[trigger] s[i]).user_id == user_id implies exists|
            j: int,
        | 0 <= j < o.len() && o[j] == s[i] by {
            if i < p.len() {
                assert(p[i] == s[i]);
                let j = choose|j: int| 0 <= j < op.len() && op[j] == p[i];
                assert(o[j] == op[j]);
            } else {
                assert(o[op.len() as int] == s[i]);
            }
        }
    }
}

proof fn lemma_count_id_absent(s: Seq<TodoView>, id: Seq<u8>)
    requires
        forall|j: int| 0 <= j < s.len() ==> (#[trigger] s[j]).id != id,
    ensures
        count_with_id(s, id) == 0,
    decreases s.len(),
{
    if s.len() > 0 {
        assert(s[s.len() - 1].id != id);
        lemma_count_id_absent(s.drop_last(), id);
    }
}

proof fn lemma_count_title_absent(s: Seq<TodoView>, title: Seq<char>)
    requires
        forall|j: int| 0 <= j < s.len() ==> (#[trigger] s[j]).title != title,
    ensures
        count_with_title(s, title) == 0,
    decreases s.len(),
{
    if s.len() > 0 {
        assert(s[s.len() - 1].title != title);
        lemma_count_title_absent(s.drop_last(), title);
    }
}

/// After an item is created under an identifier that no stored item has,
/// the creator's list ends with that item, holds exactly one item with that
/// identifier, and the identifier is written as non-empty text.
pub proof fn lemma_create_then_list(
    s: Seq<TodoView>,
    id: Seq<u8>,
    user_id: Seq<char>,
    title: Seq<char>,
)
    requires
        id.len() == ID_LEN,
        forall|i: int| 0 <= i < s.len() ==> s[i].id != id,
    ensures
        ({
            let l = owned_by(s.push(created_item(id, user_id, title)), user_id);
            &&& l.len() > 0
            &&& l.last() == created_item(id, user_id, title)
            &&& count_with_id(l, id) == 1
            &&& hex_text(id).len() > 0
        }),
{
    let t = created_item(id, user_id, title);
    let s2 = s.push(t);
    assert(s2.drop_last() =~= s);
    let o = owned_by(s, user_id);
    lemma_owned_by_members(s, user_id);
    assert forall|j: int| 0 <= j < o.len() implies (#[trigger] o[j]).id != id by {
        let i = choose|i: int| 0 <= i < s.len() && s[i] == o[j];
    }
    lemma_count_id_absent(o, id);
    assert(owned_by(s2, user_id).drop_last() =~= o);
}

/// After an item is created with a title that none of the creator's items
/// had, the creator's list holds exactly one item with that title.
pub proof fn lemma_create_then_list_title(
    s: Seq<TodoView>,
    id: Seq<u8>,
    user_id: Seq<char>,
    title: Seq<char>,
)
    requires
        forall|j: int|
            0 <= j < owned_by(s, user_id).len() ==> (#[trigger] owned_by(s, user_id)[j]).title
                != title,
    ensures
        count_with_title(owned_by(s.push(created_item(id, user_id, title)), user_id), title) == 1,
{
    let s2 = s.push(created_item(id, user_id, title));
    assert(s2.drop_last() =~= s);
    lemma_count_title_absent(owned_by(s, user_id), title);
    assert(owned_by(s2, user_id).drop_last() =~= owned_by(s, user_id));
}

/// After the completion flag of a user's item is set, the user's item with
/// that identifier is still there, and it carries the new flag.
pub proof fn lemma_update_then_read(
    s: Seq<TodoView>,
    i: int,
    id: Seq<u8>,
    user_id: Seq<char>,
    done: bool,
)
    requires
        ids_unique(s),
        0 <= i < s.len(),
        owns(s[i], id, user_id),
    ensures
        ({
            let s2 = s.update(i, with_done(s[i], done));
            &&& ids_unique(s2)
            &&& has_match(s2, id, user_id)
            &&& forall|j: int| 0 <= j < s2.len() && owns(#[trigger] s2[j], id, user_id) ==> s2[j].done == done
        }),
{
    let s2 = s.update(i, with_done(s[i], done));
    assert(owns(s2[i], id, user_id));
}

/// After a user's item is removed, no item of the store has its identifier:
/// the user's list no longer shows it and removing it again finds nothing.
pub proof fn lemma_delete_then_list(s: Seq<TodoView>, i: int, id: Seq<u8>, user_id: Seq<char>)
    requires
        ids_unique(s),
        0 <= i < s.len(),
        owns(s[i], id, user_id),
    ensures
        ({
            let s2 = s.remove(i);
            &&& ids_unique(s2)
            &&& !has_match(s2, id, user_id)
            &&& forall|j: int|
                0 <= j < owned_by(s2, user_id).len() ==> (#[trigger] owned_by(s2, user_id)[j]).id
                    != id
        }),
{
    let s2 = s.remove(i);
    assert forall|j: int| 0 <= j < s2.len() implies (#[trigger] s2[j]).id != id by {
        if j < i {
            assert(s2[j] == s[j]);
        } else {
            assert(s2[j] == s[j + 1]);
        }
    }
    lemma_owned_by_members(s2, user_id);
    assert forall|j: int| 0 <= j < owned_by(s2, user_id).len() implies (#[trigger] owned_by(
        s2,
        user_id,
    )[j]).id != id by {
        let k = choose|k: int| 0 <= k < s2.len() && s2[k] == owned_by(s2, user_id)[j];
    }
}

/// An item of one user never shows in another user's list, and no other
/// user can find it by its identifier to change or remove it.
pub proof fn lemma_tenant_isolation(
    s: Seq<TodoView>,
    i: int,
    owner: Seq<char>,
    other: Seq<char>,
)
    requires
        ids_unique(s),
        0 <= i < s.len(),
        s[i].user_id == owner,
        owner != other,
    ensures
        !has_match(s, s[i].id, other),
        forall|j: int|
            0 <= j < owned_by(s, other).len() ==> (#[trigger] owned_by(s, other)[j]).id != s[i].id,
{
    lemma_owned_by_members(s, other);
    assert forall|j: int| 0 <= j < owned_by(s, other).len() implies (#[trigger] owned_by(
        s,
        other,
    )[j]).id != s[i].id by {
        let k = choose|k: int| 0 <= k < s.len() && s[k] == owned_by(s, other)[j];
    }
}

} // verus!
