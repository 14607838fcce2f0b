use vstd::prelude::*;

use crate::error::ApiError;
use crate::error::ErrorKind;
use crate::model::Todo;
use crate::model::TodoView;

verus! {

/// The images of a sequence of stored records.
pub open spec fn views_of(s: Seq<Todo>) -> Seq<TodoView> {
    s.map_values(|t: Todo| t@)
}

/// Whether no two records of `s` share an identifier.
pub open spec fn unique_ids(s: Seq<TodoView>) -> bool {
    forall|i: int, j: int| 0 <= i < j < s.len() ==> s[i].id != s[j].id
}

/// The position of the first record of `s` whose identifier is `id`, or -1
/// when no record has it.
pub open spec fn index_of_id(s: Seq<TodoView>, id: u128) -> int
    decreases s.len(),
{
    if s.len() == 0 {
        -1
    } else if s[0].id == id {
        0
    } else {
        let rest = index_of_id(s.drop_first(), id);
        if rest == -1 {
            -1
        } else {
            rest + 1
        }
    }
}

/// Whether some record of `s` has identifier `id`.
pub open spec fn has_id(s: Seq<TodoView>, id: u128) -> bool {
    index_of_id(s, id) >= 0
}

/// The record of `s` with identifier `id`, if any.
pub open spec fn lookup(s: Seq<TodoView>, id: u128) -> Option<TodoView> {
    if has_id(s, id) {
        Some(s[index_of_id(s, id)])
    } else {
        None
    }
}

/// The image of a record after a partial update: a supplied field overwrites
/// the stored value, an absent one leaves it unchanged; the identifier and
/// the creation time are never touched.
pub open spec fn apply_update(
    cur: TodoView,
    title: Option<String>,
    completed: Option<bool>,
) -> TodoView {
    TodoView {
        id: cur.id,
        title: match title {
            Some(t) => t@,
            None => cur.title,
        },
        completed: match completed {
            Some(c) => c,
            None => cur.completed,
        },
        created_at: cur.created_at,
    }
}

/// `index_of_id` lands in bounds, hits a record with the sought identifier,
/// is the first such hit, and misses only when every record does.
pub proof fn lemma_index_of_id(s: Seq<TodoView>, id: u128)
    ensures
        -1 <= index_of_id(s, id) < s.len(),
        index_of_id(s, id) >= 0 ==> s[index_of_id(s, id)].id == id,
        index_of_id(s, id) >= 0 ==> forall|j: int| 0 <= j < index_of_id(s, id) ==> s[j].id != id,
        index_of_id(s, id) == -1 ==> forall|j: int| 0 <= j < s.len() ==> s[j].id != id,
    decreases s.len(),
{
    if s.len() != 0 && s[0].id != id {
        let rest = s.drop_first();
        lemma_index_of_id(rest, id);
        assert forall|j: int| 1 <= j < s.len() implies s[j] == rest[j - 1] by {}
        if index_of_id(s, id) >= 0 {
            assert forall|j: int| 0 <= j < index_of_id(s, id) implies s[j].id != id by {
                if j >= 1 {
                    assert(s[j] == rest[j - 1]);
                }
            }
        }
    }
}

/// The position of the first hit determines `index_of_id`.
pub proof fn lemma_index_of_id_first_hit(s: Seq<TodoView>, id: u128, k: int)
    requires
        0 <= k < s.len(),
        s[k].id == id,
        forall|j: int| 0 <= j < k ==> s[j].id != id,
    ensures
        index_of_id(s, id) == k,
    decreases k,
{
    if k > 0 {
        let rest = s.drop_first();
        assert forall|j: int| 0 <= j < k - 1 implies rest[j].id != id by {
            assert(rest[j] == s[j + 1]);
        }
        assert(rest[k - 1] == s[k]);
        lemma_index_of_id_first_hit(rest, id, k - 1);
    }
}

/// The verified in-memory store implementing the persistence operations: the
/// substitutable backing that every handler borrows in place of a private
/// connection.
pub struct TodoStore {
    todos: Vec<Todo>,
    next_id: u128,
    issued: Ghost<Set<u128>>,
}

impl View for TodoStore {
    type V = Seq<TodoView>;

    closed spec fn view(&self) -> Seq<TodoView> {
        views_of(self.todos@)
    }
}

impl TodoStore {
    /// Every identifier this store has ever assigned to a created record,
    /// the deleted ones included: none is ever reused.
    pub closed spec fn issued_ids(&self) -> Set<u128> {
        self.issued@
    }

    /// Whether the identifier space is exhausted, so that no further record
    /// can be created.
    pub closed spec fn at_capacity(&self) -> bool {
        self.next_id == u128::MAX
    }

    /// Well-formedness: stored identifiers are unique, every stored record's
    /// identifier was issued by this store, and every issued identifier is
    /// below the next fresh one.
    pub closed spec fn inv(&self) -> bool {
        &&& unique_ids(self@)
        &&& forall|i: int| 0 <= i < self@.len() ==> self.issued@.contains(self@[i].id)
        &&& forall|id: u128| self.issued@.contains(id) ==> id < self.next_id
    }

    /// An empty store that has issued no identifiers yet.
    pub fn new() -> (r: TodoStore)
        ensures
            r.inv(),
            r@ == Seq::<TodoView>::empty(),
            r.issued_ids() == Set::<u128>::empty(),
            !r.at_capacity(),
    {
        let r = TodoStore { todos: Vec::new(), next_id: 0, issued: Ghost(Set::empty()) };
        proof {
            assert(r@ =~= Seq::<TodoView>::empty());
            assert(r.issued_ids() =~= Set::<u128>::empty());
        }
        r
    }

    /// The position of the record with the given identifier, if any.
    fn position_of(&self, id: u128) -> (r: Option<usize>)
        ensures
            match r {
                Some(i) => i < self@.len() && index_of_id(self@, id) == i as int,
                None => index_of_id(self@, id) == -1,
            },
    {
        let n: usize = self.todos.len();
        let mut i: usize = 0;
        while i < n
            invariant
                n == self.todos.len(),
                i <= n,
                self@.len() == n,
                forall|j: int| 0 <= j < i ==> self@[j].id != id,
            decreases n - i,
        {
            if self.todos[i].id == id {
                proof {
                    assert(self@[i as int] == self.todos@[i as int]@);
                    lemma_index_of_id_first_hit(self@, id, i as int);
                }
                return Some(i);
            }
            proof {
                assert(self@[i as int] == self.todos@[i as int]@);
            }
            i = i + 1;
        }
        proof {
            lemma_index_of_id(self@, id);
        }
        None
    }

    /// ListAll: the full collection in storage order; an empty collection is
    /// a valid, non-error result.
    pub fn list_all(&self) -> (r: Vec<Todo>)
        ensures
            views_of(r@) == self@,
    {
        let n: usize = self.todos.len();
        let mut out: Vec<Todo> = Vec::new();
        let mut i: usize = 0;
        while i < n
            invariant
                n == self.todos.len(),
                i <= n,
                out@.len() == i,
                forall|j: int| 0 <= j < i ==> out@[j]@ == self.todos@[j]@,
            decreases n - i,
        {
            out.push(self.todos[i].duplicate());
            i = i + 1;
        }
        proof {
            assert(views_of(out@) =~= self@);
        }
        out
    }

    /// Insert: persists a new record with a freshly generated identifier that
    /// was never issued before, the supplied title (any text, the empty
    /// string included), `completed` false, and the supplied creation time;
    /// returns the full created record. The only failure is exhaustion of the
    /// identifier space, a storage failure.
    pub fn insert(&mut self, title: String, now: i64) -> (r: Result<Todo, ApiError>)
        requires
            old(self).inv(),
        ensures
            final(self).inv(),
            r is Ok <==> !old(self).at_capacity(),
            match r {
                Ok(t) => {
                    &&& t@.title == title@
                    &&& t@.completed == false
                    &&& t@.created_at == now
                    &&& !old(self).issued_ids().contains(t@.id)
                    &&& !has_id(old(self)@, t@.id)
                    &&& final(self)@ == old(self)@.push(t@)
                    &&& final(self).issued_ids() == old(self).issued_ids().insert(t@.id)
                },
                Err(e) => {
                    &&& e.kind == ErrorKind::StorageFailure
                    &&& *final(self) == *old(self)
                },
            },
    {
        if self.next_id == u128::MAX {
            return Err(ApiError::storage_failure("identifier space exhausted".to_string()));
        }
        let id: u128 = self.next_id;
        self.next_id = self.next_id + 1;
        let t = Todo { id, title, completed: false, created_at: now };
        let result = t.duplicate();
        proof {
            lemma_index_of_id(self@, id);
        }
        self.todos.push(t);
        self.issued = Ghost(self.issued@.insert(id));
        proof {
            assert(self@ =~= views_of(old(self).todos@).push(result@));
            assert forall|i: int, j: int| 0 <= i < j < self@.len() implies self@[i].id
                != self@[j].id by {}
        }
        Ok(result)
    }

    /// FetchById: the matching record, or Not-Found when no record has the
    /// given identifier.
    pub fn fetch_by_id(&self, id: u128) -> (r: Result<Todo, ApiError>)
        ensures
            r is Ok <==> has_id(self@, id),
            match r {
                Ok(t) => lookup(self@, id) == Some(t@),
                Err(e) => {
                    &&& e.kind == ErrorKind::NotFound
                    &&& e.detail@ == "Todo not found"@
                },
            },
    {
        match self.position_of(id) {
            Some(i) => {
                proof {
                    assert(self@[i as int] == self.todos@[i as int]@);
                }
                Ok(self.todos[i].duplicate())
            },
            None => Err(ApiError::not_found()),
        }
    }

    /// PartialUpdate: overwrites each supplied field of the matching record,
    /// keeps each absent one, and returns the post-update record; Not-Found
    /// when no record matches. With both fields absent the record is
    /// returned, and left, unchanged.
    pub fn partial_update(
        &mut self,
        id: u128,
        title: Option<String>,
        completed: Option<bool>,
    ) -> (r: Result<Todo, ApiError>)
        requires
            old(self).inv(),
        ensures
            final(self).inv(),
            final(self).issued_ids() == old(self).issued_ids(),
            final(self).at_capacity() == old(self).at_capacity(),
            r is Ok <==> has_id(old(self)@, id),
            match r {
                Ok(t) => {
                    &&& lookup(old(self)@, id) is Some
                    &&& t@ == apply_update(lookup(old(self)@, id).unwrap(), title, completed)
                    &&& final(self)@ == old(self)@.update(index_of_id(old(self)@, id), t@)
                },
                Err(e) => {
                    &&& *final(self) == *old(self)
                    &&& e.kind == ErrorKind::NotFound
                    &&& e.detail@ == "Todo not found"@
                },
            },
    {
        match self.position_of(id) {
            None => Err(ApiError::not_found()),
            Some(i) => {
                let new_title: String = match title {
                    Some(t) => t,
                    None => self.todos[i].title.clone(),
                };
                let new_completed: bool = match completed {
                    Some(c) => c,
                    None => self.todos[i].completed,
                };
                let updated = Todo {
                    id: self.todos[i].id,
                    title: new_title,
                    completed: new_completed,
                    created_at: self.todos[i].created_at,
                };
                let result = updated.duplicate();
                proof {
                    assert(self@[i as int] == self.todos@[i as int]@);
                }
                self.todos.remove(i);
                self.todos.insert(i, updated);
                proof {
                    assert(self.todos@ =~= old(self).todos@.update(i as int, updated));
                    assert(self@ =~= old(self)@.update(i as int, result@));
                    assert forall|a: int, b: int| 0 <= a < b < self@.len() implies self@[a].id
                        != self@[b].id by {
                        assert(self@[a].id == old(self)@[a].id);
                        assert(self@[b].id == old(self)@[b].id);
                    }
                    assert forall|a: int| 0 <= a < self@.len() implies self.issued@.contains(
                        self@[a].id,
                    ) by {
                        assert(self@[a].id == old(self)@[a].id);
                    }
                }
                Ok(result)
            },
        }
    }

    /// Delete: removes the matching record permanently; Not-Found when no
    /// record matches — also on every repetition after a successful delete,
    /// since an issued identifier is never reused.
    pub fn delete(&mut self, id: u128) -> (r: Result<(), ApiError>)
        requires
            old(self).inv(),
        ensures
            final(self).inv(),
            final(self).issued_ids() == old(self).issued_ids(),
            final(self).at_capacity() == old(self).at_capacity(),
            r is Ok <==> has_id(old(self)@, id),
            match r {
                Ok(_) => {
                    &&& final(self)@ == old(self)@.remove(index_of_id(old(self)@, id))
                    &&& !has_id(final(self)@, id)
                },
                Err(e) => {
                    &&& *final(self) == *old(self)
                    &&& e.kind == ErrorKind::NotFound
                    &&& e.detail@ == "Todo not found"@
                },
            },
    {
        match self.position_of(id) {
            None => Err(ApiError::not_found()),
            Some(i) => {
                proof {
                    lemma_index_of_id(self@, id);
                }
                self.todos.remove(i);
                proof {
                    assert(self@ =~= old(self)@.remove(i as int));
                    assert forall|a: int, b: int| 0 <= a < b < self@.len() implies self@[a].id
                        != self@[b].id by {
                        lemma_remove_keeps_ids(old(self)@, i as int, a);
                        lemma_remove_keeps_ids(old(self)@, i as int, b);
                    }
                    assert forall|a: int| 0 <= a < self@.len() implies self.issued@.contains(
                        self@[a].id,
                    ) by {
                        lemma_remove_keeps_ids(old(self)@, i as int, a);
                    }
                    lemma_lookup_after_remove(old(self)@, id);
                }
                Ok(())
            },
        }
    }
}

/// Indexing a sequence after removing position `i`: positions before `i` are
/// unmoved, the rest shift down by one.
proof fn lemma_remove_keeps_ids(s: Seq<TodoView>, i: int, a: int)
    requires
        0 <= i < s.len(),
        0 <= a < s.len() - 1,
    ensures
        a < i ==> s.remove(i)[a] == s[a],
        a >= i ==> s.remove(i)[a] == s[a + 1],
{
}

/// Law: a record just created is found by a fetch of its identifier, and is
/// returned identically.
pub proof fn lemma_lookup_after_push(s: Seq<TodoView>, t: TodoView)
    requires
        !has_id(s, t.id),
    ensures
        lookup(s.push(t), t.id) == Some(t),
{
    lemma_index_of_id(s, t.id);
    assert forall|j: int| 0 <= j < s.len() implies s.push(t)[j].id != t.id by {
        assert(s.push(t)[j] == s[j]);
    }
    lemma_index_of_id_first_hit(s.push(t), t.id, s.len() as int);
}

/// Law: after a delete, no record with the deleted identifier remains, so a
/// subsequent fetch of it is Not-Found — and so is a repeated delete.
pub proof fn lemma_lookup_after_remove(s: Seq<TodoView>, id: u128)
    requires
        unique_ids(s),
        has_id(s, id),
    ensures
        !has_id(s.remove(index_of_id(s, id)), id),
        lookup(s.remove(index_of_id(s, id)), id) == None::<TodoView>,
{
    lemma_index_of_id(s, id);
    let i = index_of_id(s, id);
    let s2 = s.remove(i);
    assert forall|k: int| 0 <= k < s2.len() implies s2[k].id != id by {
        lemma_remove_keeps_ids(s, i, k);
        if k < i {
            assert(s[k].id != s[i].id);
        } else {
            assert(s[i].id != s[k + 1].id);
        }
    }
    lemma_index_of_id(s2, id);
}

/// Law: an identifier issued at one time never coincides with one issued
/// later — the set of issued identifiers only grows, and a later insert picks
/// its identifier outside it. No two created records ever share an id.
pub proof fn lemma_issued_ids_distinct(
    earlier: Set<u128>,
    id1: u128,
    later: Set<u128>,
    id2: u128,
)
    requires
        earlier.contains(id1),
        earlier.subset_of(later),
        !later.contains(id2),
    ensures
        id1 != id2,
{
}

/// Law: a partial update never touches the identifier or the creation time;
/// an absent field leaves the stored value unchanged, and with both fields
/// absent the record is unchanged entirely.
pub proof fn lemma_apply_update_preserves_absent_fields(
    cur: TodoView,
    title: Option<String>,
    completed: Option<bool>,
)
    ensures
        apply_update(cur, title, completed).id == cur.id,
        apply_update(cur, title, completed).created_at == cur.created_at,
        title is None ==> apply_update(cur, title, completed).title == cur.title,
        completed is None ==> apply_update(cur, title, completed).completed == cur.completed,
        apply_update(cur, None, None) == cur,
{
}

} // verus!
