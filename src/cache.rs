use vstd::prelude::*;

use crate::model::Todo;

verus! {

broadcast use vstd::seq_lib::group_seq_properties;

/// `t` with a new title, description and status; id, owner and creation
/// time kept.
pub open spec fn edited(t: Todo, title: String, description: String, status: bool) -> Todo {
    Todo { title, description, status, ..t }
}

/// The todos of `s`, each one whose id is `id` edited in place.
pub open spec fn updated(
    s: Seq<Todo>,
    id: i64,
    title: String,
    description: String,
    status: bool,
) -> Seq<Todo> {
    s.map_values(
        |t: Todo|
            if t.id == id {
                edited(t, title, description, status)
            } else {
                t
            },
    )
}

/// Whether todo `t` keeps a place when `id` is removed.
pub open spec fn kept(id: i64, t: Todo) -> bool {
    t.id != id
}

/// The todos of `s` in their order, those whose id is `id` left out.
pub open spec fn without(s: Seq<Todo>, id: i64) -> Seq<Todo> {
    s.filter(|t: Todo| kept(id, t))
}

/// No two todos of `s` share an id.
pub open spec fn ids_unique(s: Seq<Todo>) -> bool {
    forall|i: int, j: int| 0 <= i < s.len() && 0 <= j < s.len() && s[i].id == s[j].id ==> i == j
}

/// Some todo of `s` has id `id`.
pub open spec fn holds_id(s: Seq<Todo>, id: i64) -> bool {
    exists|i: int| 0 <= i < s.len() && (#[trigger] s[i]).id == id
}

/// Editing todo `id` and reading the cache back shows the new title,
/// description and status at each position that held `id`, and every other
/// todo as it was, in the same order.
pub proof fn lemma_update_then_read(
    s: Seq<Todo>,
    id: i64,
    title: String,
    description: String,
    status: bool,
)
    ensures
        updated(s, id, title, description, status).len() == s.len(),
        forall|i: int|
            0 <= i < s.len() && s[i].id == id ==> {
                let t = #[trigger] updated(s, id, title, description, status)[i];
                &&& t.title == title
                &&& t.description == description
                &&& t.status == status
                &&& t.id == s[i].id
                &&& t.created_by == s[i].created_by
                &&& t.created_at == s[i].created_at
            },
        forall|i: int|
            0 <= i < s.len() && s[i].id != id ==> #[trigger] updated(
                s,
                id,
                title,
                description,
                status,
            )[i] == s[i],
{
}

/// In a cache whose ids are unique, editing the todo at position `i` and
/// reading the cache back shows that todo with the new title, description
/// and status, and every other todo as it was, at its place.
pub proof fn lemma_update_unique_then_read(
    s: Seq<Todo>,
    i: int,
    title: String,
    description: String,
    status: bool,
)
    requires
        ids_unique(s),
        0 <= i < s.len(),
    ensures
        updated(s, s[i].id, title, description, status).len() == s.len(),
        updated(s, s[i].id, title, description, status)[i] == edited(s[i], title, description, status),
        forall|j: int|
            0 <= j < s.len() && j != i ==> #[trigger] updated(s, s[i].id, title, description, status)[j]
                == s[j],
{
    assert forall|j: int| 0 <= j < s.len() && j != i implies #[trigger] updated(
        s,
        s[i].id,
        title,
        description,
        status,
    )[j] == s[j] by {
        assert(s[j].id != s[i].id);
    }
}

/// Removing an id that no cached todo has (an empty cache included) leaves
/// the cache, and so its size, unchanged.
pub proof fn lemma_remove_absent(s: Seq<Todo>, id: i64)
    requires
        !holds_id(s, id),
    ensures
        without(s, id) == s,
    decreases s.len(),
{
    if s.len() > 0 {
        let init = s.drop_last();
        assert(!holds_id(init, id)) by {
            if holds_id(init, id) {
                let i = choose|i: int| 0 <= i < init.len() && (#[trigger] init[i]).id == id;
                assert(s[i].id == id);
            }
        }
        lemma_remove_absent(init, id);
        assert(init.push(s.last()) =~= s);
        init.lemma_filter_push(s.last(), |t: Todo| kept(id, t));
        assert(s[s.len() - 1].id != id);
    } else {
        reveal(Seq::filter);
    }
}

/// In a cache whose ids are unique, removing an id that is present shrinks
/// the cache by exactly one todo.
pub proof fn lemma_remove_present(s: Seq<Todo>, id: i64)
    requires
        ids_unique(s),
        holds_id(s, id),
    ensures
        without(s, id).len() == s.len() - 1,
{
    let k = choose|k: int| 0 <= k < s.len() && (#[trigger] s[k]).id == id;
    let front = s.subrange(0, k);
    let back = s.subrange(k + 1, s.len() as int);
    let pred = |t: Todo| kept(id, t);
    assert(s =~= front + seq![s[k]] + back);
    assert(!holds_id(front, id)) by {
        if holds_id(front, id) {
            let i = choose|i: int| 0 <= i < front.len() && (#[trigger] front[i]).id == id;
            assert(s[i].id == s[k].id);
        }
    }
    assert(!holds_id(back, id)) by {
        if holds_id(back, id) {
            let i = choose|i: int| 0 <= i < back.len() && (#[trigger] back[i]).id == id;
            assert(s[k + 1 + i].id == s[k].id);
        }
    }
    lemma_remove_absent(front, id);
    lemma_remove_absent(back, id);
    Seq::filter_distributes_over_add(front + seq![s[k]], back, pred);
    Seq::filter_distributes_over_add(front, seq![s[k]], pred);
    assert(Seq::<Todo>::empty().push(s[k]) =~= seq![s[k]]);
    Seq::<Todo>::empty().lemma_filter_push(s[k], pred);
    reveal(Seq::filter);
    assert(Seq::<Todo>::empty().filter(pred) =~= Seq::<Todo>::empty());
}

/// The process-wide list of todos mirrored from the database, newest first.
pub struct TodoCache {
    items: Vec<Todo>,
}

impl View for TodoCache {
    type V = Seq<Todo>;

    closed spec fn view(&self) -> Seq<Todo> {
        self.items@
    }
}

impl TodoCache {
    /// An empty cache.
    pub fn new() -> (r: TodoCache)
        ensures
            r@ == Seq::<Todo>::empty(),
    {
        TodoCache { items: Vec::new() }
    }

    /// The number of cached todos.
    pub fn len(&self) -> (r: usize)
        ensures
            r == self@.len(),
    {
        self.items.len()
    }

    /// Swaps the whole content for `items` (done at login).
    pub fn replace_all(&mut self, items: Vec<Todo>)
        ensures
            final(self)@ == items@,
    {
        self.items = items;
    }

    /// Puts a newly created todo in front, keeping newest-first order.
    pub fn insert_front(&mut self, item: Todo)
        ensures
            final(self)@ == seq![item] + old(self)@,
    {
        self.items.insert(0, item);
        assert(self.items@ =~= seq![item] + old(self)@);
    }

    /// Sets title, description and status of every todo whose id is `id`;
    /// a cache without that id is left as it is.
    pub fn update_in_place(&mut self, id: i64, title: String, description: String, status: bool)
        ensures
            final(self)@ == updated(old(self)@, id, title, description, status),
    {
        let ghost before = self.items@;
        let mut next: Vec<Todo> = Vec::new();
        let n = self.items.len();
        let mut i: usize = 0;
        while i < n
            invariant
                n == before.len(),
                self.items@ == before,
                i <= n,
                next@ =~= updated(before, id, title, description, status).subrange(0, i as int),
            decreases n - i,
        {
            let t = &self.items[i];
            if t.id == id {
                next.push(
                    Todo {
                        id: t.id,
                        created_by: t.created_by.clone(),
                        title: title.clone(),
                        description: description.clone(),
                        status,
                        created_at: t.created_at,
                    },
                );
            } else {
                next.push(t.duplicate());
            }
            i = i + 1;
        }
        self.items = next;
        assert(self.items@ =~= updated(before, id, title, description, status));
    }

    /// Leaves out every todo whose id is `id`; removing an absent id does nothing.
    pub fn remove(&mut self, id: i64)
        ensures
            final(self)@ == without(old(self)@, id),
    {
        let ghost before = self.items@;
        let mut next: Vec<Todo> = Vec::new();
        let n = self.items.len();
        let mut i: usize = 0;
        while i < n
            invariant
                n == before.len(),
                self.items@ == before,
                i <= n,
                next@ == without(before.subrange(0, i as int), id),
            decreases n - i,
        {
            let t = &self.items[i];
            proof {
                assert(before.subrange(0, i + 1) =~= before.subrange(0, i as int).push(before[i as int]));
                before.subrange(0, i as int).lemma_filter_push(before[i as int], |t: Todo| kept(id, t));
            }
            if t.id != id {
                next.push(t.duplicate());
            }
            i = i + 1;
        }
        assert(before.subrange(0, n as int) =~= before);
        self.items = next;
    }

    /// A snapshot copy of the cached todos, in order.
    pub fn read_all(&self) -> (r: Vec<Todo>)
        ensures
            r@ == self@,
    {
        let mut out: Vec<Todo> = Vec::new();
        let n = self.items.len();
        let mut i: usize = 0;
        while i < n
            invariant
                n == self.items@.len(),
                i <= n,
                out@ =~= self.items@.subrange(0, i as int),
            decreases n - i,
        {
            out.push(self.items[i].duplicate());
            i = i + 1;
        }
        out
    }
}

} // verus!
