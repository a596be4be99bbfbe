//! The requests the front end has recorded, in the order of their
//! identifiers, at most one entry per identifier.
use vstd::prelude::*;
use crate::message::{RequestEntry, RequestEntryView, RequestId, Response, ResponseView};

verus! {

/// Every entry's identifier is below the next one's.
pub open spec fn increasing(s: Seq<RequestEntryView>) -> bool {
    forall|i: int, j: int| 0 <= i < j < s.len() ==> #[trigger] s[i].request_id < #[trigger] s[j].request_id
}

/// How many entries come before identifier `id`: the number whose
/// identifier is below it.
pub open spec fn position_for(s: Seq<RequestEntryView>, id: usize) -> nat
    decreases s.len(),
{
    if s.len() == 0 {
        0
    } else if s[0].request_id < id {
        1 + position_for(s.drop_first(), id)
    } else {
        0
    }
}

/// The entry stored under `id`, if any.
pub open spec fn find(s: Seq<RequestEntryView>, id: usize) -> Option<RequestEntryView> {
    let p = position_for(s, id);
    if p < s.len() && s[p as int].request_id == id {
        Some(s[p as int])
    } else {
        None
    }
}

/// The entries after storing `e`: it replaces the entry with its
/// identifier, or goes in at its place in the order.
pub open spec fn store_insert(s: Seq<RequestEntryView>, e: RequestEntryView) -> Seq<RequestEntryView> {
    let p = position_for(s, e.request_id);
    if p < s.len() && s[p as int].request_id == e.request_id {
        s.update(p as int, e)
    } else {
        s.insert(p as int, e)
    }
}

/// The entries after the response `r` is recorded for `id`, when there is
/// an entry for `id`.
pub open spec fn store_respond(s: Seq<RequestEntryView>, id: usize, r: ResponseView) -> Seq<
    RequestEntryView,
> {
    let p = position_for(s, id);
    if p < s.len() && s[p as int].request_id == id {
        s.update(p as int, RequestEntryView { response: Some(r), ..s[p as int] })
    } else {
        s
    }
}

pub proof fn lemma_position_for(s: Seq<RequestEntryView>, id: usize)
    requires
        increasing(s),
    ensures
        position_for(s, id) <= s.len(),
        forall|i: int| 0 <= i < position_for(s, id) ==> #[trigger] s[i].request_id < id,
        forall|i: int| position_for(s, id) <= i < s.len() ==> #[trigger] s[i].request_id >= id,
    decreases s.len(),
{
    if s.len() > 0 && s[0].request_id < id {
        let t = s.drop_first();
        assert forall|i: int, j: int| 0 <= i < j < t.len() implies #[trigger] t[i].request_id
            < #[trigger] t[j].request_id by {
            assert(t[i] == s[i + 1] && t[j] == s[j + 1]);
        }
        lemma_position_for(t, id);
        assert forall|i: int| 0 <= i < position_for(s, id) implies #[trigger] s[i].request_id
            < id by {
            if i > 0 {
                assert(s[i] == t[i - 1]);
            }
        }
        assert forall|i: int| position_for(s, id) <= i < s.len() implies #[trigger] s[i].request_id
            >= id by {
            assert(s[i] == t[i - 1]);
        }
    } else if s.len() > 0 {
        assert forall|i: int| 0 <= i < s.len() implies #[trigger] s[i].request_id >= id by {
            if i > 0 {
                assert(s[0].request_id < s[i].request_id);
            }
        }
    }
}

/// The position of the entry with identifier `id` is the one `find`
/// looks at.
pub proof fn lemma_find_at(s: Seq<RequestEntryView>, i: int)
    requires
        increasing(s),
        0 <= i < s.len(),
    ensures
        position_for(s, s[i].request_id) == i,
        find(s, s[i].request_id) == Some(s[i]),
{
    let id = s[i].request_id;
    lemma_position_for(s, id);
    let p = position_for(s, id) as int;
    if p < i {
        assert(s[p].request_id < s[i].request_id);
    } else if p > i {
        assert(s[i].request_id < id);
    }
}

/// Storing keeps the identifiers increasing.
pub proof fn lemma_store_insert_increasing(s: Seq<RequestEntryView>, e: RequestEntryView)
    requires
        increasing(s),
    ensures
        increasing(store_insert(s, e)),
        store_insert(s, e).len() == s.len() || store_insert(s, e).len() == s.len() + 1,
{
    lemma_position_for(s, e.request_id);
    let p = position_for(s, e.request_id) as int;
    let t = store_insert(s, e);
    if p < s.len() && s[p].request_id == e.request_id {
        assert forall|i: int, j: int| 0 <= i < j < t.len() implies #[trigger] t[i].request_id
            < #[trigger] t[j].request_id by {
            if i == p {
                assert(s[p].request_id < s[j].request_id);
            } else if j == p {
                assert(s[i].request_id < s[p].request_id);
            }
        }
    } else {
        assert forall|i: int, j: int| 0 <= i < j < t.len() implies #[trigger] t[i].request_id
            < #[trigger] t[j].request_id by {
            if j < p {
                assert(t[i] == s[i] && t[j] == s[j]);
            } else if j == p {
                assert(t[i] == s[i]);
            } else if i < p {
                assert(t[i] == s[i] && t[j] == s[j - 1]);
            } else if i == p {
                assert(t[j] == s[j - 1]);
                assert(s[j - 1].request_id >= e.request_id);
            } else {
                assert(t[i] == s[i - 1] && t[j] == s[j - 1]);
            }
        }
    }
}

/// Storing an entry, then looking up its identifier, gives the entry back;
/// every other identifier finds what it found before.
pub proof fn law_store_then_find(s: Seq<RequestEntryView>, e: RequestEntryView, id: usize)
    requires
        increasing(s),
    ensures
        find(store_insert(s, e), e.request_id) == Some(e),
        id != e.request_id ==> find(store_insert(s, e), id) == find(s, id),
{
    lemma_store_insert_increasing(s, e);
    lemma_position_for(s, e.request_id);
    let t = store_insert(s, e);
    let p = position_for(s, e.request_id) as int;
    assert(t[p] == e);
    lemma_find_at(t, p);
    if id != e.request_id {
        lemma_position_for(s, id);
        lemma_position_for(t, id);
        match find(s, id) {
            Some(x) => {
                let q = position_for(s, id) as int;
                let replaced = p < s.len() && s[p].request_id == e.request_id;
                let k = if replaced || q < p {
                    q
                } else {
                    q + 1
                };
                if replaced || q < p {
                    assert(t[q] == s[q]);
                } else {
                    assert(t[q + 1] == s[q]);
                }
                lemma_find_at(t, k);
            },
            None => {
                if let Some(y) = find(t, id) {
                    let q = position_for(t, id) as int;
                    assert(t[q].request_id == id);
                    if s.len() > p && s[p].request_id == e.request_id {
                        if q != p {
                            assert(t[q] == s[q]);
                            lemma_find_at(s, q);
                        }
                    } else {
                        if q < p {
                            assert(t[q] == s[q]);
                            lemma_find_at(s, q);
                        } else if q > p {
                            assert(t[q] == s[q - 1]);
                            lemma_find_at(s, q - 1);
                        }
                    }
                }
            },
        }
    }
}

/// The recorded requests, ordered by identifier.
#[derive(Debug, PartialEq)]
pub struct RequestStore {
    entries: Vec<RequestEntry>,
}

impl View for RequestStore {
    type V = Seq<RequestEntryView>;

    closed spec fn view(&self) -> Seq<RequestEntryView> {
        self.entries@.map_values(|e: RequestEntry| e@)
    }
}

impl RequestStore {
    #[verifier::type_invariant]
    closed spec fn ordered(self) -> bool {
        increasing(self.entries@.map_values(|e: RequestEntry| e@))
    }

    /// The entries' identifiers increase.
    pub fn check_ordered(&self)
        ensures
            increasing(self@),
    {
        proof {
            use_type_invariant(self);
        }
    }

    pub fn new() -> (r: Self)
        ensures
            r@ == Seq::<RequestEntryView>::empty(),
    {
        RequestStore { entries: Vec::new() }
    }

    pub fn len(&self) -> (r: usize)
        ensures
            r == self@.len(),
    {
        self.entries.len()
    }

    /// Where an entry with identifier `id` is, or would go.
    fn position(&self, id: usize) -> (r: usize)
        ensures
            r == position_for(self@, id),
    {
        proof {
            use_type_invariant(self);
            lemma_position_for(self@, id);
        }
        let mut i: usize = 0;
        while i < self.entries.len() && self.entries[i].request_id.0 < id
            invariant
                i <= self.entries.len(),
                increasing(self@),
                forall|j: int| 0 <= j < i ==> #[trigger] self@[j].request_id < id,
                self@.len() == self.entries.len(),
                forall|j: int| 0 <= j < self.entries.len() ==> #[trigger] self@[j] == self.entries@[j]@,
            decreases self.entries.len() - i,
        {
            i += 1;
        }
        proof {
            lemma_position_for(self@, id);
            let p = position_for(self@, id) as int;
            if p < i {
                assert(self@[p].request_id >= id);
            } else if p > i {
                assert(self@[i as int].request_id < id);
            }
        }
        i
    }

    /// Stores an entry: it replaces the entry with its identifier, or goes
    /// in at its place in the order.
    pub fn insert(&mut self, entry: RequestEntry)
        ensures
            final(self)@ == store_insert(old(self)@, entry@),
    {
        proof {
            use_type_invariant(&*self);
            lemma_store_insert_increasing(self@, entry@);
            lemma_position_for(self@, entry@.request_id);
        }
        let ghost e = entry@;
        let p = self.position(entry.request_id.0);
        let mut entries = Vec::new();
        std::mem::swap(&mut entries, &mut self.entries);
        let ghost before = entries@;
        if p < entries.len() && entries[p].request_id.0 == entry.request_id.0 {
            entries.set(p, entry);
            assert(entries@.map_values(|x: RequestEntry| x@) == before.map_values(
                |x: RequestEntry| x@,
            ).update(p as int, e));
        } else {
            entries.insert(p, entry);
            assert(entries@.map_values(|x: RequestEntry| x@) == before.map_values(
                |x: RequestEntry| x@,
            ).insert(p as int, e));
        }
        self.entries = entries;
    }

    /// Records the response of request `id`, and gives a copy of the
    /// completed entry; `None`, and nothing changed, when no entry has that
    /// identifier.
    pub fn set_response(&mut self, id: RequestId, response: Response) -> (r: Option<RequestEntry>)
        ensures
            final(self)@ == store_respond(old(self)@, id.0, response@),
            match r {
                Some(e) => find(old(self)@, id.0) is Some && e@ == RequestEntryView {
                    response: Some(response@),
                    ..find(old(self)@, id.0)->0
                },
                None => find(old(self)@, id.0) is None && *final(self) == *old(self),
            },
    {
        proof {
            use_type_invariant(&*self);
        }
        let p = self.position(id.0);
        if p < self.entries.len() && self.entries[p].request_id.0 == id.0 {
            let ghost resp = response@;
            let mut entries = Vec::new();
            std::mem::swap(&mut entries, &mut self.entries);
            let ghost before = entries@.map_values(|x: RequestEntry| x@);
            let placeholder = RequestEntry {
                request_id: id,
                request: entries[p].request.duplicate(),
                response: None,
            };
            let mut entry = entries.remove(p);
            entries.insert(p, placeholder);
            entry.response = Some(response);
            let copy = entry.duplicate();
            entries.set(p, entry);
            assert(entries@.map_values(|x: RequestEntry| x@) == before.update(
                p as int,
                RequestEntryView { response: Some(resp), ..before[p as int] },
            ));
            proof {
                let s = before;
                let t = s.update(p as int, RequestEntryView { response: Some(resp), ..s[p as int] });
                assert forall|i: int, j: int| 0 <= i < j < t.len() implies #[trigger] t[i].request_id
                    < #[trigger] t[j].request_id by {
                    assert(s[i].request_id < s[j].request_id);
                }
            }
            self.entries = entries;
            Some(copy)
        } else {
            None
        }
    }

    /// A copy of the entry at position `i`, in the order of identifiers.
    pub fn nth(&self, i: usize) -> (r: Option<RequestEntry>)
        ensures
            match r {
                Some(e) => i < self@.len() && e@ == self@[i as int],
                None => i >= self@.len(),
            },
    {
        if i < self.entries.len() {
            Some(self.entries[i].duplicate())
        } else {
            None
        }
    }

    /// The entries, in the order of identifiers.
    pub fn entries(&self) -> (r: &Vec<RequestEntry>)
        ensures
            r@.len() == self@.len(),
            forall|i: int| 0 <= i < r@.len() ==> #[trigger] r@[i]@ == self@[i],
    {
        &self.entries
    }
}

} // verus!
