//! The in-memory store: the system of record for a single process
//! lifetime. It is a collection of `User` records with pairwise
//! distinct identifiers; every operation takes the whole store
//! exclusively (`&mut self`), so a caller that shares it across tasks
//! serializes the operations under one lock and each contract below
//! describes one atomic step of that serialization.

use vstd::prelude::*;
use crate::models::{User, UserDTO, UserV};

verus! {

/// No two records in `s` carry the same identifier.
pub open spec fn distinct_ids(s: Seq<UserV>) -> bool {
    forall|i: int, j: int| 0 <= i < j < s.len() ==> s[i].id != s[j].id
}

/// Some record in `s` carries `id`.
pub open spec fn contains_id(s: Seq<UserV>, id: u128) -> bool {
    exists|i: int| 0 <= i < s.len() && (#[trigger] s[i]).id == id
}

/// The index of the record carrying `id`, when one exists.
pub open spec fn idx_of(s: Seq<UserV>, id: u128) -> int {
    choose|i: int| 0 <= i < s.len() && (#[trigger] s[i]).id == id
}

/// The record of `s` carrying `id`, when `contains_id(s, id)`.
pub open spec fn record_of(s: Seq<UserV>, id: u128) -> UserV {
    s[idx_of(s, id)]
}

/// Lookup by identifier.
pub open spec fn spec_get(s: Seq<UserV>, id: u128) -> Option<UserV> {
    if contains_id(s, id) {
        Some(record_of(s, id))
    } else {
        None
    }
}

/// The store after writing record `r`: replacement in place when the
/// identifier is already present, insertion at the end otherwise.
pub open spec fn spec_upsert(s: Seq<UserV>, r: UserV) -> Seq<UserV> {
    if contains_id(s, r.id) {
        s.update(idx_of(s, r.id), r)
    } else {
        s.push(r)
    }
}

/// The store after removing the record carrying `id`, if any.
pub open spec fn spec_remove_id(s: Seq<UserV>, id: u128) -> Seq<UserV> {
    if contains_id(s, id) {
        s.remove(idx_of(s, id))
    } else {
        s
    }
}

/// Every identifier other than `id` resolves the same way in `s1` and `s2`.
pub open spec fn same_except(s1: Seq<UserV>, s2: Seq<UserV>, id: u128) -> bool {
    forall|id2: u128| id2 != id ==> #[trigger] spec_get(s1, id2) == spec_get(s2, id2)
}

/// In a store with distinct identifiers, any index carrying `id` is the
/// index the lookup resolves to.
pub proof fn lemma_idx_of_unique(s: Seq<UserV>, id: u128, i: int)
    requires
        distinct_ids(s),
        0 <= i < s.len(),
        s[i].id == id,
    ensures
        contains_id(s, id),
        idx_of(s, id) == i,
        record_of(s, id) == s[i],
        spec_get(s, id) == Some(s[i]),
{
    assert(contains_id(s, id));
    let j = idx_of(s, id);
    assert(0 <= j < s.len() && s[j].id == id);
    if i < j {
        assert(s[i].id != s[j].id);
    }
    if j < i {
        assert(s[j].id != s[i].id);
    }
}

/// Appending a record with a fresh identifier keeps identifiers
/// distinct, makes the record findable, and leaves every other
/// identifier resolving as before.
pub proof fn lemma_push_preserves(s: Seq<UserV>, r: UserV)
    requires
        distinct_ids(s),
        !contains_id(s, r.id),
    ensures
        distinct_ids(s.push(r)),
        spec_get(s.push(r), r.id) == Some(r),
        same_except(s, s.push(r), r.id),
        s.push(r).len() == s.len() + 1,
        spec_upsert(s, r) == s.push(r),
{
    let s2 = s.push(r);
    assert forall|k: int| 0 <= k < s.len() implies (#[trigger] s[k]).id != r.id by {
        if s[k].id == r.id {
            assert(contains_id(s, r.id));
        }
    }
    assert(distinct_ids(s2)) by {
        assert forall|i: int, j: int| 0 <= i < j < s2.len() implies s2[i].id != s2[j].id by {
            if j < s.len() {
                assert(s2[i] == s[i] && s2[j] == s[j]);
            } else {
                assert(s2[j] == r && s2[i] == s[i]);
            }
        }
    }
    lemma_idx_of_unique(s2, r.id, s.len() as int);
    assert(same_except(s, s2, r.id)) by {
        assert forall|id2: u128| id2 != r.id implies #[trigger] spec_get(s, id2) == spec_get(s2, id2) by {
            if contains_id(s, id2) {
                let i = idx_of(s, id2);
                assert(0 <= i < s.len() && s[i].id == id2);
                lemma_idx_of_unique(s, id2, i);
                assert(s2[i] == s[i]);
                lemma_idx_of_unique(s2, id2, i);
            } else {
                assert(!contains_id(s2, id2)) by {
                    if contains_id(s2, id2) {
                        let j = idx_of(s2, id2);
                        assert(0 <= j < s2.len() && s2[j].id == id2);
                        assert(j < s.len()) by {
                            if j == s.len() {
                                assert(s2[j] == r);
                            }
                        }
                        assert(s[j] == s2[j]);
                        assert(contains_id(s, id2));
                    }
                }
            }
        }
    }
}

/// Replacing the record at the index carrying `r.id` with `r` keeps
/// identifiers distinct, makes `r` the record found under `r.id`, and
/// leaves every other identifier resolving as before.
pub proof fn lemma_update_preserves(s: Seq<UserV>, i: int, r: UserV)
    requires
        distinct_ids(s),
        0 <= i < s.len(),
        s[i].id == r.id,
    ensures
        distinct_ids(s.update(i, r)),
        spec_get(s.update(i, r), r.id) == Some(r),
        same_except(s, s.update(i, r), r.id),
        s.update(i, r).len() == s.len(),
        spec_upsert(s, r) == s.update(i, r),
{
    let s2 = s.update(i, r);
    assert(distinct_ids(s2)) by {
        assert forall|a: int, b: int| 0 <= a < b < s2.len() implies s2[a].id != s2[b].id by {
            assert(s2[a] == if a == i { r } else { s[a] });
            assert(s2[b] == if b == i { r } else { s[b] });
        }
    }
    lemma_idx_of_unique(s, r.id, i);
    lemma_idx_of_unique(s2, r.id, i);
    assert(same_except(s, s2, r.id)) by {
        assert forall|id2: u128| id2 != r.id implies #[trigger] spec_get(s, id2) == spec_get(s2, id2) by {
            if contains_id(s, id2) {
                let a = idx_of(s, id2);
                assert(0 <= a < s.len() && s[a].id == id2);
                lemma_idx_of_unique(s, id2, a);
                assert(a != i);
                assert(s2[a] == s[a]);
                lemma_idx_of_unique(s2, id2, a);
            } else {
                assert(!contains_id(s2, id2)) by {
                    if contains_id(s2, id2) {
                        let b = idx_of(s2, id2);
                        assert(0 <= b < s2.len() && s2[b].id == id2);
                        assert(b != i);
                        assert(s2[b] == s[b]);
                        assert(contains_id(s, id2));
                    }
                }
            }
        }
    }
}

/// Removing the record at index `i` keeps identifiers distinct, makes
/// its identifier unresolvable, and leaves every other identifier
/// resolving as before.
pub proof fn lemma_remove_preserves(s: Seq<UserV>, i: int)
    requires
        distinct_ids(s),
        0 <= i < s.len(),
    ensures
        distinct_ids(s.remove(i)),
        !contains_id(s.remove(i), s[i].id),
        same_except(s, s.remove(i), s[i].id),
        s.remove(i).len() == s.len() - 1,
{
    let s2 = s.remove(i);
    s.remove_ensures(i);
    let id = s[i].id;
    assert(distinct_ids(s2)) by {
        assert forall|a: int, b: int| 0 <= a < b < s2.len() implies s2[a].id != s2[b].id by {
            assert(s2[a] == if a < i { s[a] } else { s[a + 1] });
            assert(s2[b] == if b < i { s[b] } else { s[b + 1] });
        }
    }
    assert(!contains_id(s2, id)) by {
        if contains_id(s2, id) {
            let j = idx_of(s2, id);
            assert(0 <= j < s2.len() && s2[j].id == id);
            assert(s2[j] == if j < i { s[j] } else { s[j + 1] });
        }
    }
    assert(same_except(s, s2, id)) by {
        assert forall|id2: u128| id2 != id implies #[trigger] spec_get(s, id2) == spec_get(s2, id2) by {
            if contains_id(s, id2) {
                let a = idx_of(s, id2);
                assert(0 <= a < s.len() && s[a].id == id2);
                lemma_idx_of_unique(s, id2, a);
                assert(a != i);
                if a < i {
                    assert(s2[a] == s[a]);
                    lemma_idx_of_unique(s2, id2, a);
                } else {
                    assert(s2[a - 1] == s[a]);
                    lemma_idx_of_unique(s2, id2, a - 1);
                }
            } else {
                assert(!contains_id(s2, id2)) by {
                    if contains_id(s2, id2) {
                        let b = idx_of(s2, id2);
                        assert(0 <= b < s2.len() && s2[b].id == id2);
                        assert(s2[b] == if b < i { s[b] } else { s[b + 1] });
                        assert(contains_id(s, id2));
                    }
                }
            }
        }
    }
}

/// Relies on `uuid::Uuid::new_v4` for identifier generation: a freshly
/// drawn random version-4 UUID, carried here as its 128-bit value. The
/// result is random, so nothing is promised about it; every caller
/// must be correct for every value that comes back.
#[verifier::external_body]
fn fresh_uuid() -> u128 {
    uuid::Uuid::new_v4().as_u128()
}

/// The concurrency-safe collection keyed by record identifier. Records
/// are held in insertion order; the well-formedness condition carried
/// by every contract is that identifiers are pairwise distinct.
pub struct InMemoryStore {
    users: Vec<User>,
}

impl View for InMemoryStore {
    type V = Seq<UserV>;

    closed spec fn view(&self) -> Seq<UserV> {
        self.users@.map(|i: int, u: User| u@)
    }
}

impl InMemoryStore {
    /// A fresh, empty store.
    pub fn new() -> (s: Self)
        ensures
            s@.len() == 0,
            distinct_ids(s@),
    {
        let s = InMemoryStore { users: Vec::new() };
        proof {
            assert(s@ =~= Seq::<UserV>::empty());
        }
        s
    }

    /// How many records the store holds.
    pub fn len(&self) -> (n: usize)
        ensures
            n == self@.len(),
    {
        self.users.len()
    }

    /// The index of the record carrying `id`, scanning in storage order.
    fn find_index(&self, id: u128) -> (r: Option<usize>)
        ensures
            match r {
                Some(i) => i < self@.len() && self@[i as int].id == id,
                None => !contains_id(self@, id),
            },
    {
        let n = self.users.len();
        let mut k: usize = 0;
        while k < n
            invariant
                n == self.users.len(),
                k <= n,
                self@.len() == n,
                forall|j: int| 0 <= j < k ==> (#[trigger] self@[j]).id != id,
            decreases n - k,
        {
            if self.users[k].id == id {
                assert(self@[k as int] == self.users@[k as int]@);
                return Some(k);
            }
            assert(self@[k as int] == self.users@[k as int]@);
            k += 1;
        }
        proof {
            if contains_id(self@, id) {
                let i = idx_of(self@, id);
                assert(0 <= i < self@.len() && self@[i].id == id);
            }
        }
        None
    }

    /// Create: pick a fresh identifier, build the record from the
    /// payload, write it, and return it. Identifier collision is
    /// treated as impossible in practice, but the contract is exact
    /// for every generated value: the new record replaces an equal
    /// identifier in place and is appended otherwise.
    pub fn create(&mut self, dto: &UserDTO) -> (r: User)
        requires
            distinct_ids(old(self)@),
        ensures
            distinct_ids(final(self)@),
            r@.name == dto@.name && r@.email == dto@.email,
            final(self)@ == spec_upsert(old(self)@, r@),
            spec_get(final(self)@, r.id) == Some(r@),
            same_except(old(self)@, final(self)@, r.id),
            !contains_id(old(self)@, r.id) ==> final(self)@.len() == old(self)@.len() + 1,
            contains_id(old(self)@, r.id) ==> final(self)@.len() == old(self)@.len(),
    {
        let id = fresh_uuid();
        let record = User { id, name: dto.name.clone(), email: dto.email.clone() };
        let out = record.clone();
        match self.find_index(id) {
            Some(i) => {
                proof {
                    lemma_idx_of_unique(self@, id, i as int);
                    lemma_update_preserves(self@, i as int, record@);
                }
                self.users[i] = record;
                proof {
                    assert(self@ =~= old(self)@.update(i as int, out@));
                }
            }
            None => {
                proof {
                    lemma_push_preserves(self@, record@);
                }
                self.users.push(record);
                proof {
                    assert(self@ =~= old(self)@.push(out@));
                }
            }
        }
        out
    }

    /// Read by identifier: a copy of the record, or nothing when the
    /// identifier is absent.
    pub fn get(&self, id: u128) -> (r: Option<User>)
        requires
            distinct_ids(self@),
        ensures
            match r {
                Some(u) => u.id == id && spec_get(self@, id) == Some(u@),
                None => !contains_id(self@, id) && spec_get(self@, id) is None,
            },
    {
        match self.find_index(id) {
            Some(i) => {
                proof {
                    lemma_idx_of_unique(self@, id, i as int);
                }
                Some(self.users[i].clone())
            }
            None => None,
        }
    }

    /// Full replacement by identifier: when present, every mutable
    /// field is overwritten from the payload, the identifier is kept,
    /// and the updated record is returned; an absent identifier leaves
    /// the store unchanged. Never creates.
    pub fn update(&mut self, id: u128, dto: &UserDTO) -> (r: Option<User>)
        requires
            distinct_ids(old(self)@),
        ensures
            distinct_ids(final(self)@),
            match r {
                Some(u) => contains_id(old(self)@, id) && u.id == id
                    && u@.name == dto@.name && u@.email == dto@.email
                    && final(self)@ == spec_upsert(old(self)@, u@)
                    && spec_get(final(self)@, id) == Some(u@)
                    && same_except(old(self)@, final(self)@, id)
                    && final(self)@.len() == old(self)@.len(),
                None => !contains_id(old(self)@, id) && final(self)@ == old(self)@,
            },
    {
        match self.find_index(id) {
            Some(i) => {
                let record = User { id, name: dto.name.clone(), email: dto.email.clone() };
                let out = record.clone();
                proof {
                    lemma_idx_of_unique(self@, id, i as int);
                    lemma_update_preserves(self@, i as int, record@);
                }
                self.users[i] = record;
                proof {
                    assert(self@ =~= old(self)@.update(i as int, out@));
                }
                Some(out)
            }
            None => None,
        }
    }

    /// Removal by identifier: terminal and not reversible. Reports
    /// whether a record was removed; every other record is untouched.
    pub fn delete(&mut self, id: u128) -> (r: bool)
        requires
            distinct_ids(old(self)@),
        ensures
            distinct_ids(final(self)@),
            r == contains_id(old(self)@, id),
            !contains_id(final(self)@, id),
            same_except(old(self)@, final(self)@, id),
            final(self)@ == spec_remove_id(old(self)@, id),
            r ==> final(self)@.len() + 1 == old(self)@.len(),
            !r ==> final(self)@ == old(self)@,
    {
        match self.find_index(id) {
            Some(i) => {
                proof {
                    lemma_idx_of_unique(self@, id, i as int);
                    lemma_remove_preserves(self@, i as int);
                    old(self)@.remove_ensures(i as int);
                }
                let _removed = self.users.remove(i);
                proof {
                    old(self).users@.remove_ensures(i as int);
                    assert(self@ =~= old(self)@.remove(i as int));
                }
                true
            }
            None => false,
        }
    }

    /// A snapshot copy of all current records, in storage order. The
    /// order is an implementation detail; callers must not rely on it.
    pub fn list(&self) -> (r: Vec<User>)
        ensures
            r@.len() == self@.len(),
            forall|i: int| 0 <= i < self@.len() ==> (#[trigger] r@[i])@ == self@[i],
    {
        let n = self.users.len();
        let mut out: Vec<User> = Vec::new();
        let mut k: usize = 0;
        while k < n
            invariant
                n == self.users.len(),
                k <= n,
                self@.len() == n,
                out@.len() == k,
                forall|i: int| 0 <= i < k ==> (#[trigger] out@[i])@ == self@[i],
            decreases n - k,
        {
            out.push(self.users[k].clone());
            assert(self@[k as int] == self.users@[k as int]@);
            k += 1;
        }
        out
    }
}

/// Create then read: after a create that returned record `r`, looking
/// up `r.id` yields exactly the created record, whatever identifier
/// the store chose for it.
pub proof fn lemma_create_then_get(s: Seq<UserV>, r: UserV)
    requires
        distinct_ids(s),
    ensures
        spec_get(spec_upsert(s, r), r.id) == Some(r),
{
    if contains_id(s, r.id) {
        let i = idx_of(s, r.id);
        assert(0 <= i < s.len() && s[i].id == r.id);
        lemma_update_preserves(s, i, r);
    } else {
        lemma_push_preserves(s, r);
    }
}

/// An identifier that was never created resolves to nothing: lookup is
/// empty and removal changes nothing, so get, update and delete all
/// answer NotFound for it.
pub proof fn lemma_absent_id(s: Seq<UserV>, id: u128)
    requires
        !contains_id(s, id),
    ensures
        spec_get(s, id) is None,
        spec_remove_id(s, id) == s,
{
}

/// Update then read: replacing under a present identifier and then
/// looking it up returns a record whose mutable fields are exactly the
/// payload's and whose identifier is unchanged; no other record moves.
pub proof fn lemma_update_then_get(s: Seq<UserV>, id: u128, r: UserV)
    requires
        distinct_ids(s),
        contains_id(s, id),
        r.id == id,
    ensures
        spec_get(spec_upsert(s, r), id) == Some(r),
        same_except(s, spec_upsert(s, r), id),
{
    let i = idx_of(s, id);
    assert(0 <= i < s.len() && s[i].id == id);
    lemma_update_preserves(s, i, r);
}

/// Delete is terminal: after removing an identifier it resolves to
/// nothing, so a following get, update or delete all answer NotFound,
/// while every other record is untouched.
pub proof fn lemma_delete_terminal(s: Seq<UserV>, id: u128)
    requires
        distinct_ids(s),
    ensures
        distinct_ids(spec_remove_id(s, id)),
        !contains_id(spec_remove_id(s, id), id),
        spec_get(spec_remove_id(s, id), id) is None,
        same_except(s, spec_remove_id(s, id), id),
{
    if contains_id(s, id) {
        let i = idx_of(s, id);
        assert(0 <= i < s.len() && s[i].id == id);
        lemma_remove_preserves(s, i);
    }
}

/// The store after creating every record of `rs` in order.
pub open spec fn spec_create_all(s: Seq<UserV>, rs: Seq<UserV>) -> Seq<UserV>
    decreases rs.len(),
{
    if rs.len() == 0 {
        s
    } else {
        spec_create_all(spec_upsert(s, rs[0]), rs.drop_first())
    }
}

/// Creating a batch of records with pairwise distinct, previously
/// unused identifiers grows the store by exactly the batch size;
/// afterwards every batch record is found under its identifier and
/// every identifier outside the batch resolves as before. Under the
/// store's lock concurrent creates are serialized into such a batch,
/// so no creation is lost and no identifier is duplicated.
pub proof fn lemma_create_all_distinct(s: Seq<UserV>, rs: Seq<UserV>)
    requires
        distinct_ids(s),
        distinct_ids(rs),
        forall|k: int| 0 <= k < rs.len() ==> !contains_id(s, (#[trigger] rs[k]).id),
    ensures
        distinct_ids(spec_create_all(s, rs)),
        spec_create_all(s, rs).len() == s.len() + rs.len(),
        forall|k: int| 0 <= k < rs.len()
            ==> spec_get(spec_create_all(s, rs), (#[trigger] rs[k]).id) == Some(rs[k]),
        forall|id2: u128| !contains_id(rs, id2)
            ==> #[trigger] spec_get(spec_create_all(s, rs), id2) == spec_get(s, id2),
    decreases rs.len(),
{
    if rs.len() == 0 {
    } else {
        let r0 = rs[0];
        let tail = rs.drop_first();
        assert(!contains_id(s, r0.id));
        lemma_push_preserves(s, r0);
        let s1 = spec_upsert(s, r0);
        assert(s1 == s.push(r0));
        assert(s1[s.len() as int] == r0);
        lemma_idx_of_unique(s1, r0.id, s.len() as int);
        assert(distinct_ids(tail)) by {
            assert forall|i: int, j: int| 0 <= i < j < tail.len()
                implies tail[i].id != tail[j].id by {
                assert(tail[i] == rs[i + 1] && tail[j] == rs[j + 1]);
            }
        }
        assert forall|k: int| 0 <= k < tail.len()
            implies !contains_id(s1, (#[trigger] tail[k]).id) by {
            assert(tail[k] == rs[k + 1]);
            assert(!contains_id(s, rs[k + 1].id));
            assert(rs[k + 1].id != r0.id);
            if contains_id(s1, tail[k].id) {
                let j = idx_of(s1, tail[k].id);
                assert(0 <= j < s1.len() && s1[j].id == tail[k].id);
                if j < s.len() {
                    assert(s1[j] == s[j]);
                    assert(contains_id(s, tail[k].id));
                } else {
                    assert(s1[j] == r0);
                }
            }
        }
        lemma_create_all_distinct(s1, tail);
        let out = spec_create_all(s, rs);
        assert(out == spec_create_all(s1, tail));
        assert forall|k: int| 0 <= k < rs.len()
            implies spec_get(out, (#[trigger] rs[k]).id) == Some(rs[k]) by {
            if k == 0 {
                assert(!contains_id(tail, r0.id)) by {
                    if contains_id(tail, r0.id) {
                        let j = idx_of(tail, r0.id);
                        assert(0 <= j < tail.len() && tail[j].id == r0.id);
                        assert(tail[j] == rs[j + 1]);
                        assert(rs[0].id != rs[j + 1].id);
                    }
                }
                assert(spec_get(out, r0.id) == spec_get(s1, r0.id));
                assert(spec_get(s1, r0.id) == Some(r0));
            } else {
                assert(tail[k - 1] == rs[k]);
                assert(spec_get(spec_create_all(s1, tail), tail[k - 1].id) == Some(tail[k - 1]));
            }
        }
        assert forall|id2: u128| !contains_id(rs, id2)
            implies #[trigger] spec_get(out, id2) == spec_get(s, id2) by {
            assert(rs[0].id != id2) by {
                if rs[0].id == id2 {
                    assert(contains_id(rs, id2));
                }
            }
            assert(!contains_id(tail, id2)) by {
                if contains_id(tail, id2) {
                    let j = idx_of(tail, id2);
                    assert(0 <= j < tail.len() && tail[j].id == id2);
                    assert(tail[j] == rs[j + 1]);
                    assert(contains_id(rs, id2));
                }
            }
            assert(spec_get(out, id2) == spec_get(s1, id2));
            assert(spec_get(s1, id2) == spec_get(s, id2));
        }
    }
}

} // verus!
