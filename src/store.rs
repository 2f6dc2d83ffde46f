use vstd::prelude::*;

verus! {

/// SQLSTATE reported when an insert breaks a uniqueness constraint.
pub open spec fn unique_violation() -> Seq<char> {
    "23505"@
}

/// A persisted credential: identity and password hash of one user.
#[derive(Debug, Clone)]
pub struct CredentialRecord {
    pub id: i64,
    pub username: String,
    pub password_hash: String,
}

/// A storage failure, with the SQLSTATE-style code the backend reported, if any.
#[derive(Debug, Clone)]
pub struct StoreError {
    pub code: Option<String>,
}

impl StoreError {
    /// Whether this failure is a broken uniqueness constraint.
    pub open spec fn is_conflict(&self) -> bool {
        self.code matches Some(c) && c@ == unique_violation()
    }
}

/// An in-memory credential store keyed by username. Usernames are unique, as
/// the uniqueness constraint of a relational backend would keep them, and an
/// insert is a single atomic step that either adds a record or reports a
/// conflict.
pub struct CredentialStore {
    records: Vec<CredentialRecord>,
    next_id: i64,
}

/// What the store keeps under a username: record id and password hash.
pub type StoredCredential = (i64, Seq<char>);

impl CredentialStore {
    /// Usernames are unique, and every id lies below the next one handed out.
    pub closed spec fn wf(&self) -> bool {
        &&& 1 <= self.next_id
        &&& forall|i: int|
            0 <= i < self.records@.len() ==> 1 <= #[trigger] self.records@[i].id < self.next_id
        &&& forall|i: int, j: int|
            0 <= i < j < self.records@.len() ==> #[trigger] self.records@[i].username@
                != #[trigger] self.records@[j].username@
    }

    /// The id the next insert will give, while ids are left.
    pub closed spec fn spec_next_id(&self) -> i64 {
        self.next_id
    }

    spec fn holds_at(&self, u: Seq<char>, i: int) -> bool {
        0 <= i < self.records@.len() && self.records@[i].username@ == u
    }

    /// The store as a map from username to id and password hash.
    pub closed spec fn view(&self) -> Map<Seq<char>, StoredCredential> {
        Map::new(
            |u: Seq<char>| exists|i: int| self.holds_at(u, i),
            |u: Seq<char>|
                {
                    let i = choose|i: int| self.holds_at(u, i);
                    (self.records@[i].id, self.records@[i].password_hash@)
                },
        )
    }

    proof fn lemma_entry(&self, i: int)
        requires
            self.wf(),
            0 <= i < self.records@.len(),
        ensures
            self.view().contains_key(self.records@[i].username@),
            self.view()[self.records@[i].username@] == (
                self.records@[i].id,
                self.records@[i].password_hash@,
            ),
    {
        let u = self.records@[i].username@;
        assert(self.holds_at(u, i));
        let j = choose|j: int| self.holds_at(u, j);
        if j < i {
            assert(self.records@[j].username@ != self.records@[i].username@);
        } else if i < j {
            assert(self.records@[i].username@ != self.records@[j].username@);
        }
    }

    /// Every stored id is positive and below the id handed out next, so ids
    /// are never handed out twice.
    pub proof fn lemma_ids_below_next(&self)
        requires
            self.wf(),
        ensures
            forall|u: Seq<char>| #[trigger]
                self.view().contains_key(u) ==> 1 <= self.view()[u].0 < self.spec_next_id(),
    {
        assert forall|u: Seq<char>| #[trigger] self.view().contains_key(u) implies 1
            <= self.view()[u].0 < self.spec_next_id() by {
            let i = choose|i: int| self.holds_at(u, i);
            self.lemma_entry(i);
        }
    }

    /// An empty store.
    pub fn new() -> (r: Self)
        ensures
            r.wf(),
            r.view() == Map::<Seq<char>, StoredCredential>::empty(),
            r.spec_next_id() == 1,
    {
        let r = CredentialStore { records: Vec::new(), next_id: 1 };
        assert(r.view() =~= Map::<Seq<char>, StoredCredential>::empty());
        r
    }

    /// Looks a username up.
    pub fn find(&self, username: &str) -> (r: Option<CredentialRecord>)
        requires
            self.wf(),
        ensures
            r is None <==> !self.view().contains_key(username@),
            r matches Some(rec) ==> rec.username@ == username@ && self.view()[username@] == (
                rec.id,
                rec.password_hash@,
            ),
    {
        let key = username.to_owned();
        let mut i: usize = 0;
        while i < self.records.len()
            invariant
                self.wf(),
                key@ == username@,
                0 <= i <= self.records@.len(),
                forall|j: int| 0 <= j < i ==> self.records@[j].username@ != username@,
            decreases self.records@.len() - i,
        {
            if self.records[i].username == key {
                proof {
                    self.lemma_entry(i as int);
                }
                let rec = &self.records[i];
                return Some(
                    CredentialRecord {
                        id: rec.id,
                        username: rec.username.clone(),
                        password_hash: rec.password_hash.clone(),
                    },
                );
            }
            i = i + 1;
        }
        assert(!self.view().contains_key(username@)) by {
            if self.view().contains_key(username@) {
                let j = choose|j: int| self.holds_at(username@, j);
                assert(self.records@[j].username@ != username@);
            }
        }
        None
    }

    /// Adds a record in one atomic step. A username already present is a
    /// uniqueness conflict and leaves the store as it was; so does running out
    /// of ids, reported without a code.
    pub fn insert(&mut self, username: &str, password_hash: String) -> (r: Result<i64, StoreError>)
        requires
            old(self).wf(),
        ensures
            final(self).wf(),
            old(self).view().contains_key(username@) ==> (r matches Err(e) && e.is_conflict()),
            !old(self).view().contains_key(username@) && old(self).spec_next_id() == i64::MAX
                ==> (r matches Err(e) && e.code is None),
            r is Err ==> *final(self) == *old(self),
            !old(self).view().contains_key(username@) && old(self).spec_next_id() < i64::MAX
                ==> r == Ok::<i64, StoreError>(old(self).spec_next_id()),
            r matches Ok(id) ==> final(self).view() == old(self).view().insert(
                username@,
                (id, password_hash@),
            ) && final(self).spec_next_id() == id + 1,
        r matches Ok(id) ==> forall|u: Seq<char>| #[trigger]
            old(self).view().contains_key(u) ==> old(self).view()[u].0 < id,
    {
        proof {
            self.lemma_ids_below_next();
        }
        match self.find(username) {
            Some(_) => {
                return Err(StoreError { code: Some("23505".to_owned()) });
            },
            None => {},
        }
        if self.next_id == i64::MAX {
            return Err(StoreError { code: None });
        }
        let id = self.next_id;
        let ghost before = *self;
        self.records.push(CredentialRecord { id, username: username.to_owned(), password_hash });
        self.next_id = id + 1;
        proof {
            let n = before.records@.len() as int;
            assert forall|i: int, j: int| 0 <= i < j < self.records@.len() implies
                #[trigger] self.records@[i].username@ != #[trigger] self.records@[j].username@ by {
                if j == n {
                    before.lemma_entry(i);
                } else {
                    assert(before.records@[i].username@ != before.records@[j].username@);
                }
            }
            assert(self.wf());
            let m = before.view().insert(username@, (id, password_hash@));
            assert forall|u: Seq<char>| #[trigger] self.view().contains_key(u) <==> m.contains_key(u) by {
                if m.contains_key(u) {
                    if u == username@ {
                        assert(self.holds_at(u, n));
                    } else {
                        let k = choose|k: int| before.holds_at(u, k);
                        assert(self.holds_at(u, k));
                    }
                }
                if self.view().contains_key(u) {
                    let k = choose|k: int| self.holds_at(u, k);
                    if k < n {
                        assert(before.holds_at(u, k));
                    }
                }
            }
            assert forall|u: Seq<char>| #[trigger] self.view().contains_key(u) implies self.view()[u]
                == m[u] by {
                let k = choose|k: int| self.holds_at(u, k);
                self.lemma_entry(k);
                if k < n {
                    before.lemma_entry(k);
                }
            }
            assert(self.view() =~= m);
        }
        Ok(id)
    }
}

} // verus!
