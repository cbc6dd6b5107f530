use vstd::prelude::*;
use crate::driver::{fresh_oid, now_timestamp};
use crate::model::{Match, MatchDocV, MatchDocument, User, UserDocV, UserDocument};
use crate::model::{match_doc_of, match_to_document, user_doc_of, user_to_document};
use crate::oid::{decoded_bytes, oid_str_valid, parse_object_id, Oid};
use crate::results::{ApiError, DeleteResult, InsertOneResult, UpdateResult};

verus! {

/// A persisted user: the store-assigned identifier next to the document.
#[derive(Clone, Debug)]
pub struct StoredUser {
    pub id: Oid,
    pub doc: UserDocument,
}

/// Mathematical shape of a `StoredUser`.
pub ghost struct StoredUserV {
    pub id: Seq<u8>,
    pub doc: UserDocV,
}

impl View for StoredUser {
    type V = StoredUserV;

    open spec fn view(&self) -> StoredUserV {
        StoredUserV { id: self.id@, doc: self.doc@ }
    }
}

/// A persisted match: the store-assigned identifier next to the document.
#[derive(Clone, Debug)]
pub struct StoredMatch {
    pub id: Oid,
    pub doc: MatchDocument,
}

/// Mathematical shape of a `StoredMatch`.
pub ghost struct StoredMatchV {
    pub id: Seq<u8>,
    pub doc: MatchDocV,
}

impl View for StoredMatch {
    type V = StoredMatchV;

    open spec fn view(&self) -> StoredMatchV {
        StoredMatchV { id: self.id@, doc: self.doc@ }
    }
}

pub open spec fn users_seq_view(s: Seq<StoredUser>) -> Seq<StoredUserV> {
    s.map_values(|u: StoredUser| u@)
}

pub open spec fn matches_seq_view(s: Seq<StoredMatch>) -> Seq<StoredMatchV> {
    s.map_values(|m: StoredMatch| m@)
}

/// The data-access service over the two collections: users and match
/// history. The store itself is held in memory; every operation below
/// carries the exact document-level semantics as its contract.
#[derive(Clone, Debug)]
pub struct ApiService {
    pub users: Vec<StoredUser>,
    pub match_history: Vec<StoredMatch>,
}

/// Mathematical shape of the whole store.
pub ghost struct StoreV {
    pub users: Seq<StoredUserV>,
    pub matches: Seq<StoredMatchV>,
}

impl View for ApiService {
    type V = StoreV;

    open spec fn view(&self) -> StoreV {
        StoreV { users: users_seq_view(self.users@), matches: matches_seq_view(self.match_history@) }
    }
}

/// Whether a stored user answers a lookup by `name`.
pub open spec fn user_matches(u: StoredUserV, name: Seq<char>) -> bool {
    u.doc.username == name
}

/// Index of the first stored user whose username is `name`, or -1 when
/// there is none. Lookups, replaces and deletes by username all act on
/// this first occurrence, as the store's single-document operations do.
pub open spec fn first_user_index(s: Seq<StoredUserV>, name: Seq<char>) -> int
    decreases s.len(),
{
    if s.len() == 0 {
        -1
    } else if user_matches(s[0], name) {
        0
    } else {
        let r = first_user_index(s.drop_first(), name);
        if r < 0 {
            -1
        } else {
            r + 1
        }
    }
}

/// What `first_user_index` returns: -1 exactly when no stored user has the
/// username, and otherwise the least index of one that does.
pub proof fn lemma_first_user_index(s: Seq<StoredUserV>, name: Seq<char>)
    ensures
        first_user_index(s, name) < 0 ==> forall|j: int|
            0 <= j < s.len() ==> !user_matches(#[trigger] s[j], name),
        first_user_index(s, name) >= 0 ==> {
            let i = first_user_index(s, name);
            &&& 0 <= i < s.len()
            &&& user_matches(s[i], name)
            &&& forall|j: int| 0 <= j < i ==> !user_matches(#[trigger] s[j], name)
        },
    decreases s.len(),
{
    if s.len() == 0 {
    } else if user_matches(s[0], name) {
    } else {
        let t = s.drop_first();
        lemma_first_user_index(t, name);
        let r = first_user_index(t, name);
        if r < 0 {
            assert forall|j: int| 0 <= j < s.len() implies !user_matches(#[trigger] s[j], name) by {
                if j >= 1 {
                    assert(t[j - 1] == s[j]);
                    assert(!user_matches(t[j - 1], name));
                }
            }
        } else {
            assert(s[r + 1] == t[r]);
            assert forall|j: int| 0 <= j < r + 1 implies !user_matches(#[trigger] s[j], name) by {
                if j >= 1 {
                    assert(t[j - 1] == s[j]);
                    assert(!user_matches(t[j - 1], name));
                }
            }
        }
    }
}

pub open spec fn has_user(s: Seq<StoredUserV>, name: Seq<char>) -> bool {
    first_user_index(s, name) >= 0
}

/// The document a lookup by username yields: the first matching one.
pub open spec fn get_user_spec(s: Seq<StoredUserV>, name: Seq<char>) -> Option<UserDocV> {
    let i = first_user_index(s, name);
    if i < 0 {
        None
    } else {
        Some(s[i].doc)
    }
}

/// The store after a whole-document replace by username: the first
/// matching document is replaced in full, its identifier is kept, and
/// nothing else changes; without a match the store is unchanged.
pub open spec fn update_user_spec(s: Seq<StoredUserV>, name: Seq<char>, doc: UserDocV) -> Seq<
    StoredUserV,
> {
    let i = first_user_index(s, name);
    if i < 0 {
        s
    } else {
        s.update(i, StoredUserV { id: s[i].id, doc })
    }
}

/// The store after a delete by username: the first matching document is
/// removed; without a match the store is unchanged.
pub open spec fn delete_user_spec(s: Seq<StoredUserV>, name: Seq<char>) -> Seq<StoredUserV> {
    let i = first_user_index(s, name);
    if i < 0 {
        s
    } else {
        s.remove(i)
    }
}

/// Whether some stored user carries the identifier `id`.
pub open spec fn contains_user_id(s: Seq<StoredUserV>, id: Seq<u8>) -> bool {
    exists|j: int| 0 <= j < s.len() && (#[trigger] s[j]).id == id
}

/// Whether a match document answers a lookup by `name`: the user is its
/// winner or its loser.
pub open spec fn match_involves(d: MatchDocV, name: Seq<char>) -> bool {
    d.winner == name || d.loser == name
}

/// The match documents involving `name`, in store order.
pub open spec fn matches_for(s: Seq<StoredMatchV>, name: Seq<char>) -> Seq<MatchDocV>
    decreases s.len(),
{
    if s.len() == 0 {
        Seq::empty()
    } else {
        let rest = matches_for(s.drop_first(), name);
        if match_involves(s[0].doc, name) {
            seq![s[0].doc] + rest
        } else {
            rest
        }
    }
}

/// Appending one stored match extends the query result by its document
/// exactly when that document involves the user.
pub proof fn lemma_matches_for_push(s: Seq<StoredMatchV>, x: StoredMatchV, name: Seq<char>)
    ensures
        matches_for(s.push(x), name) =~= if match_involves(x.doc, name) {
            matches_for(s, name).push(x.doc)
        } else {
            matches_for(s, name)
        },
    decreases s.len(),
{
    if s.len() == 0 {
        assert(s.push(x)[0] == x);
        assert(s.push(x).drop_first() =~= Seq::<StoredMatchV>::empty());
        assert(s.push(x).drop_first() == Seq::<StoredMatchV>::empty());
        assert(s =~= Seq::<StoredMatchV>::empty());
        assert(s == Seq::<StoredMatchV>::empty());
        assert(matches_for(s, name) == Seq::<MatchDocV>::empty());
    } else {
        let t = s.drop_first();
        assert(s.push(x)[0] == s[0]);
        assert(s.push(x).drop_first() =~= t.push(x));
        assert(s.push(x).drop_first() == t.push(x));
        lemma_matches_for_push(t, x, name);
        assert(matches_for(t.push(x), name) == if match_involves(x.doc, name) {
            matches_for(t, name).push(x.doc)
        } else {
            matches_for(t, name)
        });
    }
}

/// Every document of the match history, in store order.
pub open spec fn all_match_docs(s: Seq<StoredMatchV>) -> Seq<MatchDocV> {
    s.map_values(|m: StoredMatchV| m.doc)
}

/// Index of the first stored match carrying identifier `id`, or -1.
pub open spec fn first_match_index(s: Seq<StoredMatchV>, id: Seq<u8>) -> int
    decreases s.len(),
{
    if s.len() == 0 {
        -1
    } else if s[0].id == id {
        0
    } else {
        let r = first_match_index(s.drop_first(), id);
        if r < 0 {
            -1
        } else {
            r + 1
        }
    }
}

/// What `first_match_index` returns: -1 exactly when no stored match
/// carries the identifier, and otherwise the least index of one that does.
pub proof fn lemma_first_match_index(s: Seq<StoredMatchV>, id: Seq<u8>)
    ensures
        first_match_index(s, id) < 0 ==> forall|j: int|
            0 <= j < s.len() ==> (#[trigger] s[j]).id != id,
        first_match_index(s, id) >= 0 ==> {
            let i = first_match_index(s, id);
            &&& 0 <= i < s.len()
            &&& s[i].id == id
            &&& forall|j: int| 0 <= j < i ==> (#[trigger] s[j]).id != id
        },
    decreases s.len(),
{
    if s.len() == 0 {
    } else if s[0].id == id {
    } else {
        let t = s.drop_first();
        lemma_first_match_index(t, id);
        let r = first_match_index(t, id);
        if r < 0 {
            assert forall|j: int| 0 <= j < s.len() implies (#[trigger] s[j]).id != id by {
                if j >= 1 {
                    assert(t[j - 1] == s[j]);
                    assert(t[j - 1].id != id);
                }
            }
        } else {
            assert(s[r + 1] == t[r]);
            assert forall|j: int| 0 <= j < r + 1 implies (#[trigger] s[j]).id != id by {
                if j >= 1 {
                    assert(t[j - 1] == s[j]);
                    assert(t[j - 1].id != id);
                }
            }
        }
    }
}

pub open spec fn contains_match_id(s: Seq<StoredMatchV>, id: Seq<u8>) -> bool {
    first_match_index(s, id) >= 0
}

/// The match history after a whole-document replace by identifier.
pub open spec fn replace_match_spec(s: Seq<StoredMatchV>, id: Seq<u8>, doc: MatchDocV) -> Seq<
    StoredMatchV,
> {
    let i = first_match_index(s, id);
    if i < 0 {
        s
    } else {
        s.update(i, StoredMatchV { id: s[i].id, doc })
    }
}

/// The match history after a delete by identifier.
pub open spec fn delete_match_spec(s: Seq<StoredMatchV>, id: Seq<u8>) -> Seq<StoredMatchV> {
    let i = first_match_index(s, id);
    if i < 0 {
        s
    } else {
        s.remove(i)
    }
}

/// Mathematical contents of a vector of match documents.
pub open spec fn match_docs_view(v: Seq<MatchDocument>) -> Seq<MatchDocV> {
    v.map_values(|d: MatchDocument| d@)
}

impl ApiService {
    /// Constructor: the service works over the two pre-established
    /// collections it is handed, users first, match history second.
    pub fn new(users: Vec<StoredUser>, match_history: Vec<StoredMatch>) -> (s: ApiService)
        ensures
            s@.users == users_seq_view(users@),
            s@.matches == matches_seq_view(match_history@),
    {
        ApiService { users, match_history }
    }

    /// Index of the first stored user with this username, if any.
    fn find_user(&self, name: &String) -> (r: Option<usize>)
        ensures
            match r {
                Some(i) => i < self.users@.len() && first_user_index(self@.users, name@) == i,
                None => first_user_index(self@.users, name@) < 0,
            },
    {
        let ghost sv = self@.users;
        let mut j: usize = 0;
        while j < self.users.len()
            invariant
                sv == self@.users,
                0 <= j <= self.users@.len(),
                forall|k: int| 0 <= k < j ==> !user_matches(#[trigger] sv[k], name@),
            decreases self.users@.len() - j,
        {
            if self.users[j].doc.username == *name {
                proof {
                    lemma_first_user_index(sv, name@);
                    assert(sv[j as int] == self.users@[j as int]@);
                    assert(user_matches(sv[j as int], name@));
                }
                return Some(j);
            }
            proof {
                assert(sv[j as int] == self.users@[j as int]@);
            }
            j += 1;
        }
        proof {
            lemma_first_user_index(sv, name@);
        }
        None
    }

    /// Index of the first stored match with this identifier, if any.
    fn find_match(&self, oid: &Oid) -> (r: Option<usize>)
        ensures
            match r {
                Some(i) => i < self.match_history@.len() && first_match_index(
                    self@.matches,
                    oid@,
                ) == i,
                None => first_match_index(self@.matches, oid@) < 0,
            },
    {
        let ghost sv = self@.matches;
        let mut j: usize = 0;
        while j < self.match_history.len()
            invariant
                sv == self@.matches,
                0 <= j <= self.match_history@.len(),
                forall|k: int| 0 <= k < j ==> (#[trigger] sv[k]).id != oid@,
            decreases self.match_history@.len() - j,
        {
            if self.match_history[j].id.same_as(oid) {
                proof {
                    lemma_first_match_index(sv, oid@);
                    assert(sv[j as int] == self.match_history@[j as int]@);
                }
                return Some(j);
            }
            proof {
                assert(sv[j as int] == self.match_history@[j as int]@);
            }
            j += 1;
        }
        proof {
            lemma_first_match_index(sv, oid@);
        }
        None
    }

    /// Insert a user document under a given identifier. Succeeds exactly
    /// when no stored user carries that identifier already (the store's
    /// unique-identifier rule); the new document is appended in store
    /// order and nothing else changes.
    pub fn insert_user_doc(&mut self, id: Oid, doc: UserDocument) -> (r: Result<
        InsertOneResult,
        ApiError,
    >)
        ensures
            contains_user_id(old(self)@.users, id@) ==> r == Err::<InsertOneResult, ApiError>(
                ApiError::Store,
            ) && *final(self) == *old(self),
            !contains_user_id(old(self)@.users, id@) ==> {
                &&& r matches Ok(res) && res.inserted_id@ == id@
                &&& final(self)@.users =~= old(self)@.users.push(
                    StoredUserV { id: id@, doc: doc@ },
                )
                &&& final(self)@.matches == old(self)@.matches
            },
    {
        let ghost sv = self@.users;
        let mut j: usize = 0;
        while j < self.users.len()
            invariant
                *self == *old(self),
                sv == self@.users,
                0 <= j <= self.users@.len(),
                forall|k: int| 0 <= k < j ==> (#[trigger] sv[k]).id != id@,
            decreases self.users@.len() - j,
        {
            if self.users[j].id.same_as(&id) {
                proof {
                    assert(sv[j as int] == self.users@[j as int]@);
                    assert(contains_user_id(sv, id@));
                }
                return Err(ApiError::Store);
            }
            proof {
                assert(sv[j as int] == self.users@[j as int]@);
            }
            j += 1;
        }
        self.users.push(StoredUser { id, doc });
        proof {
            assert(self@.users =~= sv.push(StoredUserV { id: id@, doc: doc@ }));
        }
        Ok(InsertOneResult { inserted_id: id })
    }

    /// Insert a match document under a given identifier; the counterpart
    /// of `insert_user_doc` for the match-history collection.
    pub fn insert_match_doc(&mut self, id: Oid, doc: MatchDocument) -> (r: Result<
        InsertOneResult,
        ApiError,
    >)
        ensures
            contains_match_id(old(self)@.matches, id@) ==> r == Err::<InsertOneResult, ApiError>(
                ApiError::Store,
            ) && *final(self) == *old(self),
            !contains_match_id(old(self)@.matches, id@) ==> {
                &&& r matches Ok(res) && res.inserted_id@ == id@
                &&& final(self)@.matches =~= old(self)@.matches.push(
                    StoredMatchV { id: id@, doc: doc@ },
                )
                &&& final(self)@.users == old(self)@.users
            },
    {
        match self.find_match(&id) {
            Some(_) => {
                Err(ApiError::Store)
            },
            None => {
                let ghost sv = self@.matches;
                self.match_history.push(StoredMatch { id, doc });
                proof {
                    assert(self@.matches =~= sv.push(StoredMatchV { id: id@, doc: doc@ }));
                }
                Ok(InsertOneResult { inserted_id: id })
            },
        }
    }

    /// Insert a new user: map the profile to its document (identifier
    /// omitted) and store it under a freshly generated identifier. Fails
    /// only if the store rejects the freshly generated identifier as
    /// already taken — which an empty collection never does — and then
    /// changes nothing.
    pub fn create_user(&mut self, user: &User) -> (r: Result<InsertOneResult, ApiError>)
        ensures
            final(self)@.matches == old(self)@.matches,
            r matches Ok(res) ==> {
                &&& !contains_user_id(old(self)@.users, res.inserted_id@)
                &&& final(self)@.users =~= old(self)@.users.push(
                    StoredUserV { id: res.inserted_id@, doc: user_doc_of(user@) },
                )
            },
            r is Err ==> r == Err::<InsertOneResult, ApiError>(ApiError::Store) && *final(self)
                == *old(self) && old(self)@.users.len() > 0,
    {
        let id = fresh_oid();
        let doc = user_to_document(user);
        self.insert_user_doc(id, doc)
    }

    /// Insert a new match whose document is written at time `now`: the
    /// record's own `time` field is ignored for every value it may hold.
    /// This is `create_match` with the write time as an explicit
    /// argument, and so with the stored time pinned exactly. Fails only
    /// if the store rejects the freshly generated identifier as already
    /// taken — which an empty collection never does — and then changes
    /// nothing.
    pub fn create_match_at(&mut self, match_data: &Match, now: i64) -> (r: Result<
        InsertOneResult,
        ApiError,
    >)
        ensures
            final(self)@.users == old(self)@.users,
            r matches Ok(res) ==> {
                &&& !contains_match_id(old(self)@.matches, res.inserted_id@)
                &&& final(self)@.matches =~= old(self)@.matches.push(
                    StoredMatchV { id: res.inserted_id@, doc: match_doc_of(match_data@, now as int) },
                )
            },
            r is Err ==> r == Err::<InsertOneResult, ApiError>(ApiError::Store) && *final(self)
                == *old(self) && old(self)@.matches.len() > 0,
    {
        let doc = match_to_document(match_data, now);
        let id = fresh_oid();
        self.insert_match_doc(id, doc)
    }

    /// Insert a new match: map the record to its document, stamping the
    /// wall-clock write time — the record's own `time` field is ignored —
    /// and store it under a freshly generated identifier. The general
    /// statement about the stored time is the contract of
    /// `create_match_at`, which this function calls with the clock's
    /// value.
    pub fn create_match(&mut self, match_data: &Match) -> (r: Result<InsertOneResult, ApiError>)
        ensures
            final(self)@.users == old(self)@.users,
            r matches Ok(res) ==> {
                &&& !contains_match_id(old(self)@.matches, res.inserted_id@)
                &&& exists|t: int|
                    final(self)@.matches =~= old(self)@.matches.push(
                        StoredMatchV { id: res.inserted_id@, doc: match_doc_of(match_data@, t) },
                    )
            },
            r is Err ==> r == Err::<InsertOneResult, ApiError>(ApiError::Store) && *final(self)
                == *old(self) && old(self)@.matches.len() > 0,
    {
        let now = now_timestamp();
        let r = self.create_match_at(match_data, now);
        proof {
            if r is Ok {
                assert(self@.matches =~= old(self)@.matches.push(
                    StoredMatchV {
                        id: (r->Ok_0).inserted_id@,
                        doc: match_doc_of(match_data@, now as int),
                    },
                ));
            }
        }
        r
    }

    /// Look a user up by username: the first document with that username,
    /// or nothing. Absence is not an error.
    pub fn get_user(&self, username: &String) -> (r: Result<Option<UserDocument>, ApiError>)
        ensures
            r is Ok,
            r matches Ok(o) ==> match o {
                Some(d) => get_user_spec(self@.users, username@) == Some(d@),
                None => get_user_spec(self@.users, username@) is None,
            },
    {
        match self.find_user(username) {
            Some(i) => Ok(Some(self.users[i].doc.duplicate())),
            None => Ok(None),
        }
    }

    /// All match documents in which the user appears as winner or loser,
    /// in store order. No matches is an empty list, not an error.
    pub fn get_matches(&self, username: &String) -> (r: Result<Vec<MatchDocument>, ApiError>)
        ensures
            r is Ok,
            r matches Ok(v) ==> match_docs_view(v@) =~= matches_for(self@.matches, username@),
    {
        let ghost sv = self@.matches;
        let mut out: Vec<MatchDocument> = Vec::new();
        let mut j: usize = 0;
        proof {
            assert(sv.subrange(0, 0) =~= Seq::<StoredMatchV>::empty());
            assert(match_docs_view(out@) =~= matches_for(sv.subrange(0, 0), username@));
        }
        while j < self.match_history.len()
            invariant
                sv == self@.matches,
                0 <= j <= self.match_history@.len(),
                match_docs_view(out@) =~= matches_for(sv.subrange(0, j as int), username@),
            decreases self.match_history@.len() - j,
        {
            let ghost prev = out@;
            let m = &self.match_history[j];
            if m.doc.winner == *username || m.doc.loser == *username {
                out.push(m.doc.duplicate());
            }
            proof {
                assert(sv[j as int] == self.match_history@[j as int]@);
                assert(sv.subrange(0, j + 1) =~= sv.subrange(0, j as int).push(sv[j as int]));
                lemma_matches_for_push(sv.subrange(0, j as int), sv[j as int], username@);
                if match_involves(sv[j as int].doc, username@) {
                    assert(match_docs_view(out@) =~= match_docs_view(prev).push(
                        sv[j as int].doc,
                    ));
                }
                assert(match_docs_view(out@) =~= matches_for(sv.subrange(0, j + 1), username@));
            }
            j += 1;
        }
        proof {
            assert(sv.subrange(0, sv.len() as int) =~= sv);
        }
        Ok(out)
    }

    /// Every document of the match-history collection, in store order.
    pub fn get_all_matches(&self) -> (r: Result<Vec<MatchDocument>, ApiError>)
        ensures
            r is Ok,
            r matches Ok(v) ==> match_docs_view(v@) =~= all_match_docs(self@.matches),
    {
        let ghost sv = self@.matches;
        let mut out: Vec<MatchDocument> = Vec::new();
        let mut j: usize = 0;
        while j < self.match_history.len()
            invariant
                sv == self@.matches,
                0 <= j <= self.match_history@.len(),
                j == out@.len(),
                forall|k: int| 0 <= k < j ==> #[trigger] match_docs_view(out@)[k] == sv[k].doc,
            decreases self.match_history@.len() - j,
        {
            let ghost prev = out@;
            out.push(self.match_history[j].doc.duplicate());
            proof {
                assert(sv[j as int] == self.match_history@[j as int]@);
                assert forall|k: int| 0 <= k < j + 1 implies #[trigger] match_docs_view(out@)[k]
                    == sv[k].doc by {
                    assert(match_docs_view(out@)[k] == out@[k]@);
                    if k < j {
                        assert(out@[k] == prev[k]);
                        assert(match_docs_view(prev)[k] == prev[k]@);
                    }
                }
            }
            j += 1;
        }
        proof {
            assert(match_docs_view(out@) =~= all_match_docs(sv));
        }
        Ok(out)
    }

    /// Replace the whole document of the first user with this username by
    /// the mapped document of `user` — a full replace, not a merge: every
    /// document field, the password included, is overwritten; the stored
    /// identifier is kept. Reports how many documents matched (at most
    /// one). By this store's convention every matched replacement counts
    /// as modified, also one whose new document equals the old.
    pub fn update_user(&mut self, user: &User, username: &String) -> (r: Result<
        UpdateResult,
        ApiError,
    >)
        ensures
            final(self)@.matches == old(self)@.matches,
            final(self)@.users =~= update_user_spec(
                old(self)@.users,
                username@,
                user_doc_of(user@),
            ),
            r is Ok,
            r matches Ok(u) ==> u.matched_count == (
                if has_user(old(self)@.users, username@) { 1int } else { 0int }
            ) && u.modified_count == u.matched_count,
    {
        match self.find_user(username) {
            Some(i) => {
                let ghost sv = self@.users;
                let id = self.users[i].id;
                self.users[i] = StoredUser { id, doc: user_to_document(user) };
                proof {
                    assert(self@.users =~= sv.update(
                        i as int,
                        StoredUserV { id: sv[i as int].id, doc: user_doc_of(user@) },
                    ));
                }
                Ok(UpdateResult { matched_count: 1, modified_count: 1 })
            },
            None => Ok(UpdateResult { matched_count: 0, modified_count: 0 }),
        }
    }

    /// Delete the first user document whose username equals the given
    /// user's username. Removes one document when one matches, zero
    /// otherwise; a zero count is the only trace of "not found".
    pub fn delete_user(&mut self, user: &User) -> (r: Result<DeleteResult, ApiError>)
        ensures
            final(self)@.matches == old(self)@.matches,
            final(self)@.users =~= delete_user_spec(old(self)@.users, user@.username),
            r is Ok,
            r matches Ok(d) ==> d.deleted_count == (
                if has_user(old(self)@.users, user@.username) { 1int } else { 0int }
            ),
    {
        match self.find_user(&user.username) {
            Some(i) => {
                let ghost sv = self@.users;
                self.users.remove(i);
                proof {
                    assert(self@.users =~= sv.remove(i as int));
                }
                Ok(DeleteResult { deleted_count: 1 })
            },
            None => Ok(DeleteResult { deleted_count: 0 }),
        }
    }

    /// Replace the whole document of the stored match carrying this
    /// identifier, keeping the identifier; the verified core of
    /// `update_match`, taking the already-parsed identifier and the
    /// already-stamped document. By this store's convention every matched
    /// replacement counts as modified, also one whose new document equals
    /// the old.
    pub fn replace_match_doc(&mut self, oid: &Oid, doc: MatchDocument) -> (u: UpdateResult)
        ensures
            final(self)@.users == old(self)@.users,
            final(self)@.matches =~= replace_match_spec(old(self)@.matches, oid@, doc@),
            u.matched_count == (
                if contains_match_id(old(self)@.matches, oid@) { 1int } else { 0int }
            ),
            u.modified_count == u.matched_count,
    {
        match self.find_match(oid) {
            Some(i) => {
                let ghost sv = self@.matches;
                let id = self.match_history[i].id;
                self.match_history[i] = StoredMatch { id, doc };
                proof {
                    assert(self@.matches =~= sv.update(
                        i as int,
                        StoredMatchV { id: sv[i as int].id, doc: doc@ },
                    ));
                }
                UpdateResult { matched_count: 1, modified_count: 1 }
            },
            None => UpdateResult { matched_count: 0, modified_count: 0 },
        }
    }

    /// Remove the stored match carrying this identifier, if any; the
    /// verified core of `delete_match`.
    pub fn delete_match_by_oid(&mut self, oid: &Oid) -> (d: DeleteResult)
        ensures
            final(self)@.users == old(self)@.users,
            final(self)@.matches =~= delete_match_spec(old(self)@.matches, oid@),
            d.deleted_count == (
                if contains_match_id(old(self)@.matches, oid@) { 1int } else { 0int }
            ),
    {
        match self.find_match(oid) {
            Some(i) => {
                let ghost sv = self@.matches;
                self.match_history.remove(i);
                proof {
                    assert(self@.matches =~= sv.remove(i as int));
                }
                DeleteResult { deleted_count: 1 }
            },
            None => DeleteResult { deleted_count: 0 },
        }
    }

    /// Replace the whole document of the match named by an id-string. A
    /// string that is not 24 hexadecimal characters is an
    /// `InvalidIdentifier` error that leaves every document unchanged.
    /// On a valid id-string the replacement document is stamped with the
    /// wall-clock write time, never with the record's own `time` field.
    /// By this store's convention every matched replacement counts as
    /// modified, also one whose new document equals the old.
    pub fn update_match(&mut self, match_data: &Match, id: &String) -> (r: Result<
        UpdateResult,
        ApiError,
    >)
        ensures
            final(self)@.users == old(self)@.users,
            !oid_str_valid(id@) ==> r == Err::<UpdateResult, ApiError>(ApiError::InvalidIdentifier)
                && *final(self) == *old(self),
            oid_str_valid(id@) ==> {
                &&& r is Ok
                &&& exists|t: int|
                    final(self)@.matches =~= replace_match_spec(
                        old(self)@.matches,
                        decoded_bytes(id@),
                        match_doc_of(match_data@, t),
                    )
                &&& (r matches Ok(u) ==> u.matched_count == (
                    if contains_match_id(old(self)@.matches, decoded_bytes(id@)) {
                        1int
                    } else {
                        0int
                    }
                ) && u.modified_count == u.matched_count)
            },
    {
        let oid = match parse_object_id(id) {
            Ok(o) => o,
            Err(e) => {
                return Err(e);
            },
        };
        let now = now_timestamp();
        let doc = match_to_document(match_data, now);
        let u = self.replace_match_doc(&oid, doc);
        proof {
            assert(self@.matches =~= replace_match_spec(
                old(self)@.matches,
                decoded_bytes(id@),
                match_doc_of(match_data@, now as int),
            ));
        }
        Ok(u)
    }

    /// Delete the match named by an id-string. A string that is not 24
    /// hexadecimal characters is an `InvalidIdentifier` error that leaves
    /// every document unchanged.
    pub fn delete_match(&mut self, id: &String) -> (r: Result<DeleteResult, ApiError>)
        ensures
            final(self)@.users == old(self)@.users,
            !oid_str_valid(id@) ==> r == Err::<DeleteResult, ApiError>(ApiError::InvalidIdentifier)
                && *final(self) == *old(self),
            oid_str_valid(id@) ==> {
                &&& final(self)@.matches =~= delete_match_spec(
                    old(self)@.matches,
                    decoded_bytes(id@),
                )
                &&& r matches Ok(d) && d.deleted_count == (
                    if contains_match_id(old(self)@.matches, decoded_bytes(id@)) {
                        1int
                    } else {
                        0int
                    }
                )
            },
    {
        let oid = match parse_object_id(id) {
            Ok(o) => o,
            Err(e) => {
                return Err(e);
            },
        };
        let d = self.delete_match_by_oid(&oid);
        Ok(d)
    }
}

} // verus!
