use vstd::prelude::*;
use crate::model::{MatchDocV, UserDocV};
use crate::service::{
    contains_match_id, contains_user_id, delete_user_spec, first_user_index, get_user_spec,
    has_user, lemma_first_match_index, lemma_first_user_index, replace_match_spec,
    update_user_spec, user_matches, StoredMatchV, StoredUserV,
};

verus! {

/// Pairwise-distinct identifiers over the user collection.
pub open spec fn distinct_user_ids(s: Seq<StoredUserV>) -> bool {
    forall|j: int, k: int|
        0 <= j < k < s.len() ==> (#[trigger] s[j]).id != (#[trigger] s[k]).id
}

/// Pairwise-distinct identifiers over the match-history collection.
pub open spec fn distinct_match_ids(s: Seq<StoredMatchV>) -> bool {
    forall|j: int, k: int|
        0 <= j < k < s.len() ==> (#[trigger] s[j]).id != (#[trigger] s[k]).id
}

/// Round trip: after storing a user document under any identifier, a
/// lookup by its username yields that very document — username, password
/// and both counters included. The stated premise is needed: a document
/// with the same username already in the store would answer the lookup
/// first.
pub proof fn lemma_create_then_get_user(s: Seq<StoredUserV>, id: Seq<u8>, doc: UserDocV)
    requires
        forall|j: int| 0 <= j < s.len() ==> !user_matches(#[trigger] s[j], doc.username),
    ensures
        get_user_spec(s.push(StoredUserV { id, doc }), doc.username) == Some(doc),
{
    let s2 = s.push(StoredUserV { id, doc });
    lemma_first_user_index(s2, doc.username);
    let i = first_user_index(s2, doc.username);
    assert(user_matches(s2[s.len() as int], doc.username));
    assert(i >= 0);
    if i < s.len() {
        assert(s2[i] == s[i]);
        assert(false);
    }
    assert(i == s.len());
}

/// Replace semantics: updating by username is a whole-document replace,
/// not a merge. After the update, a lookup by that username yields the
/// new document in full — in particular the password is the new one,
/// whatever the old document held.
pub proof fn lemma_replace_then_get_user(s: Seq<StoredUserV>, name: Seq<char>, doc: UserDocV)
    requires
        has_user(s, name),
        doc.username == name,
    ensures
        get_user_spec(update_user_spec(s, name, doc), name) == Some(doc),
{
    lemma_first_user_index(s, name);
    let i = first_user_index(s, name);
    let s2 = s.update(i, StoredUserV { id: s[i].id, doc });
    lemma_first_user_index(s2, name);
    let i2 = first_user_index(s2, name);
    assert(user_matches(s2[i], name));
    assert(i2 >= 0);
    if i2 < i {
        assert(s2[i2] == s[i2]);
        assert(false);
    }
    if i2 > i {
        assert(!user_matches(s2[i], name));
        assert(false);
    }
    assert(get_user_spec(s2, name) == Some(doc));
}

/// Deletion: deleting by username removes exactly one document when one
/// matches and none otherwise, and a lookup afterwards finds nothing.
/// The stated premise — at most one stored document has the username —
/// is needed for the lookup claim: with two same-named documents the
/// second would survive the delete and answer the lookup.
pub proof fn lemma_delete_then_get_user(s: Seq<StoredUserV>, name: Seq<char>)
    requires
        forall|j: int, k: int|
            0 <= j < s.len() && 0 <= k < s.len() && user_matches(#[trigger] s[j], name)
                && user_matches(#[trigger] s[k], name) ==> j == k,
    ensures
        get_user_spec(delete_user_spec(s, name), name) is None,
        has_user(s, name) ==> delete_user_spec(s, name).len() == s.len() - 1,
        !has_user(s, name) ==> delete_user_spec(s, name) == s,
{
    lemma_first_user_index(s, name);
    let i = first_user_index(s, name);
    if i >= 0 {
        let s2 = s.remove(i);
        lemma_first_user_index(s2, name);
        let i2 = first_user_index(s2, name);
        if i2 >= 0 {
            assert(user_matches(s2[i2], name));
            if i2 < i {
                assert(s2[i2] == s[i2]);
            } else {
                assert(s2[i2] == s[i2 + 1]);
            }
            assert(false);
        }
    }
}

/// The store's unique-identifier rule is self-maintaining: an insert the
/// store accepts — one whose identifier is not yet present — keeps the
/// stored user identifiers pairwise distinct.
pub proof fn lemma_insert_keeps_user_ids_distinct(s: Seq<StoredUserV>, id: Seq<u8>, doc: UserDocV)
    requires
        distinct_user_ids(s),
        !contains_user_id(s, id),
    ensures
        distinct_user_ids(s.push(StoredUserV { id, doc })),
{
    let s2 = s.push(StoredUserV { id, doc });
    assert forall|j: int, k: int| 0 <= j < k < s2.len() implies (#[trigger] s2[j]).id != (
    #[trigger] s2[k]).id by {
        if k < s.len() {
            assert(s2[j] == s[j] && s2[k] == s[k]);
        } else {
            assert(s2[j] == s[j]);
            assert(s[j].id != id);
        }
    }
}

/// The counterpart of `lemma_insert_keeps_user_ids_distinct` for the
/// match-history collection.
pub proof fn lemma_insert_keeps_match_ids_distinct(
    s: Seq<StoredMatchV>,
    id: Seq<u8>,
    doc: MatchDocV,
)
    requires
        distinct_match_ids(s),
        !contains_match_id(s, id),
    ensures
        distinct_match_ids(s.push(StoredMatchV { id, doc })),
{
    lemma_first_match_index(s, id);
    let s2 = s.push(StoredMatchV { id, doc });
    assert forall|j: int, k: int| 0 <= j < k < s2.len() implies (#[trigger] s2[j]).id != (
    #[trigger] s2[k]).id by {
        if k < s.len() {
            assert(s2[j] == s[j] && s2[k] == s[k]);
        } else {
            assert(s2[j] == s[j]);
            assert(s[j].id != id);
        }
    }
}

/// An update never overwrites an existing identifier: a whole-document
/// replace leaves the sequence of stored identifiers unchanged, whichever
/// document it matched.
pub proof fn lemma_replace_keeps_match_ids(s: Seq<StoredMatchV>, id: Seq<u8>, doc: MatchDocV)
    ensures
        replace_match_spec(s, id, doc).len() == s.len(),
        forall|j: int| 0 <= j < s.len() ==> (#[trigger] replace_match_spec(s, id, doc)[j]).id
            == s[j].id,
{
    lemma_first_match_index(s, id);
}

/// The counterpart of `lemma_replace_keeps_match_ids` for updates of the
/// user collection, which match by username.
pub proof fn lemma_update_keeps_user_ids(s: Seq<StoredUserV>, name: Seq<char>, doc: UserDocV)
    ensures
        update_user_spec(s, name, doc).len() == s.len(),
        forall|j: int| 0 <= j < s.len() ==> (#[trigger] update_user_spec(s, name, doc)[j]).id
            == s[j].id,
{
    lemma_first_user_index(s, name);
}

} // verus!
