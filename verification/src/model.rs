use vstd::prelude::*;
use crate::oid::Oid;

verus! {

/// A player profile. The identifier is store-assigned and absent until the
/// profile is persisted. The username is an intended unique key, but this
/// layer does not enforce uniqueness; the password is held as plain text;
/// wins and losses are plain counters that nothing here derives from the
/// match history.
#[derive(Clone, Debug)]
pub struct User {
    pub id: Option<Oid>,
    pub username: String,
    pub password: String,
    pub wins: i32,
    pub losses: i32,
}

/// Mathematical shape of a `User`.
pub ghost struct UserV {
    pub id: Option<Seq<u8>>,
    pub username: Seq<char>,
    pub password: Seq<char>,
    pub wins: int,
    pub losses: int,
}

impl View for User {
    type V = UserV;

    open spec fn view(&self) -> UserV {
        UserV {
            id: match self.id {
                Some(o) => Some(o@),
                None => None,
            },
            username: self.username@,
            password: self.password@,
            wins: self.wins as int,
            losses: self.losses as int,
        }
    }
}

/// A match-history record. `game_type` is a small integer code (0 and 1
/// are the two known games); no validation is applied to it here. The
/// `time` field is read on the way out of the store but never written
/// verbatim: the service stamps the wall-clock time on every write.
#[derive(Clone, Debug)]
pub struct Match {
    pub id: Option<Oid>,
    pub winner: String,
    pub loser: String,
    pub game_type: i32,
    pub time: i64,
}

/// Mathematical shape of a `Match`.
pub ghost struct MatchV {
    pub id: Option<Seq<u8>>,
    pub winner: Seq<char>,
    pub loser: Seq<char>,
    pub game_type: int,
    pub time: int,
}

impl View for Match {
    type V = MatchV;

    open spec fn view(&self) -> MatchV {
        MatchV {
            id: match self.id {
                Some(o) => Some(o@),
                None => None,
            },
            winner: self.winner@,
            loser: self.loser@,
            game_type: self.game_type as int,
            time: self.time as int,
        }
    }
}

/// The storage document of a user: username, password, wins, losses.
/// The identifier is deliberately no field of the document, so that an
/// insert lets the store assign one and an update never overwrites one.
#[derive(Clone, Debug)]
pub struct UserDocument {
    pub username: String,
    pub password: String,
    pub wins: i32,
    pub losses: i32,
}

/// Mathematical shape of a `UserDocument`.
pub ghost struct UserDocV {
    pub username: Seq<char>,
    pub password: Seq<char>,
    pub wins: int,
    pub losses: int,
}

impl View for UserDocument {
    type V = UserDocV;

    open spec fn view(&self) -> UserDocV {
        UserDocV {
            username: self.username@,
            password: self.password@,
            wins: self.wins as int,
            losses: self.losses as int,
        }
    }
}

/// The storage document of a match: winner, loser, game_type, time.
/// As with users, the identifier is no field of the document.
#[derive(Clone, Debug)]
pub struct MatchDocument {
    pub winner: String,
    pub loser: String,
    pub game_type: i32,
    pub time: i64,
}

/// Mathematical shape of a `MatchDocument`.
pub ghost struct MatchDocV {
    pub winner: Seq<char>,
    pub loser: Seq<char>,
    pub game_type: int,
    pub time: int,
}

impl View for MatchDocument {
    type V = MatchDocV;

    open spec fn view(&self) -> MatchDocV {
        MatchDocV {
            winner: self.winner@,
            loser: self.loser@,
            game_type: self.game_type as int,
            time: self.time as int,
        }
    }
}

/// The document a user maps to: every profile field, no identifier.
pub open spec fn user_doc_of(u: UserV) -> UserDocV {
    UserDocV { username: u.username, password: u.password, wins: u.wins, losses: u.losses }
}

/// The document a match maps to when written at time `now`: winner, loser
/// and game_type come from the match, the time is `now` — the match's own
/// `time` field is not read.
pub open spec fn match_doc_of(m: MatchV, now: int) -> MatchDocV {
    MatchDocV { winner: m.winner, loser: m.loser, game_type: m.game_type, time: now }
}

impl UserDocument {
    /// A copy of this document with the same contents.
    pub fn duplicate(&self) -> (r: UserDocument)
        ensures
            r@ == self@,
    {
        UserDocument {
            username: self.username.clone(),
            password: self.password.clone(),
            wins: self.wins,
            losses: self.losses,
        }
    }
}

impl MatchDocument {
    /// A copy of this document with the same contents.
    pub fn duplicate(&self) -> (r: MatchDocument)
        ensures
            r@ == self@,
    {
        MatchDocument {
            winner: self.winner.clone(),
            loser: self.loser.clone(),
            game_type: self.game_type,
            time: self.time,
        }
    }
}

/// Map a user to its storage document: username, password, wins and
/// losses pass through unchanged (no validation), the identifier is
/// omitted.
pub fn user_to_document(user: &User) -> (d: UserDocument)
    ensures
        d@ == user_doc_of(user@),
{
    UserDocument {
        username: user.username.clone(),
        password: user.password.clone(),
        wins: user.wins,
        losses: user.losses,
    }
}

/// Map a match to its storage document as written at time `now`. The
/// match's own `time` field is ignored: the service stamps the write time.
pub fn match_to_document(match_data: &Match, now: i64) -> (d: MatchDocument)
    ensures
        d@ == match_doc_of(match_data@, now as int),
{
    MatchDocument {
        winner: match_data.winner.clone(),
        loser: match_data.loser.clone(),
        game_type: match_data.game_type,
        time: now,
    }
}

/// Timestamp independence: two matches that agree on winner, loser and
/// game_type map to the same document at any write time, whatever their
/// own `time` fields hold.
pub proof fn lemma_timestamp_independence(m1: MatchV, m2: MatchV, now: int)
    requires
        m1.winner == m2.winner,
        m1.loser == m2.loser,
        m1.game_type == m2.game_type,
    ensures
        match_doc_of(m1, now) == match_doc_of(m2, now),
{
}

} // verus!
