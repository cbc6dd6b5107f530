use api_service::model::{match_to_document, user_to_document, Match, User};
use api_service::oid::{parse_object_id, Oid};
use api_service::results::ApiError;
use api_service::service::{ApiService, StoredMatch, StoredUser};

fn user(username: &str, password: &str, wins: i32, losses: i32) -> User {
    User {
        id: None,
        username: String::from(username),
        password: String::from(password),
        wins,
        losses,
    }
}

fn game(winner: &str, loser: &str, game_type: i32, time: i64) -> Match {
    Match {
        id: None,
        winner: String::from(winner),
        loser: String::from(loser),
        game_type,
        time,
    }
}

fn empty_service() -> ApiService {
    ApiService::new(Vec::new(), Vec::new())
}

#[test]
fn user_round_trip() {
    let mut svc = empty_service();
    svc.create_user(&user("alice", "pw1", 3, 4)).unwrap();
    let doc = svc.get_user(&String::from("alice")).unwrap().unwrap();
    assert_eq!(doc.username, "alice");
    assert_eq!(doc.password, "pw1");
    assert_eq!(doc.wins, 3);
    assert_eq!(doc.losses, 4);
}

#[test]
fn get_user_absent_is_none() {
    let svc = empty_service();
    assert!(svc.get_user(&String::from("nobody")).unwrap().is_none());
}

#[test]
fn update_is_full_replace_not_merge() {
    let mut svc = empty_service();
    svc.create_user(&user("alice", "pw1", 0, 0)).unwrap();
    let outcome = svc
        .update_user(&user("alice", "pw2", 5, 1), &String::from("alice"))
        .unwrap();
    assert_eq!(outcome.matched_count, 1);
    assert_eq!(outcome.modified_count, 1);
    let doc = svc.get_user(&String::from("alice")).unwrap().unwrap();
    assert_eq!(doc.password, "pw2");
    assert_eq!(doc.wins, 5);
    assert_eq!(doc.losses, 1);
}

#[test]
fn update_missing_user_matches_nothing() {
    let mut svc = empty_service();
    svc.create_user(&user("alice", "pw1", 0, 0)).unwrap();
    let outcome = svc
        .update_user(&user("bob", "pw9", 9, 9), &String::from("bob"))
        .unwrap();
    assert_eq!(outcome.matched_count, 0);
    assert_eq!(outcome.modified_count, 0);
    let doc = svc.get_user(&String::from("alice")).unwrap().unwrap();
    assert_eq!(doc.password, "pw1");
}

#[test]
fn created_match_is_stamped_not_caller_timed() {
    let mut svc = empty_service();
    svc.create_match(&game("bob", "carol", 0, -5)).unwrap();
    let docs = svc.get_all_matches().unwrap();
    assert_eq!(docs.len(), 1);
    assert_ne!(docs[0].time, -5);
    assert!(docs[0].time > 0);
}

#[test]
fn match_query_finds_wins_and_losses() {
    let mut svc = empty_service();
    svc.create_match(&game("bob", "carol", 0, 0)).unwrap();
    svc.create_match(&game("carol", "bob", 1, 0)).unwrap();
    let for_bob = svc.get_matches(&String::from("bob")).unwrap();
    assert_eq!(for_bob.len(), 2);
    assert_eq!(for_bob[0].winner, "bob");
    assert_eq!(for_bob[0].loser, "carol");
    assert_eq!(for_bob[0].game_type, 0);
    assert_eq!(for_bob[1].winner, "carol");
    assert_eq!(for_bob[1].loser, "bob");
    assert_eq!(for_bob[1].game_type, 1);
    let for_dave = svc.get_matches(&String::from("dave")).unwrap();
    assert!(for_dave.is_empty());
}

#[test]
fn delete_user_removes_exactly_one() {
    let mut svc = empty_service();
    svc.create_user(&user("alice", "pw1", 0, 0)).unwrap();
    let first = svc.delete_user(&user("alice", "ignored", 7, 7)).unwrap();
    assert_eq!(first.deleted_count, 1);
    assert!(svc.get_user(&String::from("alice")).unwrap().is_none());
    let second = svc.delete_user(&user("alice", "ignored", 7, 7)).unwrap();
    assert_eq!(second.deleted_count, 0);
}

#[test]
fn malformed_id_is_recoverable_error() {
    let mut svc = empty_service();
    svc.create_match(&game("bob", "carol", 0, 0)).unwrap();
    let bad = String::from("not-a-valid-identifier!!");
    assert_eq!(
        svc.update_match(&game("x", "y", 1, 0), &bad),
        Err(ApiError::InvalidIdentifier)
    );
    assert_eq!(svc.delete_match(&bad), Err(ApiError::InvalidIdentifier));
    let short = String::from("0102030405060708090a0b");
    assert_eq!(svc.delete_match(&short), Err(ApiError::InvalidIdentifier));
    let long = String::from("0102030405060708090a0b0c0d");
    assert_eq!(svc.delete_match(&long), Err(ApiError::InvalidIdentifier));
    assert_eq!(svc.get_all_matches().unwrap().len(), 1);
}

#[test]
fn parse_object_id_exact_bytes() {
    let o = parse_object_id(&String::from("0102030405060708090a0b0c")).unwrap();
    assert_eq!(o.bytes, [1, 2, 3, 4, 5, 6, 7, 8, 9, 10, 11, 12]);
    let upper = parse_object_id(&String::from("AABBCCDDEEFF001122334455")).unwrap();
    assert_eq!(
        upper.bytes,
        [0xaa, 0xbb, 0xcc, 0xdd, 0xee, 0xff, 0x00, 0x11, 0x22, 0x33, 0x44, 0x55]
    );
}

#[test]
fn parse_object_id_rejects_non_hex() {
    assert!(parse_object_id(&String::from("0102030405060708090a0bZc")).is_err());
    assert!(parse_object_id(&String::from("")).is_err());
}

#[test]
fn oid_hex_round_trip() {
    let o = Oid {
        bytes: [0, 1, 2, 3, 4, 5, 6, 7, 8, 9, 10, 11],
    };
    let text = o.to_hex();
    assert_eq!(text, "000102030405060708090a0b");
    let back = parse_object_id(&text).unwrap();
    assert_eq!(back.bytes, o.bytes);
}

#[test]
fn duplicate_identifier_insert_is_rejected() {
    let mut svc = empty_service();
    let id = Oid { bytes: [7; 12] };
    svc.insert_user_doc(id, user_to_document(&user("alice", "pw", 0, 0)))
        .unwrap();
    let again = svc.insert_user_doc(id, user_to_document(&user("bob", "pw", 0, 0)));
    assert!(matches!(again, Err(ApiError::Store)));
}

#[test]
fn update_match_by_id_replaces_and_restamps() {
    let mut svc = empty_service();
    let id = Oid { bytes: [1; 12] };
    svc.insert_match_doc(id, match_to_document(&game("bob", "carol", 0, 0), -9))
        .unwrap();
    let outcome = svc
        .update_match(&game("carol", "bob", 1, -7), &id.to_hex())
        .unwrap();
    assert_eq!(outcome.matched_count, 1);
    assert_eq!(outcome.modified_count, 1);
    let docs = svc.get_all_matches().unwrap();
    assert_eq!(docs.len(), 1);
    assert_eq!(docs[0].winner, "carol");
    assert_eq!(docs[0].loser, "bob");
    assert_eq!(docs[0].game_type, 1);
    assert_ne!(docs[0].time, -7);
}

#[test]
fn update_match_unknown_id_matches_nothing() {
    let mut svc = empty_service();
    let absent = Oid { bytes: [9; 12] };
    let outcome = svc
        .update_match(&game("x", "y", 0, 0), &absent.to_hex())
        .unwrap();
    assert_eq!(outcome.matched_count, 0);
    assert_eq!(outcome.modified_count, 0);
}

#[test]
fn delete_match_by_id_removes_that_document() {
    let mut svc = empty_service();
    let first = Oid { bytes: [1; 12] };
    let second = Oid { bytes: [2; 12] };
    svc.insert_match_doc(first, match_to_document(&game("bob", "carol", 0, 0), 10))
        .unwrap();
    svc.insert_match_doc(second, match_to_document(&game("carol", "bob", 1, 0), 20))
        .unwrap();
    let outcome = svc.delete_match(&first.to_hex()).unwrap();
    assert_eq!(outcome.deleted_count, 1);
    let docs = svc.get_all_matches().unwrap();
    assert_eq!(docs.len(), 1);
    assert_eq!(docs[0].winner, "carol");
    let again = svc.delete_match(&first.to_hex()).unwrap();
    assert_eq!(again.deleted_count, 0);
}

#[test]
fn lookup_by_username_finds_first_occurrence() {
    let mut svc = empty_service();
    svc.create_user(&user("alice", "first", 1, 0)).unwrap();
    svc.create_user(&user("alice", "second", 2, 0)).unwrap();
    let doc = svc.get_user(&String::from("alice")).unwrap().unwrap();
    assert_eq!(doc.password, "first");
}

#[test]
fn user_document_carries_fields_and_no_id() {
    let d = user_to_document(&user("alice", "pw", 2, 9));
    assert_eq!(d.username, "alice");
    assert_eq!(d.password, "pw");
    assert_eq!(d.wins, 2);
    assert_eq!(d.losses, 9);
}

#[test]
fn match_document_takes_supplied_write_time() {
    let d = match_to_document(&game("bob", "carol", 1, 99), 42);
    assert_eq!(d.winner, "bob");
    assert_eq!(d.loser, "carol");
    assert_eq!(d.game_type, 1);
    assert_eq!(d.time, 42);
}

#[test]
fn service_over_prepopulated_collections() {
    let users = vec![StoredUser {
        id: Oid { bytes: [3; 12] },
        doc: user_to_document(&user("carol", "pw", 0, 1)),
    }];
    let history = vec![StoredMatch {
        id: Oid { bytes: [4; 12] },
        doc: match_to_document(&game("carol", "bob", 0, 0), 5),
    }];
    let svc = ApiService::new(users, history);
    assert_eq!(
        svc.get_user(&String::from("carol")).unwrap().unwrap().password,
        "pw"
    );
    assert_eq!(svc.get_matches(&String::from("carol")).unwrap().len(), 1);
}

#[test]
fn update_keeps_identifier() {
    let mut svc = empty_service();
    let id = Oid { bytes: [5; 12] };
    svc.insert_match_doc(id, match_to_document(&game("bob", "carol", 0, 0), 1))
        .unwrap();
    svc.update_match(&game("carol", "bob", 1, 0), &id.to_hex())
        .unwrap();
    let outcome = svc.delete_match(&id.to_hex()).unwrap();
    assert_eq!(outcome.deleted_count, 1);
}

#[test]
fn create_match_at_takes_exactly_the_write_time() {
    let mut svc = empty_service();
    svc.create_match_at(&game("bob", "carol", 1, -99), 777)
        .unwrap();
    let docs = svc.get_all_matches().unwrap();
    assert_eq!(docs.len(), 1);
    assert_eq!(docs[0].time, 777);
    assert_eq!(docs[0].winner, "bob");
}
