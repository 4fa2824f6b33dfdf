use std::collections::HashMap;

use identity_store::handlers::{create_user_handler, signed_message, CreateUserRequest, Response};
use identity_store::pub_keys::PubKeys;
use identity_store::user::{keys_key, Action, Event, ResolveError, UserRecord, UserResolution};
use sessionless::Sessionless;

type Store = (Option<PubKeys>, HashMap<String, UserRecord>, usize);

/// Carries out the actions of a resolution on an in-memory store until it
/// finishes; the third part of the store counts the user writes.
fn drive(store: &mut Store, res: &mut UserResolution, first: Action) -> Result<String, ResolveError> {
    let mut action = first;
    loop {
        action = match action {
            Action::LoadKeys => res.step(Event::KeysLoaded { keys: store.0.clone() }),
            Action::PutUser { user } => {
                store.2 += 1;
                store.1.insert(user.storage_key(), user);
                res.step(Event::Stored { ok: true })
            }
            Action::PutKeys { keys } => {
                store.0 = Some(keys);
                res.step(Event::Stored { ok: true })
            }
            Action::Finish { result } => return result,
        };
    }
}

fn signed_request(sessionless: &Sessionless, timestamp: &str, hash: &str) -> CreateUserRequest {
    let pub_key = sessionless.public_key().to_string();
    let message = format!("{}{}{}", timestamp, pub_key, hash);
    let signature = sessionless.sign(message);
    CreateUserRequest {
        pub_key,
        timestamp: timestamp.to_string(),
        hash: hash.to_string(),
        signature: signature.to_string(),
    }
}

#[test]
fn test_create_user_handler() {
    let sessionless = Sessionless::new();
    let pub_key = sessionless.public_key();
    let timestamp = "1718000000".to_string();
    let hash = "random_hash".to_string();
    let payload = signed_request(&sessionless, &timestamp, &hash);

    let mut store: Store = (None, HashMap::new(), 0);
    let (mut res, first) = match create_user_handler(&payload) {
        Ok(started) => started,
        Err(_) => panic!("a valid request is accepted"),
    };
    let response = Response::from_resolution(drive(&mut store, &mut res, first));

    match response {
        Response::User { user_uuid } => {
            assert_eq!(user_uuid.is_empty(), false);
            // the user record is stored under its key
            assert!(store.1.contains_key(&format!("user:{}", user_uuid)));
            // the keys record exists and maps the pair to the identifier
            let key = PubKeys::key(&hash.clone(), &pub_key.to_string());
            let pub_keys = store.0.clone().expect("Failed to read keys");
            assert!(pub_keys.num_keys() == 1);
            assert!(pub_keys.get_user_uuid(key.as_str()).is_some());
            assert_eq!(pub_keys.get_user_uuid(key.as_str()).unwrap(), &user_uuid);
        }
        _ => {
            assert!(false);
        }
    }
}

#[test]
fn test_create_user_handler_auth_error() {
    let sessionless = Sessionless::new();
    let pub_key = sessionless.public_key();
    let timestamp = "1718000000".to_string();
    let hash = "random_hash".to_string();
    let expected_code = 403;

    let invalid_payload = CreateUserRequest {
        pub_key: pub_key.to_string(),
        timestamp: timestamp.clone(),
        hash: hash.clone(),
        signature: "invalid_signature".to_string(),
    };
    match create_user_handler(&invalid_payload) {
        Err(Response::Error { code, message }) => {
            assert_eq!(code, expected_code);
            assert_eq!(message, "Auth Error");
        }
        _ => {
            assert!(false);
        }
    }

    let message = format!("{}{}{}", &timestamp, pub_key, &hash);
    let signature = sessionless.sign(message);
    let invalid_payload = CreateUserRequest {
        pub_key: "invalid_pub_key".to_string(),
        timestamp: timestamp.clone(),
        hash: hash.clone(),
        signature: signature.to_string(),
    };
    match create_user_handler(&invalid_payload) {
        Err(Response::Error { code, message }) => {
            assert_eq!(code, expected_code);
            assert_eq!(message, "Auth Error");
        }
        _ => {
            assert!(false);
        }
    }
}

#[test]
fn signature_over_other_message_is_refused() {
    let sessionless = Sessionless::new();
    let mut payload = signed_request(&sessionless, "1718000000", "random_hash");
    payload.hash = "other_hash".to_string();
    assert!(matches!(create_user_handler(&payload), Err(Response::Error { code: 403, .. })));
}

#[test]
fn signed_message_concatenates_in_order() {
    let req = CreateUserRequest {
        pub_key: "PK".to_string(),
        timestamp: "123".to_string(),
        hash: "H".to_string(),
        signature: String::new(),
    };
    assert_eq!(signed_message(&req), "123PKH");
}

#[test]
fn resolving_twice_gives_same_identifier() {
    let mut store: Store = (None, HashMap::new(), 0);
    let (mut r1, a1) = UserResolution::start("pk".to_string(), "h".to_string());
    let first = drive(&mut store, &mut r1, a1).expect("first resolution succeeds");
    assert_eq!(first.len(), 36);
    assert_eq!(store.2, 1);
    let (mut r2, a2) = UserResolution::start("pk".to_string(), "h".to_string());
    let second = drive(&mut store, &mut r2, a2).expect("second resolution succeeds");
    assert_eq!(second, first);
    assert_eq!(store.2, 1);
    assert_eq!(store.0.as_ref().map(|k| k.num_keys()), Some(1));
}

#[test]
fn distinct_pairs_get_distinct_users() {
    let mut store: Store = (None, HashMap::new(), 0);
    let (mut r1, a1) = UserResolution::start("pk".to_string(), "h1".to_string());
    let u1 = drive(&mut store, &mut r1, a1).unwrap();
    let (mut r2, a2) = UserResolution::start("pk".to_string(), "h2".to_string());
    let u2 = drive(&mut store, &mut r2, a2).unwrap();
    assert_ne!(u1, u2);
    assert_eq!(store.0.as_ref().map(|k| k.num_keys()), Some(2));
    assert_eq!(store.1.len(), 2);
}

#[test]
fn concurrent_resolutions_leave_one_indexed() {
    let mut keys: Option<PubKeys> = None;
    let mut users: HashMap<String, UserRecord> = HashMap::new();
    let (mut a, _) = UserResolution::start("pk".to_string(), "h".to_string());
    let (mut b, _) = UserResolution::start("pk".to_string(), "h".to_string());
    // both look up before either writes
    let pa = a.advance(Event::KeysLoaded { keys: keys.clone() }, "id-a".to_string());
    let pb = b.advance(Event::KeysLoaded { keys: keys.clone() }, "id-b".to_string());
    for p in [pa, pb] {
        match p {
            Action::PutUser { user } => {
                users.insert(user.storage_key(), user);
            }
            _ => panic!("a miss stores a new user"),
        }
    }
    let la = a.advance(Event::Stored { ok: true }, String::new());
    let lb = b.advance(Event::Stored { ok: true }, String::new());
    assert!(matches!(la, Action::LoadKeys) && matches!(lb, Action::LoadKeys));
    let ka = a.advance(Event::KeysLoaded { keys: keys.clone() }, String::new());
    let kb = b.advance(Event::KeysLoaded { keys: keys.clone() }, String::new());
    for k in [ka, kb] {
        match k {
            Action::PutKeys { keys: written } => keys = Some(written),
            _ => panic!("the index is written next"),
        }
    }
    let ra = a.advance(Event::Stored { ok: true }, String::new());
    let rb = b.advance(Event::Stored { ok: true }, String::new());
    assert!(matches!(ra, Action::Finish { result: Ok(ref u) } if u == "id-a"));
    assert!(matches!(rb, Action::Finish { result: Ok(ref u) } if u == "id-b"));
    assert_eq!(users.len(), 2);
    let keys = keys.unwrap();
    assert_eq!(keys.num_keys(), 1);
    assert_eq!(keys.get_user_uuid(&PubKeys::key("h", "pk")), Some(&"id-b".to_string()));
}

#[test]
fn failed_user_write_leaves_index_alone() {
    let (mut r, _) = UserResolution::start("pk".to_string(), "h".to_string());
    let put = r.advance(Event::KeysLoaded { keys: None }, "id".to_string());
    match put {
        Action::PutUser { user } => {
            assert_eq!(user.uuid, "id");
            assert_eq!(user.pub_key, "pk");
            assert_eq!(user.hash, "h");
            assert_eq!(user.storage_key(), "user:id");
        }
        _ => panic!("a miss stores a new user"),
    }
    let done = r.advance(Event::Stored { ok: false }, String::new());
    assert!(matches!(done, Action::Finish { result: Err(ResolveError::PutUser) }));
    assert!(r.is_finished());
}

#[test]
fn failed_index_write_is_reported() {
    let (mut r, _) = UserResolution::start("pk".to_string(), "h".to_string());
    r.advance(Event::KeysLoaded { keys: None }, "id".to_string());
    r.advance(Event::Stored { ok: true }, String::new());
    r.advance(Event::KeysLoaded { keys: None }, String::new());
    let done = r.advance(Event::Stored { ok: false }, String::new());
    assert!(matches!(done, Action::Finish { result: Err(ResolveError::UpdateKeys) }));
}

#[test]
fn out_of_order_event_finishes() {
    let (mut r, _) = UserResolution::start("pk".to_string(), "h".to_string());
    let done = r.advance(Event::Stored { ok: true }, "id".to_string());
    assert!(matches!(done, Action::Finish { result: Err(ResolveError::OutOfOrder) }));
    assert!(r.is_finished());
}

#[test]
fn responses_for_outcomes() {
    match Response::from_resolution(Ok("abc".to_string())) {
        Response::User { user_uuid } => assert_eq!(user_uuid, "abc"),
        _ => panic!("expected a user"),
    }
    match Response::from_resolution(Err(ResolveError::PutUser)) {
        Response::Error { code, message } => {
            assert_eq!(code, 500);
            assert_eq!(message, "Failed to put user");
        }
        _ => panic!("expected an error"),
    }
    match Response::from_resolution(Err(ResolveError::UpdateKeys)) {
        Response::Error { code, message } => {
            assert_eq!(code, 500);
            assert_eq!(message, "Failed to update keys");
        }
        _ => panic!("expected an error"),
    }
}

#[test]
fn keys_record_key() {
    assert_eq!(keys_key(), "keys");
}
