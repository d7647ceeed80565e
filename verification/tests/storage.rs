use hostbridge::storage::{
    get_storage, read_result, set_storage, write_result, SaveError, Scope, Storage,
};

#[test]
fn set_then_get_in_durable_scope() {
    let mut store = Storage::new(8);
    assert_eq!(set_storage(&mut store, true, "p1", "v1"), Ok(()));
    assert_eq!(get_storage(&store, true, "p1"), Ok("v1".to_string()));
}

#[test]
fn set_then_get_in_session_scope() {
    let mut store = Storage::new(8);
    assert_eq!(set_storage(&mut store, false, "p1", "v1"), Ok(()));
    assert_eq!(get_storage(&store, false, "p1"), Ok("v1".to_string()));
}

#[test]
fn get_of_a_missing_key_in_session_scope() {
    let store = Storage::new(8);
    assert_eq!(
        get_storage(&store, false, "missing"),
        Err(SaveError::SaveNotFound("missing".to_string()))
    );
}

#[test]
fn get_of_a_missing_key_beside_other_records() {
    let mut store = Storage::new(8);
    assert_eq!(set_storage(&mut store, false, "present", "v"), Ok(()));
    assert_eq!(
        get_storage(&store, false, "missing"),
        Err(SaveError::SaveNotFound("missing".to_string()))
    );
    assert_eq!(
        get_storage(&store, true, "missing"),
        Err(SaveError::SaveNotFound("missing".to_string()))
    );
}

#[test]
fn durable_write_is_not_seen_in_session_scope() {
    let mut store = Storage::new(8);
    assert_eq!(set_storage(&mut store, true, "p1", "v1"), Ok(()));
    assert_eq!(get_storage(&store, false, "p1"), Err(SaveError::SaveNotFound("p1".to_string())));
    assert_eq!(store.len(Scope::Durable), 1);
    assert_eq!(store.len(Scope::Session), 0);
}

#[test]
fn session_write_is_not_seen_in_durable_scope() {
    let mut store = Storage::new(8);
    assert_eq!(set_storage(&mut store, false, "p1", "v1"), Ok(()));
    assert_eq!(get_storage(&store, true, "p1"), Err(SaveError::SaveNotFound("p1".to_string())));
}

#[test]
fn scopes_hold_their_own_value_for_one_key() {
    let mut store = Storage::new(8);
    assert_eq!(set_storage(&mut store, true, "p1", "durable"), Ok(()));
    assert_eq!(set_storage(&mut store, false, "p1", "session"), Ok(()));
    assert_eq!(get_storage(&store, true, "p1"), Ok("durable".to_string()));
    assert_eq!(get_storage(&store, false, "p1"), Ok("session".to_string()));
}

#[test]
fn a_second_write_replaces_the_value() {
    let mut store = Storage::new(8);
    assert_eq!(set_storage(&mut store, true, "p1", "v1"), Ok(()));
    assert_eq!(set_storage(&mut store, true, "p2", "other"), Ok(()));
    assert_eq!(set_storage(&mut store, true, "p1", "v2"), Ok(()));
    assert_eq!(get_storage(&store, true, "p1"), Ok("v2".to_string()));
    assert_eq!(get_storage(&store, true, "p2"), Ok("other".to_string()));
    assert_eq!(store.len(Scope::Durable), 2);
}

#[test]
fn empty_key_and_value_are_records_too() {
    let mut store = Storage::new(2);
    assert_eq!(set_storage(&mut store, true, "", ""), Ok(()));
    assert_eq!(get_storage(&store, true, ""), Ok(String::new()));
    assert_eq!(get_storage(&store, true, " "), Err(SaveError::SaveNotFound(" ".to_string())));
}

#[test]
fn a_full_scope_refuses_a_new_key() {
    let mut store = Storage::new(2);
    assert_eq!(store.capacity(), 2);
    assert_eq!(set_storage(&mut store, true, "a", "1"), Ok(()));
    assert_eq!(set_storage(&mut store, true, "b", "2"), Ok(()));
    assert_eq!(set_storage(&mut store, true, "c", "3"), Err(SaveError::SaveWriteFailed));
    assert_eq!(get_storage(&store, true, "c"), Err(SaveError::SaveNotFound("c".to_string())));
    assert_eq!(get_storage(&store, true, "a"), Ok("1".to_string()));
    assert_eq!(get_storage(&store, true, "b"), Ok("2".to_string()));
    assert_eq!(store.len(Scope::Durable), 2);
}

#[test]
fn a_full_scope_takes_a_write_to_a_key_it_holds() {
    let mut store = Storage::new(1);
    assert_eq!(set_storage(&mut store, false, "a", "1"), Ok(()));
    assert_eq!(set_storage(&mut store, false, "a", "2"), Ok(()));
    assert_eq!(get_storage(&store, false, "a"), Ok("2".to_string()));
}

#[test]
fn a_full_scope_leaves_room_in_the_other() {
    let mut store = Storage::new(1);
    assert_eq!(set_storage(&mut store, true, "a", "1"), Ok(()));
    assert_eq!(set_storage(&mut store, true, "b", "2"), Err(SaveError::SaveWriteFailed));
    assert_eq!(set_storage(&mut store, false, "b", "2"), Ok(()));
    assert_eq!(get_storage(&store, false, "b"), Ok("2".to_string()));
}

#[test]
fn a_store_without_room_refuses_every_write() {
    let mut store = Storage::new(0);
    assert_eq!(set_storage(&mut store, true, "p1", "v1"), Err(SaveError::SaveWriteFailed));
    assert_eq!(set_storage(&mut store, false, "p1", "v1"), Err(SaveError::SaveWriteFailed));
    assert_eq!(get_storage(&store, true, "p1"), Err(SaveError::SaveNotFound("p1".to_string())));
    assert_eq!(store.len(Scope::Durable), 0);
    assert_eq!(store.len(Scope::Session), 0);
}

#[test]
fn get_returns_only_what_was_set() {
    let mut store = Storage::new(3);
    let writes = [
        (true, "a", "1"),
        (false, "a", "2"),
        (true, "b", "3"),
        (true, "a", "4"),
        (false, "c", "5"),
        (true, "c", "6"),
        (true, "d", "7"),
    ];
    for (is_local, key, value) in writes {
        let _ = set_storage(&mut store, is_local, key, value);
    }
    for is_local in [true, false] {
        for key in ["a", "b", "c", "d", "e"] {
            if let Ok(found) = get_storage(&store, is_local, key) {
                assert!(writes.contains(&(is_local, key, found.as_str())));
            }
        }
    }
    assert_eq!(get_storage(&store, true, "a"), Ok("4".to_string()));
    assert_eq!(get_storage(&store, true, "d"), Err(SaveError::SaveNotFound("d".to_string())));
}

#[test]
fn scope_of_the_flag() {
    assert_eq!(Scope::select(true), Scope::Durable);
    assert_eq!(Scope::select(false), Scope::Session);
}

#[test]
fn host_answers_are_read() {
    assert_eq!(write_result(true), Ok(()));
    assert_eq!(write_result(false), Err(SaveError::SaveWriteFailed));
    assert_eq!(read_result(Some("v1".to_string()), "p1"), Ok("v1".to_string()));
    assert_eq!(read_result(None, "p1"), Err(SaveError::SaveNotFound("p1".to_string())));
}
