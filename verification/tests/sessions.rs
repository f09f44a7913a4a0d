use redis_session_manager::error::SessionError;
use redis_session_manager::link::StoreCommand;
use redis_session_manager::session::{Session, SessionManager};
use redis_session_manager::store::MappingStore;
use redis_session_manager::time::Timestamp;

fn s(text: &str) -> String {
    text.to_string()
}

fn at(secs: i64) -> Timestamp {
    Timestamp::new(secs, 0).unwrap()
}

fn sorted(mut lines: Vec<String>) -> Vec<String> {
    lines.sort();
    lines
}

#[test]
fn a_new_session_has_no_data_and_one_time() {
    let session = Session::new(s("id-1"), s("alice"), at(100));
    assert_eq!(session.id(), "id-1");
    assert_eq!(session.user_key(), "alice");
    assert_eq!(session.created_at().seconds(), 100);
    assert_eq!(session.last_accessed().seconds(), 100);
    assert_eq!(session.data().len(), 0);
}

#[test]
fn the_summary_names_id_key_and_creation_time() {
    let session = Session::new(s("id-1"), s("alice-key"), at(0));
    assert_eq!(session.summary(), "ID: id-1, Key: alice-key, Created: 1970-01-01T00:00:00+00:00");
}

#[test]
fn the_summary_keeps_the_creation_time_after_an_access() {
    let mut session = Session::new(s("id-1"), s("alice-key"), at(0));
    session.touch(at(86_400));
    assert_eq!(session.summary(), "ID: id-1, Key: alice-key, Created: 1970-01-01T00:00:00+00:00");
}

#[test]
fn touching_moves_the_last_access_forward() {
    let mut session = Session::new(s("id-1"), s("alice"), at(100));
    session.touch(at(150));
    assert_eq!(session.last_accessed().seconds(), 150);
    assert_eq!(session.created_at().seconds(), 100);
    assert_eq!(session.id(), "id-1");
    assert_eq!(session.user_key(), "alice");
}

#[test]
fn touching_never_moves_the_last_access_back() {
    let mut session = Session::new(s("id-1"), s("alice"), at(100));
    session.touch(at(150));
    session.touch(at(120));
    assert_eq!(session.last_accessed().seconds(), 150);
    session.touch(at(150));
    assert_eq!(session.last_accessed().seconds(), 150);
}

#[test]
fn data_is_attached_and_read_back() {
    let mut session = Session::new(s("id-1"), s("alice"), at(100));
    session.put(s("lang"), s("en"), at(110));
    assert_eq!(session.last_accessed().seconds(), 110);
    assert_eq!(session.read(&s("lang"), at(120)), Some(s("en")));
    assert_eq!(session.last_accessed().seconds(), 120);
    assert_eq!(session.read(&s("theme"), at(130)), None);
    assert_eq!(session.last_accessed().seconds(), 130);
    session.put(s("lang"), s("fr"), at(140));
    assert_eq!(session.data().get(&s("lang")), Some(&s("fr")));
    assert_eq!(session.data().len(), 1);
}

#[test]
fn session_data_is_apart_from_other_sessions() {
    let mut manager = SessionManager::new();
    manager.insert(Session::new(s("one"), s("alice"), at(1)));
    manager.insert(Session::new(s("two"), s("bob"), at(2)));
    assert_eq!(manager.add_session_data(&s("one"), s("lang"), s("en"), at(3)), Ok(()));
    assert_eq!(manager.get_session_data(&s("one"), &s("lang"), at(4)), Ok(Some(s("en"))));
    assert_eq!(manager.get_session_data(&s("two"), &s("lang"), at(5)), Ok(None));
}

#[test]
fn data_of_an_unknown_session_is_an_error() {
    let mut manager = SessionManager::new();
    assert_eq!(
        manager.add_session_data(&s("ghost"), s("k"), s("v"), at(1)),
        Err(SessionError::NotFound(s("ghost")))
    );
    assert_eq!(
        manager.get_session_data(&s("ghost"), &s("k"), at(1)),
        Err(SessionError::NotFound(s("ghost")))
    );
    assert_eq!(manager.len(), 0);
}

#[test]
fn reading_and_writing_data_touch_the_session() {
    let mut manager = SessionManager::new();
    manager.insert(Session::new(s("one"), s("alice"), at(10)));
    manager.add_session_data(&s("one"), s("k"), s("v"), at(20)).unwrap();
    assert_eq!(manager.get_session(&s("one")).unwrap().last_accessed().seconds(), 20);
    manager.get_session_data(&s("one"), &s("k"), at(30)).unwrap();
    assert_eq!(manager.get_session(&s("one")).unwrap().last_accessed().seconds(), 30);
    manager.get_session_data(&s("one"), &s("missing"), at(40)).unwrap();
    assert_eq!(manager.get_session(&s("one")).unwrap().last_accessed().seconds(), 40);
    assert_eq!(manager.get_session(&s("one")).unwrap().created_at().seconds(), 10);
}

#[test]
fn get_session_does_not_touch() {
    let mut manager = SessionManager::new();
    manager.insert(Session::new(s("one"), s("alice"), at(10)));
    let _ = manager.get_session(&s("one"));
    let _ = manager.list_sessions();
    assert_eq!(manager.get_session(&s("one")).unwrap().last_accessed().seconds(), 10);
    assert!(manager.get_session(&s("two")).is_none());
}

#[test]
fn list_has_one_line_for_each_session() {
    let mut manager = SessionManager::new();
    assert_eq!(manager.list_sessions(), Vec::<String>::new());
    manager.insert(Session::new(s("one"), s("alice"), at(0)));
    manager.insert(Session::new(s("two"), s("bob"), at(60)));
    assert_eq!(
        sorted(manager.list_sessions()),
        vec![
            s("ID: one, Key: alice, Created: 1970-01-01T00:00:00+00:00"),
            s("ID: two, Key: bob, Created: 1970-01-01T00:01:00+00:00"),
        ]
    );
}

#[test]
fn attach_touches_what_is_there_and_makes_what_is_missing() {
    let mut manager = SessionManager::new();
    assert!(!manager.attach(s("one"), s("alice"), at(10)));
    assert_eq!(manager.get_session(&s("one")).unwrap().user_key(), "alice");
    assert!(manager.attach(s("one"), s("mallory"), at(20)));
    let session = manager.get_session(&s("one")).unwrap();
    assert_eq!(session.user_key(), "alice");
    assert_eq!(session.created_at().seconds(), 10);
    assert_eq!(session.last_accessed().seconds(), 20);
    assert_eq!(manager.len(), 1);
}

#[test]
fn detach_hands_the_session_over() {
    let mut manager = SessionManager::new();
    manager.insert(Session::new(s("one"), s("alice"), at(10)));
    manager.add_session_data(&s("one"), s("k"), s("v"), at(11)).unwrap();
    let taken = manager.detach(&s("one")).unwrap();
    assert_eq!(taken.id(), "one");
    assert_eq!(taken.data().get(&s("k")), Some(&s("v")));
    assert!(manager.get_session(&s("one")).is_none());
    assert!(manager.detach(&s("one")).is_none());
    manager.insert(taken);
    assert_eq!(manager.get_session(&s("one")).unwrap().user_key(), "alice");
}

#[test]
fn insert_replaces_the_session_of_the_same_id() {
    let mut manager = SessionManager::new();
    manager.insert(Session::new(s("one"), s("alice"), at(10)));
    manager.insert(Session::new(s("one"), s("bob"), at(20)));
    assert_eq!(manager.len(), 1);
    assert_eq!(manager.get_session(&s("one")).unwrap().user_key(), "bob");
}

#[test]
fn each_failure_has_its_text() {
    assert_eq!(SessionError::NotFound(s("abc")).message(), "Session not found: abc");
    assert_eq!(
        SessionError::LinkFailed(StoreCommand::Assign, s("boom")).message(),
        "Failed to call custom.set: boom"
    );
    assert_eq!(
        SessionError::LinkFailed(StoreCommand::Remove, s("boom")).message(),
        "Failed to call custom.del: boom"
    );
    assert_eq!(
        SessionError::LinkFailed(StoreCommand::Lookup, s("")).message(),
        "Failed to call custom.get: "
    );
    assert_eq!(SessionError::UnexpectedReply.message(), "unexpected result type");
}

#[test]
fn a_session_is_put_together_from_its_parts() {
    let mut data = MappingStore::new();
    data.set(s("lang"), s("en"));
    let session = Session::from_parts(s("id-1"), s("alice"), at(10), at(20), data);
    assert_eq!(session.id(), "id-1");
    assert_eq!(session.user_key(), "alice");
    assert_eq!(session.created_at().seconds(), 10);
    assert_eq!(session.last_accessed().seconds(), 20);
    assert_eq!(session.data().get(&s("lang")), Some(&s("en")));
}

#[test]
fn sessions_with_equal_summaries_are_each_listed() {
    let mut manager = SessionManager::new();
    manager.insert(Session::new(s("x"), s("y, Key: z"), at(0)));
    manager.insert(Session::new(s("x, Key: y"), s("z"), at(0)));
    manager.insert(Session::new(s("other"), s("w"), at(0)));
    let line = s("ID: x, Key: y, Key: z, Created: 1970-01-01T00:00:00+00:00");
    assert_eq!(
        sorted(manager.list_sessions()),
        vec![s("ID: other, Key: w, Created: 1970-01-01T00:00:00+00:00"), line.clone(), line]
    );
}
