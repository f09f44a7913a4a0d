use redis_session_manager::commands::{
    add_session_data, completion_reply, create_session, custom_get, custom_set, delete_session,
    get_session, get_session_data, session_reply, Reply,
};
use redis_session_manager::link::{DirectReply, HostReply, Route, StoreCall};
use redis_session_manager::protocol::{Completion, Step};
use redis_session_manager::raw::Binding;
use redis_session_manager::session::SessionManager;
use redis_session_manager::store::MappingStore;
use redis_session_manager::system::{serve_direct, serve_host, System};
use redis_session_manager::time::Timestamp;

fn s(text: &str) -> String {
    text.to_string()
}

fn words(line: &[&str]) -> Vec<String> {
    line.iter().map(|w| w.to_string()).collect()
}

fn at(secs: i64) -> Timestamp {
    Timestamp::new(secs, 0).unwrap()
}

fn bound() -> Binding {
    let mut binding = Binding::new();
    binding.begin();
    binding.advance(Ok(()));
    binding.advance(Ok(()));
    binding.advance(Ok(()));
    binding.advance(Ok(()));
    binding
}

fn bound_system() -> System {
    let mut system = System::new();
    system.binding = bound();
    system
}

/// Answers every call of `step` from `linked` over the direct route and from
/// `hosted` over the indirect route, until the operation ends.
fn run(
    manager: &mut SessionManager,
    linked: &mut MappingStore,
    hosted: &mut MappingStore,
    binding: &Binding,
    mut step: Step,
) -> Completion {
    loop {
        match step {
            Step::Done(completion) => return completion,
            Step::Ask(Route::Direct, pending) => {
                let reply = serve_direct(linked, binding, pending.call());
                step = manager.resume_direct(pending, reply);
            },
            Step::Ask(Route::Indirect, pending) => {
                let outcome = serve_host(hosted, &pending.call());
                step = manager.resume_host(pending, outcome);
            },
        }
    }
}

#[test]
fn creating_twice_is_created_then_exists_with_one_identifier() {
    for mut system in [System::new(), bound_system()] {
        let first = system.create_or_get_session(s("alice-key"));
        let id = match first {
            Completion::Created(id) => id,
            other => panic!("ended with {:?}", other),
        };
        assert_eq!(system.create_or_get_session(s("alice-key")), Completion::Exists(id.clone()));
        assert_eq!(system.store.get(&s("alice-key")), Some(&id));
        assert_eq!(system.sessions.len(), 1);
        assert_eq!(system.store.len(), 1);
    }
}

#[test]
fn creating_with_a_given_identifier_stores_it_under_the_owner_key() {
    let mut system = bound_system();
    assert_eq!(
        system.create_or_get_session_with(s("alice-key"), s("id-1"), at(5)),
        Completion::Created(s("id-1"))
    );
    assert_eq!(system.store.get(&s("alice-key")), Some(&s("id-1")));
    let session = system.sessions.get_session(&s("id-1")).unwrap();
    assert_eq!(session.user_key(), "alice-key");
    assert_eq!(session.created_at().seconds(), 5);
    assert_eq!(
        system.create_or_get_session_with(s("alice-key"), s("id-2"), at(6)),
        Completion::Exists(s("id-1"))
    );
    assert!(system.sessions.get_session(&s("id-2")).is_none());
    assert_eq!(system.sessions.get_session(&s("id-1")).unwrap().last_accessed().seconds(), 6);
}

#[test]
fn a_stored_identifier_without_a_session_is_recovered() {
    for mut system in [System::new(), bound_system()] {
        system.store.set(s("alice-key"), s("old-id"));
        assert_eq!(
            system.create_or_get_session_with(s("alice-key"), s("new-id"), at(5)),
            Completion::Recreated(s("old-id"))
        );
        let session = system.sessions.get_session(&s("old-id")).unwrap();
        assert_eq!(session.user_key(), "alice-key");
        assert!(system.sessions.get_session(&s("new-id")).is_none());
        assert_eq!(system.store.get(&s("alice-key")), Some(&s("old-id")));
        assert_eq!(
            system.create_or_get_session_with(s("alice-key"), s("new-id"), at(6)),
            Completion::Exists(s("old-id"))
        );
    }
}

#[test]
fn a_session_lost_after_creation_is_recovered_under_its_identifier() {
    let mut system = bound_system();
    let id = match system.create_or_get_session(s("alice-key")) {
        Completion::Created(id) => id,
        other => panic!("ended with {:?}", other),
    };
    system.sessions = SessionManager::new();
    assert_eq!(system.create_or_get_session(s("alice-key")), Completion::Recreated(id.clone()));
    assert_eq!(system.sessions.get_session(&id).unwrap().user_key(), "alice-key");
}

#[test]
fn deleting_removes_the_session_and_its_owner_key() {
    for mut system in [System::new(), bound_system()] {
        system.store.set(s("bystander"), s("stays"));
        system.create_or_get_session_with(s("alice-key"), s("id-1"), at(5));
        assert_eq!(system.delete_session(&s("id-1")), Completion::Deleted(true));
        assert!(system.sessions.get_session(&s("id-1")).is_none());
        assert_eq!(system.store.get(&s("alice-key")), None);
        assert_eq!(system.store.get(&s("bystander")), Some(&s("stays")));
        assert_eq!(system.delete_session(&s("id-1")), Completion::Deleted(false));
    }
}

#[test]
fn deleting_is_settled_when_the_owner_key_is_already_gone() {
    for mut system in [System::new(), bound_system()] {
        system.create_or_get_session_with(s("alice-key"), s("id-1"), at(5));
        assert!(system.store.del(&s("alice-key")));
        assert_eq!(system.delete_session(&s("id-1")), Completion::Deleted(true));
        assert_eq!(system.sessions.len(), 0);
        assert_eq!(system.store.len(), 0);
    }
}

#[test]
fn text_with_nul_goes_over_the_indirect_route() {
    let mut system = bound_system();
    assert_eq!(
        system.create_or_get_session_with(s("odd\0key"), s("id-1"), at(5)),
        Completion::Created(s("id-1"))
    );
    assert_eq!(system.store.get(&s("odd\0key")), Some(&s("id-1")));
    assert_eq!(
        system.create_or_get_session_with(s("odd\0key"), s("id-2"), at(6)),
        Completion::Exists(s("id-1"))
    );
    assert_eq!(system.delete_session(&s("id-1")), Completion::Deleted(true));
    assert_eq!(system.store.len(), 0);
}

#[test]
fn the_direct_route_answers_through_the_entry_points() {
    let mut store = MappingStore::new();
    let binding = bound();
    assert_eq!(
        serve_direct(&mut store, &binding, StoreCall::Lookup { key: s("k") }),
        DirectReply::Text(None)
    );
    assert_eq!(
        serve_direct(&mut store, &binding, StoreCall::Assign { key: s("k"), value: s("v") }),
        DirectReply::Code(1)
    );
    assert_eq!(
        serve_direct(&mut store, &binding, StoreCall::Lookup { key: s("k") }),
        DirectReply::Text(Some(s("v")))
    );
    assert_eq!(
        serve_direct(&mut store, &binding, StoreCall::Remove { key: s("k") }),
        DirectReply::Code(1)
    );
    assert_eq!(
        serve_direct(&mut store, &binding, StoreCall::Remove { key: s("k") }),
        DirectReply::Code(0)
    );
}

#[test]
fn the_direct_route_answers_nothing_while_unbound() {
    let mut store = MappingStore::new();
    store.set(s("k"), s("v"));
    let binding = Binding::new();
    assert_eq!(
        serve_direct(&mut store, &binding, StoreCall::Lookup { key: s("k") }),
        DirectReply::Unavailable
    );
    assert_eq!(
        serve_direct(&mut store, &binding, StoreCall::Remove { key: s("k") }),
        DirectReply::Unavailable
    );
    assert_eq!(
        serve_direct(&mut store, &binding, StoreCall::Assign { key: s("k"), value: s("w") }),
        DirectReply::Unavailable
    );
    assert_eq!(store.get(&s("k")), Some(&s("v")));
}

#[test]
fn the_indirect_route_answers_by_tag() {
    let mut store = MappingStore::new();
    assert_eq!(serve_host(&mut store, &StoreCall::Lookup { key: s("k") }), Ok(HostReply::Null));
    assert_eq!(
        serve_host(&mut store, &StoreCall::Assign { key: s("k"), value: s("v") }),
        Ok(HostReply::Text(s("OK")))
    );
    assert_eq!(
        serve_host(&mut store, &StoreCall::Lookup { key: s("k") }),
        Ok(HostReply::Text(s("v")))
    );
    assert_eq!(serve_host(&mut store, &StoreCall::Remove { key: s("k") }), Ok(HostReply::Other));
    assert_eq!(store.len(), 0);
}

#[test]
fn the_session_commands_run_from_creation_to_deletion() {
    // The store that the host's commands reach and the store behind the raw
    // binding are two: what is set in the first does not show in the second.
    let mut hosted = MappingStore::new();
    let mut linked = MappingStore::new();
    let binding = bound();
    let mut manager = SessionManager::new();

    assert_eq!(
        custom_set(&mut hosted, &words(&["custom.set", "alice-key", "unused"])),
        Ok(Reply::Status(s("OK")))
    );

    let step = create_session(&words(&["session.create", "alice-key"])).unwrap();
    let created = run(&mut manager, &mut linked, &mut hosted, &binding, step);
    let id = match &created {
        Completion::Created(id) => id.clone(),
        other => panic!("ended with {:?}", other),
    };
    assert_eq!(id.len(), 36);
    assert_eq!(completion_reply(created), Ok(Reply::Status(format!("Session created: {}", id))));

    let found = get_session(&manager, &words(&["session.get", &id])).unwrap().unwrap();
    assert_eq!(found.id(), &id);
    assert_eq!(found.user_key(), "alice-key");

    assert_eq!(
        add_session_data(&mut manager, &words(&["session.add_data", &id, "lang", "en"])),
        Ok(Reply::Status(s("OK")))
    );
    assert_eq!(
        get_session_data(&mut manager, &words(&["session.get_data", &id, "lang"])),
        Ok(Reply::Bulk(s("en")))
    );

    let step = delete_session(&mut manager, &words(&["session.delete", &id])).unwrap();
    let deleted = run(&mut manager, &mut linked, &mut hosted, &binding, step);
    assert_eq!(completion_reply(deleted), Ok(Reply::Integer(1)));

    assert!(matches!(get_session(&manager, &words(&["session.get", &id])), Ok(None)));
    assert_eq!(session_reply(None), Reply::Null);
    assert_eq!(linked.len(), 0);
    assert_eq!(
        custom_get(&hosted, &words(&["custom.get", "alice-key"])),
        Ok(Reply::Bulk(s("unused")))
    );
}

#[test]
fn a_value_set_in_the_store_that_sessions_use_is_taken_for_an_identifier() {
    let mut system = bound_system();
    assert_eq!(
        custom_set(&mut system.store, &words(&["custom.set", "alice-key", "unused"])),
        Ok(Reply::Status(s("OK")))
    );
    let ended = system.create_or_get_session(s("alice-key"));
    assert_eq!(
        completion_reply(ended),
        Ok(Reply::Status(s("Session recreated: unused")))
    );
}

#[test]
fn unbound_sessions_reach_the_store_through_the_host() {
    let mut hosted = MappingStore::new();
    let mut linked = MappingStore::new();
    let binding = Binding::new();
    let mut manager = SessionManager::new();
    let step = create_session(&words(&["session.create", "alice-key"])).unwrap();
    let created = run(&mut manager, &mut linked, &mut hosted, &binding, step);
    let id = match created {
        Completion::Created(id) => id,
        other => panic!("ended with {:?}", other),
    };
    assert_eq!(hosted.get(&s("alice-key")), Some(&id));
    assert_eq!(linked.len(), 0);
    let step = create_session(&words(&["session.create", "alice-key"])).unwrap();
    assert_eq!(
        run(&mut manager, &mut linked, &mut hosted, &binding, step),
        Completion::Exists(id)
    );
}

#[test]
fn an_operation_that_has_ended_is_not_carried_further() {
    let mut system = bound_system();
    system.store.set(s("k"), s("v"));
    let ended = system.drive(Step::Done(Completion::Deleted(false)), &s("unused"), at(1));
    assert_eq!(ended, Completion::Deleted(false));
    assert_eq!(system.store.len(), 1);
    assert_eq!(system.sessions.len(), 0);
}

#[test]
fn a_new_system_is_empty_and_unbound() {
    let system = System::new();
    assert_eq!(system.store.len(), 0);
    assert_eq!(system.sessions.len(), 0);
    assert!(!system.binding.is_bound());
}

#[test]
fn a_stored_value_with_nul_does_not_show_over_the_direct_route() {
    let mut store = MappingStore::new();
    store.set(s("k"), s("a\0b"));
    assert_eq!(
        serve_direct(&mut store, &bound(), StoreCall::Lookup { key: s("k") }),
        DirectReply::Text(None)
    );
    assert_eq!(
        serve_host(&mut store, &StoreCall::Lookup { key: s("k") }),
        Ok(HostReply::Text(s("a\0b")))
    );
}

#[test]
fn an_identifier_with_nul_is_recovered_only_through_the_host() {
    let mut unbound = System::new();
    unbound.store.set(s("alice-key"), s("odd\0id"));
    assert_eq!(
        unbound.create_or_get_session_with(s("alice-key"), s("new-id"), at(1)),
        Completion::Recreated(s("odd\0id"))
    );

    let mut linked = bound_system();
    linked.store.set(s("alice-key"), s("odd\0id"));
    assert_eq!(
        linked.create_or_get_session_with(s("alice-key"), s("new-id"), at(1)),
        Completion::Created(s("new-id"))
    );
    assert_eq!(linked.store.get(&s("alice-key")), Some(&s("new-id")));
    assert_eq!(
        linked.create_or_get_session_with(s("alice-key"), s("other"), at(2)),
        Completion::Exists(s("new-id"))
    );
}

#[test]
fn a_system_whose_binding_failed_reaches_the_store_through_the_host() {
    let mut system = System::new();
    system.binding.begin();
    system.binding.advance(Err(s("image not found")));
    assert!(system.binding.has_failed());
    assert_eq!(
        system.create_or_get_session_with(s("alice-key"), s("id-1"), at(1)),
        Completion::Created(s("id-1"))
    );
    assert_eq!(system.store.get(&s("alice-key")), Some(&s("id-1")));
    assert_eq!(system.delete_session(&s("id-1")), Completion::Deleted(true));
    assert!(system.binding.has_failed());
}
