use redis_session_manager::link::{StoreCall, StoreCommand};
use redis_session_manager::raw::{
    custom_hashmap_del, custom_hashmap_get, custom_hashmap_set, direct_ready, Binding, LinkAction,
};
use redis_session_manager::store::MappingStore;

fn s(text: &str) -> String {
    text.to_string()
}

fn bound() -> Binding {
    let mut binding = Binding::new();
    binding.begin();
    binding.advance(Ok(()));
    binding.advance(Ok(()));
    binding.advance(Ok(()));
    binding.advance(Ok(()));
    binding
}

#[test]
fn raw_set_stores_and_answers_one() {
    let mut store = MappingStore::new();
    assert_eq!(custom_hashmap_set(&mut store, Some(s("k")), Some(s("v"))), 1);
    assert_eq!(store.get(&s("k")), Some(&s("v")));
}

#[test]
fn raw_set_rejects_a_missing_key_or_value() {
    let mut store = MappingStore::new();
    assert_eq!(custom_hashmap_set(&mut store, None, Some(s("v"))), 0);
    assert_eq!(custom_hashmap_set(&mut store, Some(s("k")), None), 0);
    assert_eq!(custom_hashmap_set(&mut store, None, None), 0);
    assert_eq!(store.len(), 0);
}

#[test]
fn raw_get_answers_the_value_or_nothing() {
    let mut store = MappingStore::new();
    store.set(s("k"), s("v"));
    assert_eq!(custom_hashmap_get(&store, Some(s("k"))), Some(s("v")));
    assert_eq!(custom_hashmap_get(&store, Some(s("other"))), None);
    assert_eq!(custom_hashmap_get(&store, None), None);
}

#[test]
fn raw_get_answers_nothing_for_a_value_that_holds_a_nul() {
    let mut store = MappingStore::new();
    store.set(s("k"), s("a\0b"));
    store.set(s("end"), s("ab\0"));
    store.set(s("plain"), s("ab"));
    assert_eq!(custom_hashmap_get(&store, Some(s("k"))), None);
    assert_eq!(custom_hashmap_get(&store, Some(s("end"))), None);
    assert_eq!(custom_hashmap_get(&store, Some(s("plain"))), Some(s("ab")));
    assert_eq!(store.get(&s("k")), Some(&s("a\0b")));
}

#[test]
fn raw_del_answers_one_only_where_it_removed() {
    let mut store = MappingStore::new();
    store.set(s("k"), s("v"));
    assert_eq!(custom_hashmap_del(&mut store, None), 0);
    assert_eq!(store.len(), 1);
    assert_eq!(custom_hashmap_del(&mut store, Some(s("k"))), 1);
    assert_eq!(custom_hashmap_del(&mut store, Some(s("k"))), 0);
    assert_eq!(store.len(), 0);
}

#[test]
fn binding_loads_then_resolves_set_get_del_in_order() {
    let mut binding = Binding::new();
    assert!(!binding.is_bound());
    assert_eq!(binding.begin(), LinkAction::Load(s("libredis_custom_hashmap.dylib")));
    assert_eq!(binding.advance(Ok(())), LinkAction::Resolve(StoreCommand::Assign));
    assert!(!binding.is_bound());
    assert_eq!(binding.advance(Ok(())), LinkAction::Resolve(StoreCommand::Lookup));
    assert_eq!(binding.advance(Ok(())), LinkAction::Resolve(StoreCommand::Remove));
    assert!(!binding.is_bound());
    assert_eq!(binding.advance(Ok(())), LinkAction::Ready);
    assert!(binding.is_bound());
}

#[test]
fn binding_once_made_is_not_made_again() {
    let mut binding = bound();
    assert_eq!(binding.begin(), LinkAction::Ready);
    assert!(binding.is_bound());
    assert_eq!(binding.advance(Err(s("late news"))), LinkAction::Ready);
    assert!(binding.is_bound());
}

#[test]
fn binding_is_unavailable_when_the_library_does_not_load() {
    let mut binding = Binding::new();
    binding.begin();
    assert_eq!(
        binding.advance(Err(s("image not found"))),
        LinkAction::Unavailable(s("Failed to load custom hashmap library: image not found"))
    );
    assert!(!binding.is_bound());
    assert!(binding.has_failed());
}

#[test]
fn a_failed_load_is_kept_and_not_tried_again() {
    let mut binding = Binding::new();
    binding.begin();
    binding.advance(Err(s("image not found")));
    let kept = LinkAction::Unavailable(s("Failed to load custom hashmap library: image not found"));
    assert_eq!(binding.begin(), kept);
    assert_eq!(binding.begin(), kept);
    assert_eq!(binding.advance(Ok(())), kept);
    assert_eq!(binding.advance(Err(s("other words"))), kept);
    assert!(binding.has_failed());
    assert!(!binding.is_bound());
    assert!(!direct_ready(&binding, &StoreCall::Lookup { key: s("k") }));
}

#[test]
fn binding_keeps_nothing_when_one_entry_point_is_missing() {
    let mut binding = Binding::new();
    binding.begin();
    binding.advance(Ok(()));
    binding.advance(Ok(()));
    assert_eq!(
        binding.advance(Err(s("symbol not found"))),
        LinkAction::Unavailable(s("Failed to load custom_hashmap_get: symbol not found"))
    );
    assert!(!binding.is_bound());
    let kept = LinkAction::Unavailable(s("Failed to load custom_hashmap_get: symbol not found"));
    assert_eq!(binding.begin(), kept);
    assert_eq!(binding.advance(Ok(())), kept);
    assert_eq!(binding.advance(Ok(())), kept);
    assert_eq!(binding.advance(Ok(())), kept);
    assert!(!binding.is_bound());
    assert!(binding.has_failed());
}

#[test]
fn a_binding_in_the_making_has_neither_failed_nor_is_it_bound() {
    let mut binding = Binding::new();
    assert!(!binding.has_failed());
    binding.begin();
    assert!(!binding.has_failed());
    assert_eq!(binding.begin(), LinkAction::Load(s("libredis_custom_hashmap.dylib")));
    binding.advance(Ok(()));
    assert!(!binding.has_failed());
    assert!(!binding.is_bound());
    assert!(!bound().has_failed());
}

#[test]
fn binding_reports_each_missing_entry_point_by_name() {
    let mut first = Binding::new();
    first.begin();
    first.advance(Ok(()));
    assert_eq!(
        first.advance(Err(s("x"))),
        LinkAction::Unavailable(s("Failed to load custom_hashmap_set: x"))
    );
    let mut last = Binding::new();
    last.begin();
    last.advance(Ok(()));
    last.advance(Ok(()));
    last.advance(Ok(()));
    assert_eq!(
        last.advance(Err(s("z"))),
        LinkAction::Unavailable(s("Failed to load custom_hashmap_del: z"))
    );
    assert!(!last.is_bound());
}

#[test]
fn an_outcome_that_nothing_asked_for_starts_the_binding() {
    let mut binding = Binding::new();
    assert_eq!(binding.advance(Ok(())), LinkAction::Load(s("libredis_custom_hashmap.dylib")));
    assert_eq!(binding.advance(Ok(())), LinkAction::Resolve(StoreCommand::Assign));
}

#[test]
fn direct_route_is_closed_until_bound() {
    let call = StoreCall::Lookup { key: s("k") };
    assert!(!direct_ready(&Binding::new(), &call));
    assert!(direct_ready(&bound(), &call));
}

#[test]
fn direct_route_is_closed_to_text_with_nul() {
    let binding = bound();
    assert!(!direct_ready(&binding, &StoreCall::Lookup { key: s("a\0b") }));
    assert!(!direct_ready(&binding, &StoreCall::Remove { key: s("\0") }));
    assert!(!direct_ready(&binding, &StoreCall::Assign { key: s("k\0"), value: s("v") }));
    assert!(!direct_ready(&binding, &StoreCall::Assign { key: s("k"), value: s("v\0") }));
    assert!(direct_ready(&binding, &StoreCall::Assign { key: s("k"), value: s("v") }));
}

#[test]
fn commands_have_their_names() {
    assert_eq!(StoreCommand::Assign.name(), "custom.set");
    assert_eq!(StoreCommand::Lookup.name(), "custom.get");
    assert_eq!(StoreCommand::Remove.name(), "custom.del");
    assert_eq!(StoreCommand::Assign.symbol(), "custom_hashmap_set");
    assert_eq!(StoreCommand::Lookup.symbol(), "custom_hashmap_get");
    assert_eq!(StoreCommand::Remove.symbol(), "custom_hashmap_del");
}
