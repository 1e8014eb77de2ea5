use chtbtr::service::{
    FileBackedUserService, ProfileIdResolver, ResolveStep, SettingsDocument, SyncCache,
};
use chtbtr::default::DEFAULT_SETTINGS;
use chtbtr::types::{GerritUsername, ProfileId, Synchronization};

const DISPLAY_NAME: &str = "First Middle Last <first.last@x.com>";

fn store() -> FileBackedUserService {
    FileBackedUserService {
        data_dir: String::from("/data"),
    }
}

#[test]
fn first_resolution_searches_three_candidates_in_order() {
    let resolver = ProfileIdResolver::new(SyncCache::new());
    let username = GerritUsername::from("first.last");

    let mut session = match resolver.begin_resolve(&username, DISPLAY_NAME) {
        ResolveStep::Search(session) => session,
        ResolveStep::UseCached(_) => panic!("an unattempted username must trigger a search"),
    };

    assert_eq!(session.next_query().unwrap(), DISPLAY_NAME);
    session.record_result(None);
    assert_eq!(session.next_query().unwrap(), "First");
    session.record_result(None);
    assert_eq!(session.next_query().unwrap(), "Last");
    session.record_result(None);
    assert!(session.next_query().is_none());
    assert!(session.finished());
    assert_eq!(session.result(), None);
}

#[test]
fn search_stops_at_the_first_unique_match() {
    let resolver = ProfileIdResolver::new(SyncCache::new());
    let username = GerritUsername::from("first.last");

    let mut session = match resolver.begin_resolve(&username, DISPLAY_NAME) {
        ResolveStep::Search(session) => session,
        ResolveStep::UseCached(_) => panic!("an unattempted username must trigger a search"),
    };

    assert_eq!(session.next_query().unwrap(), DISPLAY_NAME);
    session.record_result(Some(ProfileId(312)));
    assert!(session.finished());
    assert!(session.next_query().is_none());
    assert_eq!(session.result(), Some(ProfileId(312)));
}

#[test]
fn resolved_usernames_are_answered_from_the_cache() {
    let mut resolver = ProfileIdResolver::new(SyncCache::new());
    let username = GerritUsername::from("first.last");

    let recorded = resolver.complete_resolve(&username, Some(ProfileId(312)));
    assert_eq!(recorded, Synchronization::Resolved(ProfileId(312)));

    match resolver.begin_resolve(&username, DISPLAY_NAME) {
        ResolveStep::UseCached(found) => assert_eq!(found, Some(ProfileId(312))),
        ResolveStep::Search(_) => panic!("a resolved username must not be searched again"),
    }
}

#[test]
fn confirmed_absent_usernames_are_not_searched_again() {
    let mut resolver = ProfileIdResolver::new(SyncCache::new());
    let username = GerritUsername::from("first.last");

    let recorded = resolver.complete_resolve(&username, None);
    assert_eq!(recorded, Synchronization::ConfirmedAbsent);

    match resolver.begin_resolve(&username, DISPLAY_NAME) {
        ResolveStep::UseCached(found) => assert_eq!(found, None),
        ResolveStep::Search(_) => panic!("a confirmed-absent username must not be searched again"),
    }
}

#[test]
fn explicit_resolution_may_override_a_confirmed_absence() {
    let mut resolver = ProfileIdResolver::new(SyncCache::new());
    let username = GerritUsername::from("first.last");

    resolver.complete_resolve(&username, None);
    assert_eq!(
        resolver.lookup_cache(&username),
        Synchronization::ConfirmedAbsent
    );

    // Only an explicit later resolution may turn a confirmed absence into a
    // mapping; the cache keeps the latest answer.
    resolver.complete_resolve(&username, Some(ProfileId(99)));
    assert_eq!(
        resolver.lookup_cache(&username),
        Synchronization::Resolved(ProfileId(99))
    );
}

#[test]
fn lookup_cache_distinguishes_the_three_states() {
    let mut resolver = ProfileIdResolver::new(SyncCache::new());
    let mapped = GerritUsername::from("user.a");
    let absent = GerritUsername::from("user.b");
    let fresh = GerritUsername::from("user.c");

    resolver.complete_resolve(&mapped, Some(ProfileId(1)));
    resolver.complete_resolve(&absent, None);

    assert_eq!(
        resolver.lookup_cache(&mapped),
        Synchronization::Resolved(ProfileId(1))
    );
    assert_eq!(resolver.lookup_cache(&absent), Synchronization::ConfirmedAbsent);
    assert_eq!(resolver.lookup_cache(&fresh), Synchronization::Unattempted);
}

#[test]
fn sync_cache_loads_records_and_skips_corrupt_ones() {
    let records = vec![
        (String::from("user.a"), String::from("Some((0))")),
        (String::from("user.b"), String::from("Some((1))")),
        (String::from("user.no_profile_id"), String::from("None")),
        (String::from("user.corrupt"), String::from("###")),
        (String::from("user.no_settings"), String::from("Some((312))")),
    ];
    let cache = store().load_sync_cache(records);

    assert_eq!(
        cache.lookup(&GerritUsername::from("user.a")),
        Synchronization::Resolved(ProfileId(0))
    );
    assert_eq!(
        cache.lookup(&GerritUsername::from("user.b")),
        Synchronization::Resolved(ProfileId(1))
    );
    assert_eq!(
        cache.lookup(&GerritUsername::from("user.no_profile_id")),
        Synchronization::ConfirmedAbsent
    );
    assert_eq!(
        cache.lookup(&GerritUsername::from("user.corrupt")),
        Synchronization::Unattempted
    );
    assert_eq!(
        cache.lookup(&GerritUsername::from("user.no_settings")),
        Synchronization::Resolved(ProfileId(312))
    );
}

#[test]
fn missing_settings_document_creates_defaults() {
    let user = GerritUsername::from("user.name");
    let result = store().load_settings(&user, SettingsDocument::Missing);
    let (settings, created) = result.expect("a missing document must yield the defaults");
    assert_eq!(settings, chtbtr::default::default_settings());
    assert_eq!(created.as_deref(), Some(DEFAULT_SETTINGS));
}

#[test]
fn present_settings_document_is_not_recreated() {
    let user = GerritUsername::from("user.name");
    let result = store().load_settings(
        &user,
        SettingsDocument::Content(String::from(DEFAULT_SETTINGS)),
    );
    let (settings, created) = result.expect("the default document must parse");
    assert_eq!(settings, chtbtr::default::default_settings());
    assert_eq!(created, None);
}

#[test]
fn corrupt_settings_document_is_an_error() {
    let user = GerritUsername::from("user.name");
    let result = store().load_settings(
        &user,
        SettingsDocument::Content(String::from("V1(broken")),
    );
    assert_eq!(
        result.unwrap_err(),
        "Error deserializing settings for user.name."
    );
}

#[test]
fn unreadable_settings_document_is_an_error() {
    let user = GerritUsername::from("user.name");
    let result = store().load_settings(
        &user,
        SettingsDocument::Unreadable(String::from("permission denied")),
    );
    assert_eq!(
        result.unwrap_err(),
        "Error reading settings for user.name. Cause: permission denied."
    );
}
