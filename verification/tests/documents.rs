use chtbtr::default::{default_settings, DEFAULT_SETTINGS};
use chtbtr::service::{parse_settings, parse_sync_record, settings_text, sync_record_text};
use chtbtr::types::{
    GerritUsername, OwnerSettings, ProfileId, ProjectName, ReviewerSettings, Settings,
    Synchronization, TopicName,
};

#[test]
fn sync_record_serializes_each_state() {
    assert_eq!(
        sync_record_text(&Synchronization::Resolved(ProfileId(312))),
        "Some((312))"
    );
    assert_eq!(
        sync_record_text(&Synchronization::ConfirmedAbsent),
        "None"
    );
    assert_eq!(
        sync_record_text(&Synchronization::Unattempted),
        "NotMappedYet"
    );
}

#[test]
fn sync_record_parses_each_state() {
    assert_eq!(
        parse_sync_record("Some((312))"),
        Some(Synchronization::Resolved(ProfileId(312)))
    );
    assert_eq!(
        parse_sync_record(" None \n"),
        Some(Synchronization::ConfirmedAbsent)
    );
    assert_eq!(
        parse_sync_record("NotMappedYet"),
        Some(Synchronization::Unattempted)
    );
    assert_eq!(parse_sync_record("Some((x))"), None);
    assert_eq!(parse_sync_record("Some((1)"), None);
    assert_eq!(parse_sync_record(""), None);
    assert_eq!(parse_sync_record("garbage"), None);
}

#[test]
fn sync_record_round_trips() {
    for state in [
        Synchronization::Resolved(ProfileId(0)),
        Synchronization::Resolved(ProfileId(4294967295)),
        Synchronization::ConfirmedAbsent,
        Synchronization::Unattempted,
    ] {
        let text = sync_record_text(&state);
        assert_eq!(parse_sync_record(text.as_str()), Some(state));
    }
}

#[test]
fn default_document_parses_to_default_settings() {
    let parsed = parse_settings(DEFAULT_SETTINGS);
    assert_eq!(parsed, Some(default_settings()));
}

fn sample_settings() -> Settings {
    Settings::V1 {
        as_reviewer: ReviewerSettings {
            subscribe: true,
            ignore_topics: vec![TopicName(String::from("merge-commit"))],
            ignore_projects: vec![],
            ignore_by_username: vec![GerritUsername::from("noisy.bot")],
        },
        as_owner: OwnerSettings {
            subscribe_comment: true,
            subscribe_verified: false,
            subscribe_ready_for_submit: true,
            subscribe_submitted: false,
            ignore_empty_review_comments: false,
            ignore_by_username: vec![
                GerritUsername::from("tools.just"),
                GerritUsername::from("ec2.gerrit"),
            ],
            ignore_projects: vec![ProjectName::from("sandbox")],
        },
    }
}

#[test]
fn settings_serialize_to_canonical_text() {
    let text = settings_text(&sample_settings());
    assert_eq!(
        text,
        "V1(as_reviewer:(subscribe:true,ignore_topics:[(\"merge-commit\")],\
         ignore_projects:[],ignore_by_username:[(\"noisy.bot\")]),\
         as_owner:(subscribe_comment:true,subscribe_verified:false,\
         subscribe_ready_for_submit:true,subscribe_submitted:false,\
         ignore_empty_review_comments:false,\
         ignore_by_username:[(\"tools.just\"),(\"ec2.gerrit\")],\
         ignore_projects:[(\"sandbox\")]))"
    );
}

#[test]
fn settings_round_trip_through_canonical_text() {
    let settings = sample_settings();
    let text = settings_text(&settings);
    assert_eq!(parse_settings(text.as_str()), Some(settings));

    let defaults = default_settings();
    let text = settings_text(&defaults);
    assert_eq!(parse_settings(text.as_str()), Some(defaults));
}

#[test]
fn settings_parser_accepts_reordered_fields_and_comments() {
    let text = "
        // role blocks in the opposite order
        V1 (
            as_owner: (
                ignore_projects: [],
                ignore_by_username: [],
                subscribe_comment: true,
                subscribe_verified: true,
                subscribe_ready_for_submit: false,
                subscribe_submitted: false, /* inline note */
                ignore_empty_review_comments: false,
            ),
            as_reviewer: (
                subscribe: true,
                ignore_topics: [],
                ignore_projects: [],
                ignore_by_username: [],
            ),
        )";
    let parsed = parse_settings(text).expect("the reordered document should parse");
    match parsed {
        Settings::V1 { as_reviewer, as_owner } => {
            assert!(as_reviewer.subscribe);
            assert!(as_owner.subscribe_comment);
            assert!(as_owner.subscribe_verified);
            assert!(!as_owner.subscribe_ready_for_submit);
            assert!(as_owner.ignore_by_username.is_empty());
        }
    }
}

#[test]
fn settings_parser_rejects_broken_documents() {
    assert_eq!(parse_settings(""), None);
    assert_eq!(parse_settings("V2()"), None);
    // a missing field
    assert_eq!(
        parse_settings(
            "V1(as_reviewer:(subscribe:true,ignore_topics:[],ignore_projects:[],\
             ignore_by_username:[]),as_owner:(subscribe_comment:true))"
        ),
        None
    );
    // a duplicated field
    assert_eq!(
        parse_settings(
            "V1(as_reviewer:(subscribe:true,subscribe:false,ignore_topics:[],\
             ignore_projects:[],ignore_by_username:[]),as_owner:(subscribe_comment:true,\
             subscribe_verified:false,subscribe_ready_for_submit:false,\
             subscribe_submitted:false,ignore_empty_review_comments:false,\
             ignore_by_username:[],ignore_projects:[]))"
        ),
        None
    );
    // trailing junk after the envelope
    let mut text = String::from(DEFAULT_SETTINGS);
    text.push_str("junk");
    assert_eq!(parse_settings(text.as_str()), None);
}
