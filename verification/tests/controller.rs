use chtbtr::controller::comment_added::comment_added_rewrite;
use chtbtr::controller::error::{ControllerError, NotificationRuleViolation};
use chtbtr::controller::patch_status::patch_status_changed;
use chtbtr::controller::reviewer_added::reviewer_added;
use chtbtr::controller::util::extract_user_data;
use chtbtr::service::NotificationMessageComposer;
use chtbtr::types::{
    BaseData, CommentAddedData, GerritTrigger, GerritUsername, OwnerSettings, PatchStatus,
    PatchStatusChangedData, ProfileId, ProjectName, ReviewerAddedData, ReviewerSettings, Settings,
    VerifiedStatus,
};

fn subscribed_settings() -> Settings {
    Settings::V1 {
        as_reviewer: ReviewerSettings {
            subscribe: true,
            ignore_topics: vec![],
            ignore_projects: vec![],
            ignore_by_username: vec![],
        },
        as_owner: OwnerSettings {
            subscribe_comment: true,
            subscribe_verified: true,
            subscribe_ready_for_submit: true,
            subscribe_submitted: true,
            ignore_empty_review_comments: false,
            ignore_by_username: vec![],
            ignore_projects: vec![],
        },
    }
}

fn comment_trigger(author_username: &str) -> (GerritTrigger, CommentAddedData) {
    let data = CommentAddedData {
        base: BaseData {
            change_owner: String::from("Owner Name <owner@x.com>"),
            change_owner_username: GerritUsername::from("change.owner"),
            change_url: String::from("29415"),
            project: ProjectName::from("juco"),
        },
        author: String::from("Author Name <author@x.com>"),
        author_username: GerritUsername::from(author_username),
    };
    let trigger = GerritTrigger::CommentAdded(CommentAddedData {
        base: data.base.clone(),
        author: data.author.clone(),
        author_username: data.author_username.clone(),
    });
    (trigger, data)
}

fn composer() -> NotificationMessageComposer {
    NotificationMessageComposer::create(String::from("gerrit.domain"))
}

#[test]
fn extract_user_data_requires_identity_first() {
    let result = extract_user_data(None, Some(subscribed_settings()));
    match result {
        Err(ControllerError::UserMappingError(m)) => {
            assert_eq!(m, "No profile id found. More information in log.")
        }
        other => panic!("expected a user mapping error, got {:?}", other),
    }

    let result = extract_user_data(Some(ProfileId(1)), None);
    match result {
        Err(ControllerError::UserMappingError(m)) => {
            assert_eq!(m, "No user settings found. More information in log.")
        }
        other => panic!("expected a user mapping error, got {:?}", other),
    }

    let result = extract_user_data(Some(ProfileId(1)), Some(subscribed_settings()));
    assert!(result.is_ok());
}

#[test]
fn own_comment_is_rejected_and_nothing_is_dispatched() {
    let (trigger, data) = comment_trigger("change.owner");
    let result = comment_added_rewrite(
        &trigger,
        &data,
        &composer(),
        Some(ProfileId(1)),
        Some(subscribed_settings()),
    );
    match result {
        Err(ControllerError::RuleViolation(v)) => {
            assert_eq!(v, NotificationRuleViolation::AuthorAndOwnerAreTheSame)
        }
        other => panic!("expected a rule violation, got {:?}", other),
    }
}

#[test]
fn accepted_comment_yields_recipient_and_message() {
    let (trigger, data) = comment_trigger("comment.author");
    let result = comment_added_rewrite(
        &trigger,
        &data,
        &composer(),
        Some(ProfileId(7)),
        Some(subscribed_settings()),
    );
    let (recipient, message) = result.expect("the comment must be accepted");
    assert_eq!(recipient, ProfileId(7));
    assert_eq!(
        message,
        "Comment was added by comment.author. 💬 https://gerrit.domain/c/juco/+/29415"
    );
}

#[test]
fn comment_without_identity_is_a_mapping_error() {
    let (trigger, data) = comment_trigger("comment.author");
    let result = comment_added_rewrite(&trigger, &data, &composer(), None, None);
    match result {
        Err(ControllerError::UserMappingError(_)) => {}
        other => panic!("expected a user mapping error, got {:?}", other),
    }
}

#[test]
fn verified_change_is_delivered_to_the_owner() {
    let data = PatchStatusChangedData {
        base: BaseData {
            change_owner: String::from("Owner Name <owner@x.com>"),
            change_owner_username: GerritUsername::from("change.owner"),
            change_url: String::from("2"),
            project: ProjectName::from("prj"),
        },
        author_username: GerritUsername::from("author.user"),
        patch_status: PatchStatus::Verified(VerifiedStatus::PlusOne),
    };
    let trigger = GerritTrigger::PatchStatusChanged(PatchStatusChangedData {
        base: data.base.clone(),
        author_username: data.author_username.clone(),
        patch_status: PatchStatus::Verified(VerifiedStatus::PlusOne),
    });
    let result = patch_status_changed(
        &trigger,
        &data,
        &NotificationMessageComposer::create(String::from("domain")),
        Some(ProfileId(9)),
        Some(subscribed_settings()),
    );
    let (recipient, message) = result.expect("the status change must be accepted");
    assert_eq!(recipient, ProfileId(9));
    assert_eq!(
        message,
        "+1 Verified for your patch 🌈 https://domain/c/prj/+/2."
    );
}

#[test]
fn unsubscribed_owner_stops_the_status_notification() {
    let data = PatchStatusChangedData {
        base: BaseData {
            change_owner: String::from("Owner Name <owner@x.com>"),
            change_owner_username: GerritUsername::from("change.owner"),
            change_url: String::from("2"),
            project: ProjectName::from("prj"),
        },
        author_username: GerritUsername::from("author.user"),
        patch_status: PatchStatus::ReadyForSubmit,
    };
    let trigger = GerritTrigger::PatchStatusChanged(PatchStatusChangedData {
        base: data.base.clone(),
        author_username: data.author_username.clone(),
        patch_status: PatchStatus::ReadyForSubmit,
    });
    let settings = Settings::V1 {
        as_reviewer: ReviewerSettings {
            subscribe: true,
            ignore_topics: vec![],
            ignore_projects: vec![],
            ignore_by_username: vec![],
        },
        as_owner: OwnerSettings {
            subscribe_comment: true,
            subscribe_verified: true,
            subscribe_ready_for_submit: false,
            subscribe_submitted: true,
            ignore_empty_review_comments: false,
            ignore_by_username: vec![],
            ignore_projects: vec![],
        },
    };
    let result = patch_status_changed(
        &trigger,
        &data,
        &composer(),
        Some(ProfileId(9)),
        Some(settings),
    );
    match result {
        Err(ControllerError::RuleViolation(v)) => assert_eq!(
            v,
            NotificationRuleViolation::OwnerNotSubscribedToSubmitNotification(
                GerritUsername::from("change.owner")
            )
        ),
        other => panic!("expected a rule violation, got {:?}", other),
    }
}

#[test]
fn added_reviewer_gets_the_review_link() {
    let data = ReviewerAddedData {
        change_owner: String::from("Owner Name <owner@x.com>"),
        change_owner_username: GerritUsername::from("change.owner"),
        reviewer: String::from("Second Person <second.person@x.com>"),
        reviewer_username: GerritUsername::from("second.person"),
        change_url: String::from("12312"),
        project: String::from("juco"),
    };
    let trigger = GerritTrigger::ReviewerAdded(ReviewerAddedData {
        change_owner: data.change_owner.clone(),
        change_owner_username: data.change_owner_username.clone(),
        reviewer: data.reviewer.clone(),
        reviewer_username: data.reviewer_username.clone(),
        change_url: data.change_url.clone(),
        project: data.project.clone(),
    });
    let result = reviewer_added(
        &trigger,
        &data,
        &composer(),
        Some(ProfileId(5)),
        Some(subscribed_settings()),
    );
    let (recipient, message) = result.expect("the added user must be notified");
    assert_eq!(recipient, ProfileId(5));
    assert_eq!(
        message,
        "You were added to review a patch. https://gerrit.domain/c/juco/+/12312"
    );
}

#[test]
fn trigger_endpoints_route_by_kind() {
    let (comment, _) = comment_trigger("comment.author");
    assert_eq!(
        chtbtr::api::trigger_endpoint(&comment),
        "http://localhost:8088/trigger/comment_added"
    );
    let added = GerritTrigger::ReviewerAdded(ReviewerAddedData {
        change_owner: String::from("Owner Name <owner@x.com>"),
        change_owner_username: GerritUsername::from("change.owner"),
        reviewer: String::from("Second Person <second.person@x.com>"),
        reviewer_username: GerritUsername::from("second.person"),
        change_url: String::from("12312"),
        project: String::from("juco"),
    });
    assert_eq!(
        chtbtr::api::trigger_endpoint(&added),
        "http://localhost:8088/trigger/reviewer_added"
    );
}

#[test]
fn error_descriptions_match_their_cases() {
    assert_eq!(
        NotificationRuleViolation::AuthorAndOwnerAreTheSame.describe(),
        "Author and owner are the same."
    );
    assert_eq!(
        NotificationRuleViolation::OwnerIgnoresCommentsByUser(
            GerritUsername::from("owner"),
            GerritUsername::from("author")
        )
        .describe(),
        "owner ignores comments by author."
    );
    assert_eq!(
        ControllerError::RuleViolation(NotificationRuleViolation::NoPatchStatusSet).describe(),
        "Notification wasn't send due to settings: No patch status set."
    );
    assert_eq!(
        ControllerError::UserMappingError(String::from("nothing found")).describe(),
        "Couldn't retrieve user information: nothing found"
    );
    assert_eq!(
        ControllerError::Unspecified(String::from("boom")).describe(),
        "Error in controller: boom"
    );
    assert_eq!(
        ControllerError::Unrecoverable(String::from("no state")).describe(),
        "Error in controller: no state"
    );
}
