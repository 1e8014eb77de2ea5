use chtbtr::controller::error::NotificationRuleViolation;
use chtbtr::controller::notification_rules::comment_added::notification_wanted;
use chtbtr::controller::notification_rules::patch_status::check_notification_settings;
use chtbtr::controller::notification_rules::reviewer_added::notification_wanted as reviewer_notification_wanted;
use chtbtr::types::{
    BaseData, CodeReviewStatus, CommentAddedData, GerritUsername, OwnerSettings, PatchStatus,
    PatchStatusChangedData, ProjectName, ReviewerSettings, VerifiedStatus,
};

fn create_comment_added_data() -> CommentAddedData {
    CommentAddedData {
        base: BaseData {
            change_owner: String::from("Firstname Lastname"),
            change_owner_username: GerritUsername::from("change.owner"),
            change_url: String::from("change_url"),
            project: ProjectName::from("project"),
        },
        author: String::from("Firstname Lastname"),
        author_username: GerritUsername::from("comment.author"),
    }
}

fn create_owner_settings() -> OwnerSettings {
    OwnerSettings {
        subscribe_comment: true,
        subscribe_verified: false,
        subscribe_ready_for_submit: false,
        subscribe_submitted: false,
        ignore_empty_review_comments: false,
        ignore_by_username: vec![],
        ignore_projects: vec![],
    }
}

#[test]
fn skip_when_author_and_owner_the_same() {
    let comment = CommentAddedData {
        author_username: GerritUsername::from("change.owner"),
        ..create_comment_added_data()
    };
    let settings = create_owner_settings();
    let result = notification_wanted(&comment, &settings);
    assert_eq!(
        result.err().unwrap(),
        NotificationRuleViolation::AuthorAndOwnerAreTheSame
    );
}

#[test]
fn skip_when_change_owner_not_subscribed_to_comments() {
    let comment = create_comment_added_data();
    let settings = OwnerSettings {
        subscribe_comment: false,
        ..create_owner_settings()
    };
    let result = notification_wanted(&comment, &settings);
    assert_eq!(
        result.err().unwrap(),
        NotificationRuleViolation::OwnerNotSubscribedToComments(GerritUsername::from(
            "change.owner"
        ))
    );
}

#[test]
fn skip_when_change_owner_ignores_user() {
    let comment = create_comment_added_data();
    let settings = OwnerSettings {
        ignore_by_username: vec![GerritUsername::from("comment.author")],
        ..create_owner_settings()
    };
    let result = notification_wanted(&comment, &settings);
    assert_eq!(
        result.err().unwrap(),
        NotificationRuleViolation::OwnerIgnoresCommentsByUser(
            GerritUsername::from("change.owner"),
            GerritUsername::from("comment.author")
        )
    );
}

#[test]
fn skip_when_change_owner_ignores_project() {
    let comment = create_comment_added_data();
    let settings = OwnerSettings {
        ignore_projects: vec![ProjectName::from("project")],
        ..create_owner_settings()
    };
    let result = notification_wanted(&comment, &settings);
    assert_eq!(
        result.err().unwrap(),
        NotificationRuleViolation::OwnerIgnoresCommentsForProject(
            GerritUsername::from("change.owner"),
            ProjectName::from("project")
        )
    );
}

fn create_patch_owner_settings() -> OwnerSettings {
    OwnerSettings {
        subscribe_comment: true,
        subscribe_verified: false,
        subscribe_ready_for_submit: false,
        subscribe_submitted: true,
        ignore_empty_review_comments: false,
        ignore_by_username: vec![],
        ignore_projects: vec![],
    }
}

fn create_patch_status_changed_data() -> PatchStatusChangedData {
    PatchStatusChangedData {
        base: BaseData {
            change_owner: String::from("Firstname Lastname"),
            change_owner_username: GerritUsername::from("change.owner"),
            change_url: String::from("change_url"),
            project: ProjectName::from("project"),
        },
        author_username: GerritUsername::from("author.user"),
        patch_status: PatchStatus::NoChange,
    }
}

#[test]
fn no_error_when_verified_plus_one() {
    let settings = OwnerSettings {
        subscribe_verified: true,
        ..create_patch_owner_settings()
    };

    let data = PatchStatusChangedData {
        patch_status: PatchStatus::Verified(VerifiedStatus::PlusOne),
        ..create_patch_status_changed_data()
    };

    let result = check_notification_settings(&settings, &data);
    assert_eq!(true, result.is_ok());
}

#[test]
fn fail_when_author_and_owner_are_the_same() {
    let settings = create_patch_owner_settings();
    let data = PatchStatusChangedData {
        author_username: GerritUsername::from("change.owner"),
        patch_status: PatchStatus::Verified(VerifiedStatus::PlusOne),
        ..create_patch_status_changed_data()
    };
    let result = check_notification_settings(&settings, &data);
    assert_eq!(
        NotificationRuleViolation::AuthorAndOwnerAreTheSame,
        result.err().unwrap()
    );
}

#[test]
fn fail_when_owner_not_subscribed_to_submit_notification() {
    // GIVEN we are not subscribed to ready for submit
    let settings = create_patch_owner_settings();
    // AND the patch status is ready for submit
    let data = PatchStatusChangedData {
        patch_status: PatchStatus::ReadyForSubmit,
        ..create_patch_status_changed_data()
    };

    let result = check_notification_settings(&settings, &data);

    // THEN an error is generated
    assert_eq!(
        NotificationRuleViolation::OwnerNotSubscribedToSubmitNotification(GerritUsername::from(
            "change.owner"
        )),
        result.err().unwrap()
    );
}

#[test]
fn fail_when_owner_not_subscribed_to_verified_notification() {
    // GIVEN we are not subscribed to verified ...
    let settings = create_patch_owner_settings();
    // AND we the PatchStatus changed to Verified +1
    let data = PatchStatusChangedData {
        patch_status: PatchStatus::Verified(VerifiedStatus::PlusOne),
        ..create_patch_status_changed_data()
    };

    let result = check_notification_settings(&settings, &data);

    // THEN an error is generated.
    assert_eq!(
        NotificationRuleViolation::OwnerNotSubscribedToVerfiedNotification(GerritUsername::from(
            "change.owner"
        )),
        result.err().unwrap()
    );
}

#[test]
fn fail_when_owner_not_subscribed_to_verified_notification_and_both_changed() {
    // GIVEN we are not subscribed to verified ...
    let settings = create_patch_owner_settings();
    // AND we the PatchStatus changed to Verified +1
    let data = PatchStatusChangedData {
        patch_status: PatchStatus::Both(CodeReviewStatus::PlusOne, VerifiedStatus::PlusOne),
        ..create_patch_status_changed_data()
    };

    let result = check_notification_settings(&settings, &data);

    // THEN an error is generated.
    assert_eq!(
        NotificationRuleViolation::OwnerNotSubscribedToVerfiedNotification(GerritUsername::from(
            "change.owner"
        )),
        result.err().unwrap()
    );
}

#[test]
fn fail_when_no_patch_status_is_given() {
    // GIVEN we are subscribed to everything
    let settings = create_patch_owner_settings();
    // AND the PatchStatus carries no change
    let data = PatchStatusChangedData {
        patch_status: PatchStatus::NoChange,
        ..create_patch_status_changed_data()
    };

    let result = check_notification_settings(&settings, &data);

    // THEN an error is generated.
    assert_eq!(
        NotificationRuleViolation::NoPatchStatusSet,
        result.err().unwrap()
    );
}

/// The test covers the Job-retrigger case in Jenkins.
#[test]
fn fail_when_verified_status_switches_to_none() {
    // GIVEN we are subscribed to verified
    let settings = OwnerSettings {
        subscribe_verified: true,
        ..create_patch_owner_settings()
    };
    // AND the verify score is the neutral one
    let data = PatchStatusChangedData {
        patch_status: PatchStatus::Verified(VerifiedStatus::Neutral),
        ..create_patch_status_changed_data()
    };

    let result = check_notification_settings(&settings, &data);

    // THEN an error is generated
    assert_eq!(
        NotificationRuleViolation::NoPatchStatusSet,
        result.err().unwrap()
    );
}

fn create_reviewer_settings() -> ReviewerSettings {
    ReviewerSettings {
        subscribe: true,
        ignore_topics: vec![],
        ignore_projects: vec![],
        ignore_by_username: vec![],
    }
}

#[test]
fn reviewer_not_subscribed_is_rejected() {
    let settings = ReviewerSettings {
        subscribe: false,
        ..create_reviewer_settings()
    };
    let result = reviewer_notification_wanted(
        &GerritUsername::from("change.owner"),
        &GerritUsername::from("second.person"),
        &settings,
    );
    assert_eq!(
        result.err().unwrap(),
        NotificationRuleViolation::ReviewerNotSubscribedToNotification(GerritUsername::from(
            "second.person"
        ))
    );
}

#[test]
fn reviewer_ignoring_owner_is_rejected() {
    let settings = ReviewerSettings {
        ignore_by_username: vec![GerritUsername::from("change.owner")],
        ..create_reviewer_settings()
    };
    let result = reviewer_notification_wanted(
        &GerritUsername::from("change.owner"),
        &GerritUsername::from("second.person"),
        &settings,
    );
    assert_eq!(
        result.err().unwrap(),
        NotificationRuleViolation::ReviewerIgnoresReviewsByChangeOwner(
            GerritUsername::from("second.person"),
            GerritUsername::from("change.owner")
        )
    );
}

#[test]
fn reviewer_subscribed_and_not_ignoring_is_accepted() {
    let settings = create_reviewer_settings();
    let result = reviewer_notification_wanted(
        &GerritUsername::from("change.owner"),
        &GerritUsername::from("second.person"),
        &settings,
    );
    assert!(result.is_ok());
}
