use chtbtr::service::NotificationMessageComposer;
use chtbtr::types::{
    BaseData, CommentAddedData, GerritTrigger, GerritUsername, PatchStatus, PatchStatusChangedData,
    ProjectName, ReviewerAddedData, VerifiedStatus,
};

fn base_data(change_url: &str, project: &str) -> BaseData {
    BaseData {
        change_owner: String::from("change_owner"),
        change_owner_username: GerritUsername::from("change.owner"),
        change_url: String::from(change_url),
        project: ProjectName::from(project),
    }
}

#[test]
fn notification_message_for_verified() {
    let base = base_data("2", "prj");

    let composer = NotificationMessageComposer::create(String::from("domain"));
    let message_minus_one =
        composer.compose(&GerritTrigger::PatchStatusChanged(PatchStatusChangedData {
            base: base.clone(),
            author_username: GerritUsername::from("author.username"),
            patch_status: PatchStatus::Verified(VerifiedStatus::MinusOne),
        }));
    assert_eq!(
        "-1 Verified for your patch 😰 https://domain/c/prj/+/2.",
        message_minus_one.unwrap()
    );

    let message_plus_one =
        composer.compose(&GerritTrigger::PatchStatusChanged(PatchStatusChangedData {
            base: base.clone(),
            author_username: GerritUsername::from("author.username"),
            patch_status: PatchStatus::Verified(VerifiedStatus::PlusOne),
        }));
    assert_eq!(
        "+1 Verified for your patch 🌈 https://domain/c/prj/+/2.",
        message_plus_one.unwrap()
    );
    let message_none =
        composer.compose(&GerritTrigger::PatchStatusChanged(PatchStatusChangedData {
            base: base.clone(),
            author_username: GerritUsername::from("author.username"),
            patch_status: PatchStatus::Verified(VerifiedStatus::Neutral),
        }));
    assert_eq!(
        "Crazy logic error. Don't tell anyone about MetallicSheep.",
        message_none.unwrap()
    );
}

#[test]
fn notification_message_for_ready_for_submit() {
    let base = base_data("2", "prj");

    let message = NotificationMessageComposer::create(String::from("domain")).compose(
        &GerritTrigger::PatchStatusChanged(PatchStatusChangedData {
            base: base.clone(),
            author_username: GerritUsername::from("author.username"),
            patch_status: PatchStatus::ReadyForSubmit,
        }),
    );
    assert_eq!(
        "☑️ A patch is ready to submit! ✨ https://domain/c/prj/+/2",
        message.unwrap()
    );
}

#[test]
fn test_1_is_plus_one() {
    let tests = ["1", " 1", "1 ", " 1 "];
    for test_str in tests.iter() {
        let result = VerifiedStatus::from(*test_str);
        assert_eq!(
            result,
            VerifiedStatus::PlusOne,
            "VerifiedStatus::from(\"{}\") != VerifiedStatus::PlusOne",
            test_str
        );
    }
}

#[test]
fn test_minus_1_is_minus_one() {
    let tests = ["-1", " -1", "-1 ", " -1 "];
    for test_str in tests.iter() {
        let result = VerifiedStatus::from(*test_str);
        assert_eq!(
            result,
            VerifiedStatus::MinusOne,
            "VerifiedStatus::from(\"{}\") != VerifiedStatus::MinusOne",
            test_str
        );
    }
}

#[test]
fn test_others_are_none() {
    let tests = [
        "garbage", "-12", "-2", "+2", "2", "4", "-other", " 2", " other ",
    ];
    for test_str in tests.iter() {
        let result = VerifiedStatus::from(*test_str);
        assert_eq!(
            result,
            VerifiedStatus::Neutral,
            "VerifiedStatus::from(\"{}\") != VerifiedStatus::Neutral",
            test_str
        );
    }
}

#[test]
fn scores_are_trimmed_like_rust_trims() {
    let with_unicode_blanks = "\u{00A0}\u{2009}1\u{3000} ";
    assert_eq!(with_unicode_blanks.trim(), "1");
    assert_eq!(
        VerifiedStatus::from(with_unicode_blanks),
        VerifiedStatus::PlusOne
    );
}

#[test]
fn test_comment_added_notification() {
    let message = NotificationMessageComposer::create(String::from("gerrit.domain")).compose(
        &GerritTrigger::CommentAdded(CommentAddedData {
            base: base_data("2", "prj"),
            author: String::from("author lastname <author email>"),
            author_username: GerritUsername::from("author"),
        }),
    );
    assert_eq!(
        message.unwrap(),
        "Comment was added by author. 💬 https://gerrit.domain/c/prj/+/2"
    );
}

#[test]
fn reviewer_added_message_constructs_review_url() {
    let message = NotificationMessageComposer::create(String::from("gerrit.domain")).compose(
        &GerritTrigger::ReviewerAdded(ReviewerAddedData {
            change_owner: String::from("Owner Name <owner@x.com>"),
            change_owner_username: GerritUsername::from("change.owner"),
            reviewer: String::from("Second Person <second.person@x.com>"),
            reviewer_username: GerritUsername::from("second.person"),
            change_url: String::from("12312"),
            project: String::from("juco"),
        }),
    );
    assert_eq!(
        message.unwrap(),
        "You were added to review a patch. https://gerrit.domain/c/juco/+/12312"
    );
}

#[test]
fn compose_yields_nothing_for_plain_code_review_changes() {
    let composer = NotificationMessageComposer::create(String::from("domain"));
    let no_change = composer.compose(&GerritTrigger::PatchStatusChanged(PatchStatusChangedData {
        base: base_data("2", "prj"),
        author_username: GerritUsername::from("author.username"),
        patch_status: PatchStatus::NoChange,
    }));
    assert!(no_change.is_err());
    let code_review =
        composer.compose(&GerritTrigger::PatchStatusChanged(PatchStatusChangedData {
            base: base_data("2", "prj"),
            author_username: GerritUsername::from("author.username"),
            patch_status: PatchStatus::CodeReview(chtbtr::types::CodeReviewStatus::PlusTwo),
        }));
    assert!(code_review.is_err());
}
