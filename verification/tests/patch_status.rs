use chtbtr::types::{patch_status, CodeReviewStatus, PatchStatus, VerifiedStatus};

#[test]
fn recognize_no_change() {
    let expected = PatchStatus::NoChange;

    let actual = patch_status(
        &CodeReviewStatus::PlusOne,
        &None,
        &VerifiedStatus::Neutral,
        &None,
    );
    assert_eq!(actual, expected);

    let actual = patch_status(
        &CodeReviewStatus::Neutral,
        &None,
        &VerifiedStatus::MinusOne,
        &None,
    );
    assert_eq!(actual, expected);
}

#[test]
fn recognize_ready_for_submit_on_both_change() {
    let expected = PatchStatus::ReadyForSubmit;
    let actual = patch_status(
        &CodeReviewStatus::PlusTwo,
        &Some(CodeReviewStatus::Neutral),
        &VerifiedStatus::PlusOne,
        &Some(VerifiedStatus::Neutral),
    );
    assert_eq!(actual, expected);
}

#[test]
fn recognize_ready_for_submit_on_code_review_change() {
    let expected = PatchStatus::ReadyForSubmit;
    let actual = patch_status(
        &CodeReviewStatus::PlusTwo,
        &Some(CodeReviewStatus::Neutral),
        &VerifiedStatus::PlusOne,
        &None,
    );

    assert_eq!(actual, expected);
}

#[test]
fn recognize_ready_for_submit_on_verified_change() {
    let expected = PatchStatus::ReadyForSubmit;
    let actual = patch_status(
        &CodeReviewStatus::PlusTwo,
        &None,
        &VerifiedStatus::PlusOne,
        &Some(VerifiedStatus::Neutral),
    );

    assert_eq!(actual, expected);
}

///////////////////////////////////////////////////////////////////////
// Tests that assume only one status (verified or code review) changed
///////////////////////////////////////////////////////////////////////

#[test]
fn recognize_changed_verified_status() {
    for new_verified in [
        VerifiedStatus::Neutral,
        VerifiedStatus::MinusOne,
        VerifiedStatus::PlusOne,
    ]
    .iter()
    {
        let test_params = [
            &Some(VerifiedStatus::Neutral),
            &Some(VerifiedStatus::PlusOne),
            &Some(VerifiedStatus::MinusOne),
        ];

        let new_code_review = &CodeReviewStatus::Neutral;
        let old_code_review = &None;

        let expected = PatchStatus::Verified(new_verified.clone());

        for old_verified in test_params.iter() {
            let actual = patch_status(new_code_review, old_code_review, new_verified, old_verified);
            assert_eq!(actual, expected);
        }
    }
}

#[test]
fn recognize_changed_code_review_status() {
    for new_code_review in [
        CodeReviewStatus::Neutral,
        CodeReviewStatus::MinusOne,
        CodeReviewStatus::PlusOne,
        CodeReviewStatus::MinusTwo,
        CodeReviewStatus::PlusTwo,
    ]
    .iter()
    {
        let old_code_reviews = [
            Some(CodeReviewStatus::Neutral),
            Some(CodeReviewStatus::PlusOne),
            Some(CodeReviewStatus::PlusTwo),
            Some(CodeReviewStatus::MinusOne),
            Some(CodeReviewStatus::MinusTwo),
        ];

        let new_verified = &VerifiedStatus::Neutral;
        let old_verified = &None;

        let expected = PatchStatus::CodeReview(new_code_review.clone());

        for old_code_review in old_code_reviews.iter() {
            let actual = patch_status(new_code_review, old_code_review, new_verified, old_verified);
            assert_eq!(actual, expected);
        }
    }
}

#[test]
fn code_review_status_parses_scores() {
    assert_eq!(CodeReviewStatus::from("2"), CodeReviewStatus::PlusTwo);
    assert_eq!(CodeReviewStatus::from(" 1 "), CodeReviewStatus::PlusOne);
    assert_eq!(CodeReviewStatus::from("-1"), CodeReviewStatus::MinusOne);
    assert_eq!(CodeReviewStatus::from("-2"), CodeReviewStatus::MinusTwo);
    assert_eq!(CodeReviewStatus::from("0"), CodeReviewStatus::Neutral);
    assert_eq!(CodeReviewStatus::from("junk"), CodeReviewStatus::Neutral);
}

#[test]
fn status_text_matches_scores() {
    assert_eq!(CodeReviewStatus::PlusTwo.as_text(), "+2");
    assert_eq!(CodeReviewStatus::MinusTwo.as_text(), "-2");
    assert_eq!(VerifiedStatus::PlusOne.as_text(), "+1");
    assert_eq!(VerifiedStatus::Neutral.as_text(), "0");
    assert_eq!(VerifiedStatus::MinusOne.as_text(), "-1");
}
