use chtbtr::just::{make_api_url, remove_email_from_owner, user_firstname, user_lastname};

#[test]
pub fn can_cut_off_email_part() {
    let result = remove_email_from_owner("First Last <first.last@something.com>");
    assert_eq!("First Last", result);

    let result = remove_email_from_owner("First Middle Last <first.last@something.com>");
    assert_eq!("First Middle Last", result);
}

#[test]
pub fn can_find_lastname() {
    let result = user_lastname("First Last <first.last@something.com>");
    assert_eq!("Last", result);

    let result = user_lastname("First Middle Last <first.last@something.com>");
    assert_eq!("Last", result);
}

#[test]
pub fn can_find_firstname() {
    let result = user_firstname("First Last <first.last@something.com>");
    assert_eq!("First", result);

    let result = user_firstname("First Middle Last <first.last@something.com>");
    assert_eq!("First", result);
}

#[test]
fn api_url_is_domain_and_path() {
    assert_eq!(
        make_api_url("just.social", "toro/chat/api/v2/users"),
        "https://just.social/toro/chat/api/v2/users"
    );
}
