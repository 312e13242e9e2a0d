use football_rustbot::error::FflError;

#[test]
fn error_messages_name_each_category() {
    assert_eq!(
        FflError::Transport("GET /x".to_string()).message(),
        "upstream request failed: GET /x"
    );
    assert_eq!(
        FflError::Schema("bad field".to_string()).message(),
        "unexpected upstream data: bad field"
    );
    assert_eq!(FflError::MissingRoster("u9".to_string()).message(), "no roster found for user u9");
    assert_eq!(FflError::UnresolvedLeague.message(), "no matching league");
    assert_eq!(
        FflError::MismatchedProvider.message(),
        "league config does not match its adapter"
    );
    assert_eq!(
        FflError::DuplicateShortName("alpha".to_string()).message(),
        "duplicate league short name: alpha"
    );
    assert_eq!(
        FflError::DuplicateCategoryId("100".to_string()).message(),
        "duplicate category id: 100"
    );
}
