use workshop::status_matcher::{is_redirect, MatcherResult, StatusCode};

#[test]
fn success() {
    let matcher = is_redirect();
    let result = matcher.matches(&StatusCode::moved_permanently());
    assert_eq!(result, MatcherResult::Match);
    assert_eq!(matcher.describe(result), "is a redirection code");
}

/// 200 OK is not a redirect: the matcher says no and explains why.
#[test]
fn failure() {
    let matcher = is_redirect();
    let result = matcher.matches(&StatusCode::ok());
    assert_eq!(result, MatcherResult::NoMatch);
    assert_eq!(matcher.describe(result), "which isn't a redirection code");
}

#[test]
fn only_301_is_a_redirect_here() {
    for code in [100u16, 200, 300, 301, 302, 307, 308, 404, 999] {
        let status = StatusCode::from_u16(code).unwrap();
        let expected = if code == 301 { MatcherResult::Match } else { MatcherResult::NoMatch };
        assert_eq!(is_redirect().matches(&status), expected);
        assert_eq!(status.as_u16(), code);
    }
}

#[test]
fn status_numbers_are_three_digits() {
    assert!(StatusCode::from_u16(0).is_none());
    assert!(StatusCode::from_u16(99).is_none());
    assert!(StatusCode::from_u16(100).is_some());
    assert!(StatusCode::from_u16(999).is_some());
    assert!(StatusCode::from_u16(1000).is_none());
    assert_eq!(StatusCode::ok().as_u16(), 200);
    assert_eq!(StatusCode::moved_permanently().as_u16(), 301);
}
