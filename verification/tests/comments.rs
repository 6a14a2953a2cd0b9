//! Scenarios of the review-comment command language.

use aelita::ui::comments::{command_from_matches, Command};
use aelita::vcs::Commit;

fn parse(body: &str, def_user: &str) -> Option<Command> {
    aelita::ui::comments::parse(body, def_user)
}

#[test] fn test_comment_body_not_approved() {
    assert_eq!(parse("r?", "luser"), None);
}
#[test] fn test_comment_body_approved_def() {
    assert_eq!(
        parse("r+", "luser"),
        Some(Command::Approved("luser".to_owned(), None))
    );
}
#[test] fn test_comment_body_on_behalf() {
    assert_eq!(
        parse("r=genius", "luser"),
        Some(Command::Approved("genius".to_owned(), None))
    );
}
#[test] fn test_comment_cancel() {
    assert_eq!(parse("r-", "luser"), Some(Command::Canceled));
}
#[test] fn test_comment_not_approved_substr() {
    assert_eq!(parse("ear+", "luser"), None);
}
#[test] fn test_comment_not_approved_behalf_substr() {
    assert_eq!(parse("ear=nose", "luser"), None);
}
#[test] fn test_comment_not_canceled_substr() {
    assert_eq!(parse("ear-", "luser"), None);
}
#[test] fn test_comment_not_canceled_substr_back() {
    assert_eq!(parse("r-a=q", "luser"), None);
}
#[test] fn test_comment_not_approved_substr_back() {
    assert_eq!(parse("r+a=q", "luser"), None);
}
#[test] fn test_comment_approved_space_back() {
    assert_eq!(
        parse("r+ is not a license to kill", "luser"),
        Some(Command::Approved("luser".to_owned(), None))
    );
}
#[test] fn test_comment_approved_behalf_word_boundary_back() {
    assert_eq!(
        parse("r=genius, thanks!", "luser"),
        Some(Command::Approved("genius".to_owned(), None))
    );
}
#[test] fn test_comment_approved_behalf_empty() {
    assert_eq!(parse("r= ", "luser"), None);
}
#[test] fn test_comment_approved_behalf_at() {
    assert_eq!(
        parse("r=@genius", "luser"),
        Some(Command::Approved("genius".to_owned(), None))
    );
}
#[test] fn test_comment_approved_word_boundary_back() {
    assert_eq!(
        parse("r+!", "luser"),
        Some(Command::Approved("luser".to_owned(), None))
    );
}
#[test] fn test_comment_approved_word_boundary_front() {
    assert_eq!(
        parse("!r+", "luser"),
        Some(Command::Approved("luser".to_owned(), None))
    );
}
#[test] fn test_comment_approved_specific_commit() {
    assert_eq!(
        parse("r+ (a4068472538866d0b603793539875dac1f962c2e)", "luser"),
        Some(Command::Approved(
            "luser".to_owned(),
            Some(Commit::from(
                "a4068472538866d0b603793539875dac1f962c2e".to_owned()
            ))
        ))
    );
}


#[test]
fn commands_from_regex_results() {
    let some = |s: &str| Some(Some(s.to_owned()));
    assert_eq!(
        command_from_matches(some("@bob"), Some(false), Some(false), some("abc"), "me"),
        Some(Command::Approved("bob".to_owned(), Some(Commit::from("abc".to_owned()))))
    );
    assert_eq!(
        command_from_matches(Some(None), Some(true), Some(false), Some(None), "me"),
        Some(Command::Approved("me".to_owned(), None))
    );
    assert_eq!(command_from_matches(None, None, Some(true), None, "me"), Some(Command::Canceled));
    assert_eq!(command_from_matches(some("bob"), Some(true), Some(false), None, "me"), None);
    assert_eq!(command_from_matches(None, Some(true), Some(true), None, "me"), None);
    assert_eq!(command_from_matches(None, None, None, some("abc"), "me"), None);
}
