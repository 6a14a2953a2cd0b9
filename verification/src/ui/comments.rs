//! The command language of review comments: `r+` approves, `r=user`
//! approves on behalf of `user`, `r-` cancels, and `(commit)` names the
//! commit that is approved.

use crate::vcs::Commit;
use vstd::prelude::*;
use vstd::string::*;

verus! {

/// Whether the regular expression `pattern` matches somewhere in `text`;
/// `None` when `pattern` is not a valid regular expression.
pub uninterp spec fn regex_is_match_result(pattern: Seq<char>, text: Seq<char>) -> Option<bool>;

/// The text of the first capture group of the leftmost match of `pattern`
/// in `text` (`Some(None)` when nothing matches or the group took no part in
/// the match); `None` when `pattern` is not a valid regular expression.
pub uninterp spec fn regex_first_capture_result(pattern: Seq<char>, text: Seq<char>) -> Option<
    Option<Seq<char>>,
>;

/// Calls `regex::Regex::is_match` on `text`, with the regular expression
/// that `regex::Regex::new` builds from `pattern`. The contract says only
/// that the result is a function of the two texts.
#[verifier::external_body]
fn regex_is_match(pattern: &str, text: &str) -> (r: Option<bool>)
    ensures
        r == regex_is_match_result(pattern@, text@),
{
    match regex::Regex::new(pattern) {
        Ok(re) => Some(re.is_match(text)),
        Err(_) => None,
    }
}

/// Calls `regex::Regex::captures` on `text`, with the regular expression
/// that `regex::Regex::new` builds from `pattern`, and takes the text of
/// capture group 1. The contract says only that the result is a function of
/// the two texts.
#[verifier::external_body]
fn regex_first_capture(pattern: &str, text: &str) -> (r: Option<Option<String>>)
    ensures
        match r {
            Some(Some(s)) => regex_first_capture_result(pattern@, text@) == Some(Some(s@)),
            Some(None) => regex_first_capture_result(pattern@, text@) == Some(None::<Seq<char>>),
            None => regex_first_capture_result(pattern@, text@) is None,
        },
{
    match regex::Regex::new(pattern) {
        Ok(re) => Some(re.captures(text).and_then(|c| c.get(1)).map(|m| m.as_str().to_string())),
        Err(_) => None,
    }
}

/// `r=` followed by a user name, possibly starting with `@`.
pub open spec fn review_behalf_pattern() -> Seq<char> {
    "\\br=(@?\\w+)\\b"@
}

/// A word in parentheses.
pub open spec fn specific_commit_pattern() -> Seq<char> {
    "\\((\\w+)\\)"@
}

/// `r+` as a word of its own.
pub open spec fn review_self_pattern() -> Seq<char> {
    "\\br\\+(\\W|$)"@
}

/// `r-` as a word of its own.
pub open spec fn cancel_self_pattern() -> Seq<char> {
    "\\br-(\\W|$)"@
}

/// A command written in a comment.
#[derive(Debug, PartialEq, Eq)]
pub enum Command {
    /// Approved by the named user, at the named commit if any.
    Approved(String, Option<Commit>),
    Canceled,
}

pub enum CommandView {
    Approved(Seq<char>, Option<Seq<char>>),
    Canceled,
}

impl View for Command {
    type V = CommandView;

    open spec fn view(&self) -> CommandView {
        match self {
            Command::Approved(u, c) => CommandView::Approved(u@, crate::db::commit_opt_view(*c)),
            Command::Canceled => CommandView::Canceled,
        }
    }
}

/// The user named by the capture of `r=user`, without a leading `@`.
pub open spec fn behalf_user(capture: Option<Option<Seq<char>>>) -> Option<Seq<char>> {
    match capture {
        Some(Some(u)) => if u.len() > 0 && u[0] == '@' {
            Some(u.drop_first())
        } else {
            Some(u)
        },
        _ => None,
    }
}

/// The commit named by the capture of `(commit)`.
pub open spec fn named_commit(capture: Option<Option<Seq<char>>>) -> Option<Seq<char>> {
    match capture {
        Some(Some(c)) => Some(c),
        _ => None,
    }
}

/// The command that the results of the four regular expressions make: the
/// capture of `r=user`, whether `r+` and `r-` match, and the capture of
/// `(commit)`. Exactly one of `r=user`, `r+` and `r-` must be present.
pub open spec fn spec_command_from(
    behalf: Option<Option<Seq<char>>>,
    approve: Option<bool>,
    cancel: Option<bool>,
    commit: Option<Option<Seq<char>>>,
    def_user: Seq<char>,
) -> Option<CommandView> {
    let c = named_commit(commit);
    match (behalf_user(behalf), approve == Some(true), cancel == Some(true)) {
        (Some(s), false, false) => Some(CommandView::Approved(s, c)),
        (None, true, false) => Some(CommandView::Approved(def_user, c)),
        (None, false, true) => Some(CommandView::Canceled),
        _ => None,
    }
}

/// The user a comment approves on behalf of, without a leading `@`.
pub open spec fn spec_approved_behalf(body: Seq<char>) -> Option<Seq<char>> {
    behalf_user(regex_first_capture_result(review_behalf_pattern(), body))
}

pub open spec fn spec_approved_default(body: Seq<char>) -> bool {
    regex_is_match_result(review_self_pattern(), body) == Some(true)
}

pub open spec fn spec_canceled(body: Seq<char>) -> bool {
    regex_is_match_result(cancel_self_pattern(), body) == Some(true)
}

pub open spec fn spec_specific_commit(body: Seq<char>) -> Option<Seq<char>> {
    named_commit(regex_first_capture_result(specific_commit_pattern(), body))
}

/// The command of a comment: exactly one of `r=user`, `r+` and `r-` must
/// be present.
pub open spec fn spec_parse(body: Seq<char>, def_user: Seq<char>) -> Option<CommandView> {
    spec_command_from(
        regex_first_capture_result(review_behalf_pattern(), body),
        regex_is_match_result(review_self_pattern(), body),
        regex_is_match_result(cancel_self_pattern(), body),
        regex_first_capture_result(specific_commit_pattern(), body),
        def_user,
    )
}

pub open spec fn command_opt_view(c: Option<Command>) -> Option<CommandView> {
    match c {
        Some(c) => Some(c@),
        None => None,
    }
}

/// The view of a capture's result.
pub open spec fn capture_view(c: Option<Option<String>>) -> Option<Option<Seq<char>>> {
    match c {
        Some(Some(s)) => Some(Some(s@)),
        Some(None) => Some(None),
        None => None,
    }
}

/// The command that the results of the four regular expressions make; see
/// [`spec_command_from`].
pub fn command_from_matches(
    behalf: Option<Option<String>>,
    approve: Option<bool>,
    cancel: Option<bool>,
    commit: Option<Option<String>>,
    def_user: &str,
) -> (r: Option<Command>)
    ensures
        command_opt_view(r) == spec_command_from(
            capture_view(behalf),
            approve,
            cancel,
            capture_view(commit),
            def_user@,
        ),
{
    let user = match behalf {
        Some(Some(username)) => {
            let len = username.as_str().unicode_len();
            if len > 0 && username.as_str().get_char(0) == '@' {
                let rest = username.as_str().substring_char(1, len);
                Some(String::from_str(rest))
            } else {
                Some(username)
            }
        },
        _ => None,
    };
    let approved_default = match approve {
        Some(b) => b,
        None => false,
    };
    let canceled = match cancel {
        Some(b) => b,
        None => false,
    };
    let commit = match commit {
        Some(Some(c)) => Some(Commit::from(c)),
        _ => None,
    };
    match (user, approved_default, canceled) {
        (Some(s), false, false) => Some(Command::Approved(s, commit)),
        (None, true, false) => Some(Command::Approved(String::from_str(def_user), commit)),
        (None, false, true) => Some(Command::Canceled),
        _ => None,
    }
}

/// Parse the command written in a comment; `def_user` is who approves when
/// the comment names nobody.
pub fn parse(body: &str, def_user: &str) -> (r: Option<Command>)
    ensures
        command_opt_view(r) == spec_parse(body@, def_user@),
{
    let behalf = regex_first_capture("\\br=(@?\\w+)\\b", body);
    let approve = regex_is_match("\\br\\+(\\W|$)", body);
    let cancel = regex_is_match("\\br-(\\W|$)", body);
    let commit = regex_first_capture("\\((\\w+)\\)", body);
    command_from_matches(behalf, approve, cancel, commit, def_user)
}


/// What the regular expressions handed to the `regex` crate look for, char
/// by char. `r=user` is `\b r= ( @? \w+ ) \b`: a user name is captured
/// whole, made of one or more of the regex crate's word characters
/// (letters of either case, digits and `_`), with an optional leading `@`;
/// `r+` and `r-` stand as words of their own (`\b r\+ (\W|$)`,
/// `\b r- (\W|$)`); and a commit is a run of word characters in
/// parentheses (`\( (\w+) \)`). What a pattern matches is the regex crate's
/// to say; these are the texts that the library hands it.
pub proof fn lemma_command_patterns()
    ensures
        review_behalf_pattern() == seq!['\\', 'b', 'r', '=', '(', '@', '?', '\\', 'w', '+', ')', '\\', 'b'],
        review_self_pattern() == seq!['\\', 'b', 'r', '\\', '+', '(', '\\', 'W', '|', '$', ')'],
        cancel_self_pattern() == seq!['\\', 'b', 'r', '-', '(', '\\', 'W', '|', '$', ')'],
        specific_commit_pattern() == seq!['\\', '(', '(', '\\', 'w', '+', ')', '\\', ')'],
{
    reveal_strlit("\\br=(@?\\w+)\\b");
    reveal_strlit("\\br\\+(\\W|$)");
    reveal_strlit("\\br-(\\W|$)");
    reveal_strlit("\\((\\w+)\\)");
    assert(review_behalf_pattern() =~= seq!['\\', 'b', 'r', '=', '(', '@', '?', '\\', 'w', '+', ')', '\\', 'b']);
    assert(review_self_pattern() =~= seq!['\\', 'b', 'r', '\\', '+', '(', '\\', 'W', '|', '$', ')']);
    assert(cancel_self_pattern() =~= seq!['\\', 'b', 'r', '-', '(', '\\', 'W', '|', '$', ')']);
    assert(specific_commit_pattern() =~= seq!['\\', '(', '(', '\\', 'w', '+', ')', '\\', ')']);
}

} // verus!
