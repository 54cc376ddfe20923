//! Splitting the text of `git log` into commit messages.
//!
//! An entry of the log is recognised by its date line: the word `Date:`, the
//! rest of that line and an empty line. What follows, up to the line that
//! begins the next entry or to the end of the log, is the body of the
//! message; the commit message is that body without the white space around
//! it. The matching itself is done by the `regex` crate; what is proved here
//! is what becomes of the matches.

use crate::text::{trim, trimmed};
use regex::Regex;
use vstd::prelude::*;

verus! {

/// `regex::Error`, the reason for which a pattern was refused. Nothing of
/// its contents is known here.
#[verifier::external_type_specification]
#[verifier::external_body]
pub struct ExRegexError(regex::Error);

/// Whether `regex::Regex::new` accepts `pattern`.
pub uninterp spec fn pattern_compiles(pattern: Seq<char>) -> bool;

/// For each successive non-overlapping match of `pattern` in `text`, in the
/// order of the text: the part of the text that capture group `group` holds,
/// or `None` where the pattern has no such group or the group took no part
/// in the match.
pub uninterp spec fn group_captures(pattern: Seq<char>, group: nat, text: Seq<char>) -> Seq<
    Option<Seq<char>>,
>;

/// The pattern of a log entry. Its one group holds the body of the message:
/// all that stands between the empty line after the date and the line that
/// begins the next entry, or the end of the log.
pub const LOG_PATTERN: &'static str = r"Date:.*\n\n((?s:.*?))(?:\ncommit |\z)";

/// Why a log could not be split.
#[derive(Debug, Clone, Copy, PartialEq, Eq, Structural)]
pub enum LogError {
    /// The pattern of a log entry was refused by the regex engine.
    Pattern,
}

/// `cuts` marks one stretch of `text` for each of `parts`: the stretches lie
/// within the text, do not overlap and stand in the order of the parts, and
/// a part that is there is the text of its stretch.
pub open spec fn cut_in_order(
    text: Seq<char>,
    parts: Seq<Option<Seq<char>>>,
    cuts: Seq<(int, int)>,
) -> bool {
    &&& cuts.len() == parts.len()
    &&& forall|i: int|
        0 <= i < cuts.len() ==> 0 <= (#[trigger] cuts[i]).0 <= cuts[i].1 <= text.len()
    &&& forall|i: int, j: int|
        0 <= i < j < cuts.len() ==> (#[trigger] cuts[i]).1 <= (#[trigger] cuts[j]).0
    &&& forall|i: int|
        0 <= i < parts.len() ==> ((#[trigger] parts[i]) matches Some(part) ==> part
            == text.subrange(cuts[i].0, cuts[i].1))
}

/// The parts that are there are stretches of `text` that do not overlap and
/// follow one another as the parts do.
pub open spec fn parts_in_order(text: Seq<char>, parts: Seq<Option<Seq<char>>>) -> bool {
    exists|cuts: Seq<(int, int)>| cut_in_order(text, parts, cuts)
}

/// Compiles `pattern` with `regex::Regex::new`, walks the matches that
/// `Regex::captures_iter` finds in `text`, and hands out for each what
/// `Captures::get(group)` holds, as the text that `Match::as_str` gives.
///
/// Believed, not proved: that the call fails exactly on the patterns that the
/// engine refuses; that both this and the matches depend on the arguments
/// alone; and that the matches are successive and do not overlap, each
/// group lying within its match, so that what the group holds are stretches
/// of the text in the order of the text. Nothing is claimed about which
/// texts match.
#[verifier::external_body]
fn capture_group(pattern: &str, group: usize, text: &str) -> (r: Result<
    Vec<Option<String>>,
    regex::Error,
>)
    ensures
        r is Ok <==> pattern_compiles(pattern@),
        r matches Ok(found) ==> found.deep_view() == group_captures(
            pattern@,
            group as nat,
            text@,
        ),
        r matches Ok(found) ==> parts_in_order(text@, found.deep_view()),
{
    let re = Regex::new(pattern)?;
    Ok(re.captures_iter(text).map(|c| c.get(group).map(|m| m.as_str().to_string())).collect())
}

/// The message of each match: the captured body without the white space
/// around it, or the empty text where the group captured nothing.
pub open spec fn messages(captures: Seq<Option<Seq<char>>>) -> Seq<Seq<char>> {
    Seq::new(
        captures.len(),
        |i: int|
            match captures[i] {
                Some(body) => trimmed(body),
                None => Seq::empty(),
            },
    )
}

/// `cuts` marks one stretch of `log` for each of `commits`: the stretches lie
/// within the log, do not overlap and stand in the order of the messages,
/// and each message is what its stretch holds between the white space
/// around it.
pub open spec fn cut_follows_log(
    log: Seq<char>,
    commits: Seq<Seq<char>>,
    cuts: Seq<(int, int)>,
) -> bool {
    &&& cuts.len() == commits.len()
    &&& forall|i: int|
        0 <= i < cuts.len() ==> 0 <= (#[trigger] cuts[i]).0 <= cuts[i].1 <= log.len()
    &&& forall|i: int, j: int|
        0 <= i < j < cuts.len() ==> (#[trigger] cuts[i]).1 <= (#[trigger] cuts[j]).0
    &&& forall|i: int|
        0 <= i < commits.len() ==> (#[trigger] commits[i]) == trimmed(
            log.subrange(cuts[i].0, cuts[i].1),
        )
}

/// The messages are, in their order, trimmed stretches of the log that do
/// not overlap and follow one another as the messages do.
pub open spec fn messages_follow_log(log: Seq<char>, commits: Seq<Seq<char>>) -> bool {
    exists|cuts: Seq<(int, int)>| cut_follows_log(log, commits, cuts)
}

/// Where the captured bodies are stretches of the log in order, the messages
/// made of them follow the log.
pub proof fn lemma_messages_follow_log(log: Seq<char>, captures: Seq<Option<Seq<char>>>)
    requires
        parts_in_order(log, captures),
    ensures
        messages_follow_log(log, messages(captures)),
{
    let found = choose|cuts: Seq<(int, int)>| cut_in_order(log, captures, cuts);
    let cuts = Seq::new(
        found.len(),
        |i: int|
            if captures[i] is Some {
                found[i]
            } else {
                (found[i].0, found[i].0)
            },
    );
    let commits = messages(captures);
    assert forall|i: int, j: int| 0 <= i < j < cuts.len() implies (#[trigger] cuts[i]).1 <= (
    #[trigger] cuts[j]).0 by {
        assert(found[i].1 <= found[j].0);
        assert(found[i].0 <= found[i].1);
    }
    assert forall|i: int| 0 <= i < commits.len() implies (#[trigger] commits[i]) == trimmed(
        log.subrange(cuts[i].0, cuts[i].1),
    ) by {
        match captures[i] {
            Some(body) => {
                assert(body == log.subrange(found[i].0, found[i].1));
            },
            None => {
                assert(0 <= found[i].0 <= found[i].1);
                assert(log.subrange(cuts[i].0, cuts[i].1) =~= Seq::<char>::empty());
            },
        }
    }
    assert forall|i: int| 0 <= i < cuts.len() implies 0 <= (#[trigger] cuts[i]).0 <= cuts[i].1
        <= log.len() by {
        assert(0 <= found[i].0 <= found[i].1 <= log.len());
    }
    assert(cut_follows_log(log, commits, cuts));
}

/// Turns the body that the message group captured in each entry into the
/// list of commit messages: one message per entry, in the same order, each
/// the body without the white space around it.
pub fn commit_messages(captures: Vec<Option<String>>) -> (commits: Vec<String>)
    ensures
        commits.len() == captures.len(),
        commits.deep_view() == messages(captures.deep_view()),
        forall|i: int|
            0 <= i < captures.len() ==> (#[trigger] commits[i])@ == match captures[i] {
                Some(body) => trimmed(body@),
                None => Seq::empty(),
            },
{
    let mut commits: Vec<String> = Vec::new();
    let mut at: usize = 0;
    while at < captures.len()
        invariant
            at <= captures.len(),
            commits.len() == at,
            commits.deep_view() == messages(captures.deep_view()).take(at as int),
        decreases captures.len() - at,
    {
        let ghost before = commits.deep_view();
        let message = match &captures[at] {
            Some(body) => trim(body.as_str()),
            None => String::new(),
        };
        commits.push(message);
        proof {
            assert(commits.deep_view() =~= before + seq![message@]);
            assert(messages(captures.deep_view()).take(at + 1) =~= messages(
                captures.deep_view(),
            ).take(at as int) + seq![message@]);
        }
        at = at + 1;
    }
    proof {
        assert(messages(captures.deep_view()).take(at as int) =~= messages(captures.deep_view()));
        assert forall|i: int| 0 <= i < captures.len() implies (#[trigger] commits[i])@
            == match captures[i] {
            Some(body) => trimmed(body@),
            None => Seq::empty(),
        } by {
            assert(commits.deep_view()[i] == commits[i]@);
            assert(captures.deep_view()[i] == captures[i].deep_view());
        }
    }
    commits
}

/// The commit messages of a log, or `None` where the pattern of a log entry
/// is refused by the regex engine.
pub open spec fn log_commits(log: Seq<char>) -> Option<Seq<Seq<char>>> {
    if pattern_compiles(LOG_PATTERN@) {
        Some(messages(group_captures(LOG_PATTERN@, 1, log)))
    } else {
        None
    }
}

/// A log in which the pattern finds no entry holds no commit message. Whether
/// a log can be split at all does not depend on the log.
pub proof fn no_entries_no_commits(log: Seq<char>)
    ensures
        log_commits(log) is Some <==> pattern_compiles(LOG_PATTERN@),
        group_captures(LOG_PATTERN@, 1, log).len() == 0 ==> (log_commits(log) matches Some(
            commits,
        ) ==> commits.len() == 0),
{
}

/// Each entry that the pattern finds gives one commit message: the body
/// that the group holds there, without the white space around it, or the
/// empty text. The messages stand in the order of the entries.
pub proof fn one_message_per_entry(log: Seq<char>, commits: Seq<Seq<char>>, entry: int)
    ensures
        log_commits(log) == Some(commits) ==> commits.len() == group_captures(
            LOG_PATTERN@,
            1,
            log,
        ).len(),
        log_commits(log) == Some(commits) && 0 <= entry < commits.len() ==> commits[entry]
            == match group_captures(LOG_PATTERN@, 1, log)[entry] {
            Some(body) => trimmed(body),
            None => Seq::empty(),
        },
{
}

/// Splits the output of `git log` into the commit messages it holds: one
/// for each entry that the pattern finds, in the order in which they appear
/// in the log, each the whole body of the message without the white space
/// around it. A log in which the pattern finds no entry gives an empty
/// list, not an error.
pub fn log_split(log: &str) -> (r: Result<Vec<String>, LogError>)
    ensures
        match r {
            Ok(commits) => {
                &&& log_commits(log@) == Some(commits.deep_view())
                &&& commits.len() == group_captures(LOG_PATTERN@, 1, log@).len()
                &&& messages_follow_log(log@, commits.deep_view())
            },
            Err(error) => log_commits(log@) is None && error == LogError::Pattern,
        },
{
    match capture_group(LOG_PATTERN, 1, log) {
        Ok(found) => {
            proof {
                lemma_messages_follow_log(log@, found.deep_view());
            }
            Ok(commit_messages(found))
        },
        Err(_) => Err(LogError::Pattern),
    }
}

} // verus!
