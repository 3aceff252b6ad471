//! The on-demand check of whether the `gh` agent is signed in, read from what
//! `gh auth status` prints.

use vstd::prelude::*;
use vstd::slice::slice_subrange;
use vstd::string::StrSliceExecFns;
use vstd::string::StringExecFns;
use crate::text::{chars_of, find, find_from, first_word, first_word_span};
use crate::tool::{lossy_text, utf8_lossy, ToolCommand, ToolCommandView, ToolRun, ToolRunView};

verus! {

/// The words that open the report of a signed-in account.
pub open spec fn logged_in_marker() -> Seq<char> {
    "Logged in to"@
}

/// The word after which the account's name stands.
pub open spec fn account_marker() -> Seq<char> {
    "account "@
}

/// The line feed, as a pattern.
pub open spec fn line_feed() -> Seq<char> {
    seq!['\n']
}

/// The account that `line` reports as signed in: the word after the first account marker
/// that follows the first signed-in marker, or `unknown` where no word follows it.
pub open spec fn line_user(line: Seq<char>) -> Option<Seq<char>> {
    match find_from(line, logged_in_marker(), 0) {
        None => None,
        Some(at) => match find_from(line, account_marker(), at + logged_in_marker().len()) {
            None => None,
            Some(account) => Some(
                match first_word(line.skip(account + account_marker().len())) {
                    Some(word) => word,
                    None => "unknown"@,
                },
            ),
        },
    }
}

/// The length of the first line of `text`, its line feed not counted.
pub open spec fn first_line_len(text: Seq<char>) -> nat {
    match find_from(text, line_feed(), 0) {
        Some(at) if 0 <= at < text.len() => at as nat,
        _ => text.len(),
    }
}

/// The account that the first line of `text` to report one reports as signed in. Lines end
/// at line feeds.
pub open spec fn logged_in_user(text: Seq<char>) -> Option<Seq<char>>
    decreases text.len(),
{
    let len = first_line_len(text);
    if line_user(text.take(len as int)) is Some {
        line_user(text.take(len as int))
    } else if len < text.len() {
        logged_in_user(text.skip(len as int + 1))
    } else {
        None
    }
}

/// A line that ends with a line feed is asked first, and the text after it only where the
/// line reports no account.
pub proof fn lemma_logged_in_user_by_lines(line: Seq<char>, rest: Seq<char>)
    requires
        !line.contains('\n'),
    ensures
        logged_in_user(line + line_feed() + rest) == if line_user(line) is Some {
            line_user(line)
        } else {
            logged_in_user(rest)
        },
{
    let text = line + line_feed() + rest;
    let at = line.len() as int;
    assert(text.subrange(at, at + 1) =~= line_feed());
    assert forall|i: int| 0 <= i < at implies !crate::text::matches_at(text, line_feed(), i) by {
        if crate::text::matches_at(text, line_feed(), i) {
            assert(text.subrange(i, i + 1)[0] == '\n');
            assert(line[i] == '\n');
        }
    }
    crate::text::lemma_find_from_least(text, line_feed(), 0, at);
    assert(text.take(at) =~= line);
    assert(text.skip(at + 1) =~= rest);
}

/// The last line needs no line feed after it.
pub proof fn lemma_logged_in_user_last_line(line: Seq<char>)
    requires
        !line.contains('\n'),
    ensures
        logged_in_user(line) == line_user(line),
{
    crate::text::lemma_find_from(line, line_feed(), 0);
    match find_from(line, line_feed(), 0) {
        Some(at) => {
            assert(line.subrange(at, at + 1)[0] == '\n');
            assert(line[at] == '\n');
        },
        None => {},
    }
    assert(line.take(line.len() as int) =~= line);
}

/// What the check resolves to, given whether the agent reported success and all that it printed.
pub open spec fn status_from_text(success: bool, text: Seq<char>) -> Result<Seq<char>, Seq<char>> {
    match logged_in_user(text) {
        Some(user) => Ok(user),
        None => if success {
            Ok("Connected"@)
        } else {
            Err("Not logged in. Run the agent's login command."@)
        },
    }
}

/// What the check resolves to for a run of `gh auth status`.
pub open spec fn status_from_run(run: ToolRunView) -> Result<Seq<char>, Seq<char>> {
    match run {
        ToolRunView::NotStarted(_) => Err("gh not found or not executable"@),
        ToolRunView::Finished { success, stdout, stderr } => status_from_text(
            success,
            utf8_lossy(stdout) + utf8_lossy(stderr),
        ),
    }
}

/// The mathematical value of a check's result.
pub open spec fn status_view(status: Result<String, String>) -> Result<Seq<char>, Seq<char>> {
    match status {
        Ok(user) => Ok(user@),
        Err(message) => Err(message@),
    }
}

/// What a search of one line for a signed-in account came to.
enum Sighting {
    /// The line reports no signed-in account.
    Absent,
    /// The line reports an account and no word follows the marker.
    Unnamed,
    /// The line reports the account named by its characters from `start` up to `end`.
    Named { start: usize, end: usize },
}

impl Sighting {
    spec fn names(self, line: Seq<char>) -> Option<Seq<char>> {
        match self {
            Sighting::Absent => None,
            Sighting::Unnamed => Some("unknown"@),
            Sighting::Named { start, end } => Some(line.subrange(start as int, end as int)),
        }
    }

    spec fn within(self, len: int) -> bool {
        match self {
            Sighting::Named { start, end } => start <= end <= len,
            _ => true,
        }
    }
}

/// Searches one line for the report of a signed-in account.
fn sight_user(line: &[char], logged_in: &[char], account: &[char]) -> (sighting: Sighting)
    requires
        logged_in@ == logged_in_marker(),
        account@ == account_marker(),
    ensures
        sighting.names(line@) == line_user(line@),
        sighting.within(line@.len() as int),
{
    let at = match find(line, logged_in, 0) {
        Some(at) => at,
        None => { return Sighting::Absent; },
    };
    let len = line.len();
    proof {
        crate::text::lemma_find_from(line@, logged_in@, 0);
    }
    let found = match find(line, account, at + logged_in.len()) {
        Some(found) => found,
        None => { return Sighting::Absent; },
    };
    proof {
        crate::text::lemma_find_from(line@, account@, at + logged_in@.len());
    }
    let from = found + account.len();
    let rest = slice_subrange(line, from, len);
    proof {
        assert(rest@ =~= line@.skip(from as int));
    }
    match first_word_span(rest) {
        Some((start, end)) => {
            proof {
                assert(rest@.subrange(start as int, end as int) =~= line@.subrange(
                    from + start,
                    from + end,
                ));
            }
            Sighting::Named { start: from + start, end: from + end }
        },
        None => Sighting::Unnamed,
    }
}

/// The account that the first line of `text` to report one reports as signed in.
pub fn find_logged_in_user(text: &str) -> (user: Option<String>)
    ensures
        match user {
            Some(name) => logged_in_user(text@) == Some(name@),
            None => logged_in_user(text@) is None,
        },
{
    let chars = chars_of(text);
    let logged_in = chars_of("Logged in to");
    let account = chars_of("account ");
    let feed: [char; 1] = ['\n'];
    assert(feed@ =~= line_feed());
    let mut start: usize = 0;
    proof {
        assert(chars@.skip(0) =~= chars@);
    }
    loop
        invariant
            start <= chars@.len(),
            chars@ == text@,
            logged_in@ == logged_in_marker(),
            account@ == account_marker(),
            feed@ == line_feed(),
            logged_in_user(text@) == logged_in_user(chars@.skip(start as int)),
        decreases chars@.len() - start,
    {
        let rest = slice_subrange(chars.as_slice(), start, chars.len());
        proof {
            assert(rest@ =~= chars@.skip(start as int));
        }
        let len = match find(rest, feed.as_slice(), 0) {
            Some(at) => at,
            None => rest.len(),
        };
        proof {
            crate::text::lemma_find_from(rest@, feed@, 0);
            assert(len == first_line_len(rest@));
        }
        let line = slice_subrange(rest, 0, len);
        proof {
            assert(line@ =~= rest@.take(len as int));
        }
        match sight_user(line, logged_in.as_slice(), account.as_slice()) {
            Sighting::Named { start: from, end: to } => {
                proof {
                    assert(line@.subrange(from as int, to as int) =~= text@.subrange(
                        start + from,
                        start + to,
                    ));
                }
                return Some(text.substring_char(start + from, start + to).to_owned());
            },
            Sighting::Unnamed => {
                return Some("unknown".to_owned());
            },
            Sighting::Absent => {
                if len == rest.len() {
                    return None;
                }
                proof {
                    assert(rest@.skip(len + 1) =~= chars@.skip(start + len + 1));
                }
                start = start + len + 1;
            },
        }
    }
}

/// Resolves the check from whether the agent reported success and all that it printed.
pub fn status_from_output(success: bool, text: &str) -> (status: Result<String, String>)
    ensures
        status_view(status) == status_from_text(success, text@),
{
    match find_logged_in_user(text) {
        Some(user) => Ok(user),
        None => if success {
            Ok("Connected".to_owned())
        } else {
            Err("Not logged in. Run the agent's login command.".to_owned())
        },
    }
}

/// Resolves the check from a run of the command that [`gh_status_command`] gives. The agent
/// reports on either stream, so both are read, standard output first.
pub fn check_gh_status(run: &ToolRun) -> (status: Result<String, String>)
    ensures
        status_view(status) == status_from_run(run@),
{
    match run {
        ToolRun::NotStarted(_) => Err("gh not found or not executable".to_owned()),
        ToolRun::Finished(output) => {
            let printed = lossy_text(output.stdout.as_slice());
            let reported = lossy_text(output.stderr.as_slice());
            let text = printed.concat(reported.as_str());
            status_from_output(output.success, text.as_str())
        },
    }
}

/// The command line of the check.
pub open spec fn gh_status_command_view() -> ToolCommandView {
    ToolCommandView { program: "gh"@, args: seq!["auth"@, "status"@] }
}

/// The command that asks the agent whether it is signed in.
pub fn gh_status_command() -> (command: ToolCommand)
    ensures
        command@ == gh_status_command_view(),
{
    let mut args: Vec<String> = Vec::new();
    args.push("auth".to_owned());
    args.push("status".to_owned());
    let command = ToolCommand { program: "gh".to_owned(), args };
    proof {
        assert(command@.args =~= gh_status_command_view().args);
    }
    command
}

} // verus!
