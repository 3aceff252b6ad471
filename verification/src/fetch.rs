//! The two ways of fetching the number of pending review requests, and the reading of what
//! each tool hands back.

use vstd::prelude::*;
use vstd::string::StringExecFns;
use crate::config::AuthMethod;
use crate::text::{trim, trimmed};
use crate::tool::{lossy_text, utf8_lossy, ToolCommand, ToolCommandView, ToolRun, ToolRunView};

verus! {

/// The mathematical value of a fetch's outcome.
pub open spec fn outcome_view(outcome: Result<u32, String>) -> Result<u32, Seq<char>> {
    match outcome {
        Ok(count) => Ok(count),
        Err(message) => Err(message@),
    }
}

/// The value of a decimal digit.
pub open spec fn digit_value(c: char) -> Option<nat> {
    if '0' <= c <= '9' {
        Some((c as u32 - '0' as u32) as nat)
    } else {
        None
    }
}

/// The number that a non-empty run of decimal digits writes.
pub open spec fn digits_value(s: Seq<char>) -> Option<nat>
    decreases s.len(),
{
    if s.len() == 0 {
        None
    } else if s.len() == 1 {
        digit_value(s[0])
    } else {
        match (digits_value(s.drop_last()), digit_value(s.last())) {
            (Some(high), Some(low)) => Some(10 * high + low),
            _ => None,
        }
    }
}

/// The number that `s` writes: decimal digits, with or without a plus sign before them.
pub open spec fn numeral_value(s: Seq<char>) -> Option<nat> {
    if s.len() > 0 && s[0] == '+' {
        digits_value(s.drop_first())
    } else {
        digits_value(s)
    }
}

/// The words in which `str::parse::<u32>` describes why it does not accept `s`.
pub uninterp spec fn count_parse_error(s: Seq<char>) -> Seq<char>;

/// The count that `s` writes, or why it writes none.
pub open spec fn parsed_count(s: Seq<char>) -> Result<u32, Seq<char>> {
    match numeral_value(s) {
        Some(value) if value <= u32::MAX => Ok(value as u32),
        _ => Err(count_parse_error(s)),
    }
}

/// Calls `str::parse::<u32>` and renders its error as text. Trusted: the call accepts exactly
/// the decimal numerals, with an optional plus sign, whose value fits in 32 bits, and returns
/// that value; what it says of any other text is the parser's own wording.
#[verifier::external_body]
pub(crate) fn parse_count(s: &str) -> (count: Result<u32, String>)
    ensures
        match count {
            Ok(value) => numeral_value(s@) == Some(value as nat),
            Err(message) => {
                &&& !(numeral_value(s@) matches Some(value) && value <= u32::MAX)
                &&& message@ == count_parse_error(s@)
            },
        },
{
    match s.parse::<u32>() {
        Ok(count) => Ok(count),
        Err(error) => Err(error.to_string()),
    }
}

/// What a fetch through the agent comes to, given whether the agent reported success and the
/// text of its two streams.
pub open spec fn gh_count_from_text(success: bool, printed: Seq<char>, reported: Seq<char>)
    -> Result<u32, Seq<char>> {
    if success {
        parsed_count(trimmed(printed))
    } else {
        Err(trimmed(reported))
    }
}

/// What a fetch through the agent comes to for a run of its command.
pub open spec fn gh_count_from_run(run: ToolRunView) -> Result<u32, Seq<char>> {
    match run {
        ToolRunView::NotStarted(reason) => Err("gh not found: "@ + reason),
        ToolRunView::Finished { success, stdout, stderr } => gh_count_from_text(
            success,
            utf8_lossy(stdout),
            utf8_lossy(stderr),
        ),
    }
}

/// Reads the count from the text of the agent's two streams: on success the number on its
/// standard output, otherwise its complaint on standard error.
pub fn gh_count_from_output(success: bool, printed: &str, reported: &str) -> (outcome: Result<
    u32,
    String,
>)
    ensures
        outcome_view(outcome) == gh_count_from_text(success, printed@, reported@),
{
    if !success {
        return Err(trim(reported).to_owned());
    }
    parse_count(trim(printed))
}

/// Reads the count from a run of the command that [`gh_count_command`] gives.
pub fn fetch_via_gh_cli(run: &ToolRun) -> (outcome: Result<u32, String>)
    ensures
        outcome_view(outcome) == gh_count_from_run(run@),
{
    match run {
        ToolRun::NotStarted(reason) => Err("gh not found: ".to_owned().concat(reason.as_str())),
        ToolRun::Finished(output) => {
            let printed = lossy_text(output.stdout.as_slice());
            let reported = lossy_text(output.stderr.as_slice());
            gh_count_from_output(output.success, printed.as_str(), reported.as_str())
        },
    }
}

/// What the engine reads of a reply of the search endpoint.
#[derive(Debug)]
pub struct SearchReply {
    /// The member `total_count`, where the reply is an object that holds it as a
    /// non-negative integer of at most 64 bits.
    pub total_count: Option<u64>,
    /// The member `message`, where the reply is an object that holds it as a string.
    pub message: Option<String>,
}

/// The mathematical value of a [`SearchReply`].
pub struct SearchReplyView {
    pub total_count: Option<u64>,
    pub message: Option<Seq<char>>,
}

impl View for SearchReply {
    type V = SearchReplyView;

    open spec fn view(&self) -> SearchReplyView {
        SearchReplyView {
            total_count: self.total_count,
            message: match self.message {
                Some(message) => Some(message@),
                None => None,
            },
        }
    }
}

/// The mathematical value of a decoded reply, or of the decoder's complaint.
pub open spec fn decoded_view(decoded: Result<SearchReply, String>) -> Result<
    SearchReplyView,
    Seq<char>,
> {
    match decoded {
        Ok(reply) => Ok(reply@),
        Err(details) => Err(details@),
    }
}

/// What `serde_json` makes of `text`: the two members that the engine reads of the JSON
/// document that it holds, or the decoder's description of why it holds none.
pub uninterp spec fn json_search_reply(text: Seq<char>) -> Result<SearchReplyView, Seq<char>>;

/// Decodes `text` with `serde_json::from_str` into a `serde_json::Value`, and reads the
/// members `total_count` (with `Value::as_u64`) and `message` (with `Value::as_str`) by
/// indexing. Trusted: the result is a function of the text alone. Nothing is claimed of which
/// texts decode, nor of what the decoder says of those that do not.
#[verifier::external_body]
pub(crate) fn read_search_reply(text: &str) -> (decoded: Result<SearchReply, String>)
    ensures
        decoded_view(decoded) == json_search_reply(text@),
{
    match serde_json::from_str::<serde_json::Value>(text) {
        Ok(value) => Ok(
            SearchReply {
                total_count: value["total_count"].as_u64(),
                message: value["message"].as_str().map(String::from),
            },
        ),
        Err(error) => Err(error.to_string()),
    }
}

/// The count that a reply carries, or the error that it stands for. A count that does not fit
/// in 32 bits is cut down to its 32 low bits.
pub open spec fn count_from_reply_view(reply: SearchReplyView) -> Result<u32, Seq<char>> {
    match reply.total_count {
        Some(total) => Ok((total % 0x1_0000_0000) as u32),
        None => match reply.message {
            Some(message) => Err("API error: "@ + message),
            None => Err("total_count not found in response"@),
        },
    }
}

/// What a decoded reply, or the failure to decode one, comes to.
pub open spec fn count_from_decoded_view(decoded: Result<SearchReplyView, Seq<char>>) -> Result<
    u32,
    Seq<char>,
> {
    match decoded {
        Ok(reply) => count_from_reply_view(reply),
        Err(details) => Err("JSON parse error: "@ + details),
    }
}

/// What a fetch by token comes to for a run of its command.
pub open spec fn pat_count_from_run(run: ToolRunView) -> Result<u32, Seq<char>> {
    match run {
        ToolRunView::NotStarted(reason) => Err("curl not found: "@ + reason),
        ToolRunView::Finished { success, stdout, stderr } => if success {
            count_from_decoded_view(json_search_reply(utf8_lossy(stdout)))
        } else {
            Err("Request failed: "@ + utf8_lossy(stderr))
        },
    }
}

/// Reads the count from a reply: its total where it has one, else its message as an error.
pub fn count_from_reply(reply: &SearchReply) -> (outcome: Result<u32, String>)
    ensures
        outcome_view(outcome) == count_from_reply_view(reply@),
{
    match reply.total_count {
        Some(total) => {
            let low: u64 = total % 0x1_0000_0000;
            Ok(low as u32)
        },
        None => match &reply.message {
            Some(message) => Err("API error: ".to_owned().concat(message.as_str())),
            None => Err("total_count not found in response".to_owned()),
        },
    }
}

/// Reads the count from a decoded reply, or reports that the reply could not be decoded.
pub fn count_from_decoded(decoded: &Result<SearchReply, String>) -> (outcome: Result<u32, String>)
    ensures
        outcome_view(outcome) == count_from_decoded_view(decoded_view(*decoded)),
{
    match decoded {
        Ok(reply) => count_from_reply(reply),
        Err(details) => Err("JSON parse error: ".to_owned().concat(details.as_str())),
    }
}

/// Reads the count from a run of the command that [`pat_count_command`] gives.
pub fn fetch_via_pat(run: &ToolRun) -> (outcome: Result<u32, String>)
    ensures
        outcome_view(outcome) == pat_count_from_run(run@),
{
    match run {
        ToolRun::NotStarted(reason) => Err("curl not found: ".to_owned().concat(reason.as_str())),
        ToolRun::Finished(output) => {
            if !output.success {
                let reported = lossy_text(output.stderr.as_slice());
                return Err("Request failed: ".to_owned().concat(reported.as_str()));
            }
            let body = lossy_text(output.stdout.as_slice());
            let decoded = read_search_reply(body.as_str());
            count_from_decoded(&decoded)
        },
    }
}

/// The command line of a fetch through the agent.
pub open spec fn gh_count_command_view() -> ToolCommandView {
    ToolCommandView {
        program: "gh"@,
        args: seq![
            "api"@,
            "search/issues"@,
            "--method"@,
            "GET"@,
            "-f"@,
            "q=is:pr is:open review-requested:@me -review:approved"@,
            "--jq"@,
            ".total_count"@,
        ],
    }
}

/// The command that has the agent search for the open pull requests that await the signed-in
/// user's review, and print their number alone.
pub fn gh_count_command() -> (command: ToolCommand)
    ensures
        command@ == gh_count_command_view(),
{
    let mut args: Vec<String> = Vec::new();
    args.push("api".to_owned());
    args.push("search/issues".to_owned());
    args.push("--method".to_owned());
    args.push("GET".to_owned());
    args.push("-f".to_owned());
    args.push("q=is:pr is:open review-requested:@me -review:approved".to_owned());
    args.push("--jq".to_owned());
    args.push(".total_count".to_owned());
    let command = ToolCommand { program: "gh".to_owned(), args };
    proof {
        assert(command@.args =~= gh_count_command_view().args);
    }
    command
}

/// The command line of a fetch by token.
pub open spec fn pat_count_command_view(pat: Seq<char>) -> ToolCommandView {
    ToolCommandView {
        program: "curl"@,
        args: seq![
            "--silent"@,
            "-H"@,
            "Authorization: Bearer "@ + pat,
            "-H"@,
            "Accept: application/vnd.github+json"@,
            "https://api.github.com/search/issues?q=is:pr+is:open+review-requested:@me+-review:approved"@,
        ],
    }
}

/// The command that sends the same search to the HTTPS endpoint, with `pat` as bearer token.
pub fn pat_count_command(pat: &str) -> (command: ToolCommand)
    ensures
        command@ == pat_count_command_view(pat@),
{
    let mut args: Vec<String> = Vec::new();
    args.push("--silent".to_owned());
    args.push("-H".to_owned());
    args.push("Authorization: Bearer ".to_owned().concat(pat));
    args.push("-H".to_owned());
    args.push("Accept: application/vnd.github+json".to_owned());
    args.push(
        "https://api.github.com/search/issues?q=is:pr+is:open+review-requested:@me+-review:approved".to_owned(),
    );
    let command = ToolCommand { program: "curl".to_owned(), args };
    proof {
        assert(command@.args =~= pat_count_command_view(pat@).args);
    }
    command
}

/// How a fetch starts.
#[derive(Debug)]
pub enum FetchStart {
    /// The fetch fails at once with this message, and nothing is run.
    Refused(String),
    /// The fetch runs this command and reads the count from what it gives.
    Run(ToolCommand),
}

/// The mathematical value of a [`FetchStart`].
pub enum FetchStartView {
    Refused(Seq<char>),
    Run(ToolCommandView),
}

impl View for FetchStart {
    type V = FetchStartView;

    open spec fn view(&self) -> FetchStartView {
        match self {
            FetchStart::Refused(message) => FetchStartView::Refused(message@),
            FetchStart::Run(command) => FetchStartView::Run(command@),
        }
    }
}

/// How a fetch by `auth_method` with the token `pat` starts: by token without a token it is
/// refused, and otherwise the method alone chooses the command.
pub open spec fn fetch_start(auth_method: AuthMethod, pat: Seq<char>) -> FetchStartView {
    match auth_method {
        AuthMethod::GhCli => FetchStartView::Run(gh_count_command_view()),
        AuthMethod::Pat => if pat.len() == 0 {
            FetchStartView::Refused("No credential configured. Configure one in settings."@)
        } else {
            FetchStartView::Run(pat_count_command_view(pat))
        },
    }
}

/// What the run of a fetch's command comes to.
pub open spec fn fetch_result(auth_method: AuthMethod, run: ToolRunView) -> Result<
    u32,
    Seq<char>,
> {
    match auth_method {
        AuthMethod::GhCli => gh_count_from_run(run),
        AuthMethod::Pat => pat_count_from_run(run),
    }
}

/// Starts a fetch: says which command to run, or why none is run.
pub fn begin_fetch(auth_method: AuthMethod, pat: &str) -> (start: FetchStart)
    ensures
        start@ == fetch_start(auth_method, pat@),
        auth_method == AuthMethod::Pat && pat@.len() == 0 ==> start@ == FetchStartView::Refused(
            "No credential configured. Configure one in settings."@,
        ),
{
    match auth_method {
        AuthMethod::GhCli => FetchStart::Run(gh_count_command()),
        AuthMethod::Pat => {
            if pat.is_empty() {
                return FetchStart::Refused(
                    "No credential configured. Configure one in settings.".to_owned(),
                );
            }
            FetchStart::Run(pat_count_command(pat))
        },
    }
}

/// Ends a fetch: reads the count from the run of the command that [`begin_fetch`] gave for
/// the same method. There is no falling back from one method to the other.
pub fn fetch_pr_count(auth_method: AuthMethod, run: &ToolRun) -> (outcome: Result<u32, String>)
    ensures
        outcome_view(outcome) == fetch_result(auth_method, run@),
{
    match auth_method {
        AuthMethod::GhCli => fetch_via_gh_cli(run),
        AuthMethod::Pat => fetch_via_pat(run),
    }
}

} // verus!
