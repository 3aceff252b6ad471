use github_status::config::AuthMethod;
use github_status::fetch::{
    begin_fetch, count_from_decoded, count_from_reply, fetch_pr_count, fetch_via_gh_cli,
    fetch_via_pat, gh_count_command, gh_count_from_output, pat_count_command, FetchStart,
    SearchReply,
};
use github_status::tool::{ToolOutput, ToolRun};

fn finished(success: bool, stdout: &str, stderr: &str) -> ToolRun {
    ToolRun::Finished(ToolOutput {
        success,
        stdout: stdout.as_bytes().to_vec(),
        stderr: stderr.as_bytes().to_vec(),
    })
}

#[test]
fn agent_prints_seven() {
    assert_eq!(fetch_via_gh_cli(&finished(true, "7", "")), Ok(7));
}

#[test]
fn agent_count_is_trimmed_before_it_is_read() {
    assert_eq!(fetch_via_gh_cli(&finished(true, "  42\n", "ignored")), Ok(42));
    assert_eq!(fetch_via_gh_cli(&finished(true, "\t0\r\n", "")), Ok(0));
    assert_eq!(gh_count_from_output(true, "\u{a0}3\u{3000}", ""), Ok(3));
}

#[test]
fn agent_count_takes_a_plus_sign_and_leading_zeros() {
    assert_eq!(gh_count_from_output(true, "+5", ""), Ok(5));
    assert_eq!(gh_count_from_output(true, "0000000000000000012", ""), Ok(12));
    assert_eq!(gh_count_from_output(true, "4294967295", ""), Ok(u32::MAX));
}

#[test]
fn agent_failure_gives_its_trimmed_complaint() {
    assert_eq!(
        fetch_via_gh_cli(&finished(false, "7", "rate limited")),
        Err("rate limited".to_string())
    );
    assert_eq!(
        fetch_via_gh_cli(&finished(false, "", "  gh: Not Found (HTTP 404)\n")),
        Err("gh: Not Found (HTTP 404)".to_string())
    );
    assert_eq!(fetch_via_gh_cli(&finished(false, "", " \n\t")), Err(String::new()));
}

#[test]
fn agent_output_that_is_no_count_is_a_parse_error() {
    assert_eq!(
        gh_count_from_output(true, "", ""),
        Err("cannot parse integer from empty string".to_string())
    );
    assert_eq!(
        gh_count_from_output(true, "  \n", ""),
        Err("cannot parse integer from empty string".to_string())
    );
    assert_eq!(
        gh_count_from_output(true, "seven", ""),
        Err("invalid digit found in string".to_string())
    );
    assert_eq!(
        gh_count_from_output(true, "7 8", ""),
        Err("invalid digit found in string".to_string())
    );
    assert_eq!(
        gh_count_from_output(true, "-1", ""),
        Err("invalid digit found in string".to_string())
    );
    assert_eq!(
        gh_count_from_output(true, "+", ""),
        Err("invalid digit found in string".to_string())
    );
    assert_eq!(
        gh_count_from_output(true, "4294967296", ""),
        Err("number too large to fit in target type".to_string())
    );
}

#[test]
fn agent_that_cannot_be_started_is_not_found() {
    let run = ToolRun::NotStarted("No such file or directory (os error 2)".to_string());
    assert_eq!(
        fetch_via_gh_cli(&run),
        Err("gh not found: No such file or directory (os error 2)".to_string())
    );
}

#[test]
fn agent_output_that_is_not_utf8_is_read_with_replacements() {
    let run = ToolRun::Finished(ToolOutput {
        success: false,
        stdout: Vec::new(),
        stderr: vec![b' ', b'b', 0xff, b'd', b'\n'],
    });
    assert_eq!(fetch_via_gh_cli(&run), Err("b\u{fffd}d".to_string()));
}

#[test]
fn token_reply_with_message_is_an_api_error() {
    assert_eq!(
        fetch_via_pat(&finished(true, "{\"message\":\"Bad credentials\"}", "")),
        Err("API error: Bad credentials".to_string())
    );
}

#[test]
fn token_reply_with_total_count_is_the_count() {
    assert_eq!(
        fetch_via_pat(&finished(true, "{\"total_count\": 3, \"items\": []}", "")),
        Ok(3)
    );
    assert_eq!(
        fetch_via_pat(&finished(
            true,
            "{\"total_count\": 0, \"message\": \"both are there\"}",
            ""
        )),
        Ok(0)
    );
}

#[test]
fn token_reply_without_either_member_is_an_error() {
    let expected = Err("total_count not found in response".to_string());
    assert_eq!(fetch_via_pat(&finished(true, "{}", "")), expected);
    assert_eq!(fetch_via_pat(&finished(true, "[1, 2]", "")), expected);
    assert_eq!(fetch_via_pat(&finished(true, "17", "")), expected);
    assert_eq!(fetch_via_pat(&finished(true, "{\"total_count\": -1}", "")), expected);
    assert_eq!(fetch_via_pat(&finished(true, "{\"total_count\": 3.0}", "")), expected);
    assert_eq!(fetch_via_pat(&finished(true, "{\"total_count\": \"3\"}", "")), expected);
    assert_eq!(fetch_via_pat(&finished(true, "{\"message\": 404}", "")), expected);
}

#[test]
fn token_reply_that_is_not_json_is_a_parse_error() {
    match fetch_via_pat(&finished(true, "<html>", "")) {
        Err(message) => {
            assert!(message.starts_with("JSON parse error: "));
            assert_eq!(message, "JSON parse error: expected value at line 1 column 1");
        }
        Ok(count) => panic!("read the count {count} from what is not JSON"),
    }
    match fetch_via_pat(&finished(true, "", "")) {
        Err(message) => assert!(message.starts_with("JSON parse error: ")),
        Ok(count) => panic!("read the count {count} from nothing"),
    }
}

#[test]
fn token_request_that_fails_gives_the_whole_complaint() {
    assert_eq!(
        fetch_via_pat(&finished(false, "{\"total_count\": 3}", " could not resolve host\n")),
        Err("Request failed:  could not resolve host\n".to_string())
    );
}

#[test]
fn token_tool_that_cannot_be_started_is_not_found() {
    let run = ToolRun::NotStarted("permission denied".to_string());
    assert_eq!(fetch_via_pat(&run), Err("curl not found: permission denied".to_string()));
}

#[test]
fn count_beyond_32_bits_keeps_its_low_bits() {
    let reply = SearchReply { total_count: Some(4_294_967_296 + 5), message: None };
    assert_eq!(count_from_reply(&reply), Ok(5));
    let reply = SearchReply { total_count: Some(u64::MAX), message: None };
    assert_eq!(count_from_reply(&reply), Ok(u32::MAX));
    assert_eq!(fetch_via_pat(&finished(true, "{\"total_count\": 4294967301}", "")), Ok(5));
}

#[test]
fn count_from_reply_reads_total_before_message() {
    let reply = SearchReply { total_count: Some(9), message: Some("ignored".to_string()) };
    assert_eq!(count_from_reply(&reply), Ok(9));
    let reply = SearchReply { total_count: None, message: Some("Not Found".to_string()) };
    assert_eq!(count_from_reply(&reply), Err("API error: Not Found".to_string()));
    let reply = SearchReply { total_count: None, message: None };
    assert_eq!(count_from_reply(&reply), Err("total_count not found in response".to_string()));
}

#[test]
fn count_from_decoded_names_the_decoding_failure() {
    assert_eq!(
        count_from_decoded(&Err("EOF while parsing".to_string())),
        Err("JSON parse error: EOF while parsing".to_string())
    );
    let reply = SearchReply { total_count: Some(1), message: None };
    assert_eq!(count_from_decoded(&Ok(reply)), Ok(1));
}

#[test]
fn fetch_by_token_without_a_token_runs_nothing() {
    match begin_fetch(AuthMethod::Pat, "") {
        FetchStart::Refused(message) => {
            assert_eq!(message, "No credential configured. Configure one in settings.")
        }
        FetchStart::Run(command) => panic!("asked to run {}", command.program),
    }
}

#[test]
fn fetch_by_token_runs_curl_with_the_token() {
    match begin_fetch(AuthMethod::Pat, "ghp_abc") {
        FetchStart::Run(command) => {
            assert_eq!(command.program, "curl");
            assert_eq!(
                command.args,
                vec![
                    "--silent",
                    "-H",
                    "Authorization: Bearer ghp_abc",
                    "-H",
                    "Accept: application/vnd.github+json",
                    "https://api.github.com/search/issues?q=is:pr+is:open+review-requested:@me+-review:approved",
                ]
            );
        }
        FetchStart::Refused(message) => panic!("refused: {message}"),
    }
    assert_eq!(pat_count_command(" ").args[2], "Authorization: Bearer  ");
}

#[test]
fn fetch_through_the_agent_runs_gh_whatever_the_token() {
    for pat in ["", "ghp_abc"] {
        match begin_fetch(AuthMethod::GhCli, pat) {
            FetchStart::Run(command) => {
                assert_eq!(command.program, "gh");
                assert_eq!(
                    command.args,
                    vec![
                        "api",
                        "search/issues",
                        "--method",
                        "GET",
                        "-f",
                        "q=is:pr is:open review-requested:@me -review:approved",
                        "--jq",
                        ".total_count",
                    ]
                );
            }
            FetchStart::Refused(message) => panic!("refused: {message}"),
        }
    }
    assert_eq!(gh_count_command().args.len(), 8);
}

#[test]
fn fetch_reads_the_run_by_the_method_alone() {
    let run = finished(true, "{\"total_count\": 4}", "");
    assert_eq!(fetch_pr_count(AuthMethod::Pat, &run), Ok(4));
    assert_eq!(
        fetch_pr_count(AuthMethod::GhCli, &run),
        Err("invalid digit found in string".to_string())
    );
    let run = finished(true, "4", "");
    assert_eq!(fetch_pr_count(AuthMethod::GhCli, &run), Ok(4));
    assert_eq!(
        fetch_pr_count(AuthMethod::Pat, &run),
        Err("total_count not found in response".to_string())
    );
}
