use github_status::app::{AppModel, Message, Subscriptions};
use github_status::config::{AuthMethod, Config, PollIdentity};
use github_status::supervisor::{
    next_check_step, next_poll_step, CheckEvent, CheckStep, PollEvent, PollStep, Supervisor,
};
use github_status::tool::{ToolOutput, ToolRun};

fn identity(auth_method: AuthMethod, credential: &str, secs: u64) -> PollIdentity {
    PollIdentity { auth_method, credential: credential.to_string(), poll_interval_secs: secs }
}

fn finished(success: bool, stdout: &str, stderr: &str) -> ToolRun {
    ToolRun::Finished(ToolOutput {
        success,
        stdout: stdout.as_bytes().to_vec(),
        stderr: stderr.as_bytes().to_vec(),
    })
}

fn report_of(step: PollStep) -> (PollIdentity, Result<u32, String>, u64) {
    match step {
        PollStep::Report { message: Message::PRCountFetched(identity, outcome), pause_secs } => {
            (identity, outcome, pause_secs)
        }
        other => panic!("expected a report, got {other:?}"),
    }
}

#[test]
fn poll_loop_fetches_when_started_and_after_each_pause() {
    let key = identity(AuthMethod::GhCli, "", 120);
    for event in [PollEvent::Started, PollEvent::Slept] {
        match next_poll_step(&key, event) {
            PollStep::Run(command) => {
                assert_eq!(command.program, "gh");
                assert_eq!(command.args[0], "api");
            }
            other => panic!("expected a command, got {other:?}"),
        }
    }
    let key = identity(AuthMethod::Pat, "ghp_t", 120);
    match next_poll_step(&key, PollEvent::Slept) {
        PollStep::Run(command) => {
            assert_eq!(command.program, "curl");
            assert_eq!(command.args[2], "Authorization: Bearer ghp_t");
        }
        other => panic!("expected a command, got {other:?}"),
    }
}

#[test]
fn poll_loop_reports_under_its_identity_and_pauses_its_interval() {
    let key = identity(AuthMethod::GhCli, "unused", 300);
    let (tag, outcome, pause) =
        report_of(next_poll_step(&key, PollEvent::Ran(finished(true, "7", ""))));
    assert_eq!(tag, key);
    assert_eq!(outcome, Ok(7));
    assert_eq!(pause, 300);
}

#[test]
fn poll_loop_pauses_after_a_failure_as_after_a_success() {
    let key = identity(AuthMethod::GhCli, "", 30);
    let (tag, outcome, pause) =
        report_of(next_poll_step(&key, PollEvent::Ran(finished(false, "", "rate limited"))));
    assert_eq!(tag, key);
    assert_eq!(outcome, Err("rate limited".to_string()));
    assert_eq!(pause, 30);
    let run = ToolRun::NotStarted("gone".to_string());
    let (_, outcome, pause) = report_of(next_poll_step(&key, PollEvent::Ran(run)));
    assert_eq!(outcome, Err("gh not found: gone".to_string()));
    assert_eq!(pause, 30);
}

#[test]
fn poll_loop_without_a_token_reports_at_once_and_runs_nothing() {
    let key = identity(AuthMethod::Pat, "", 60);
    let events = [
        PollEvent::Started,
        PollEvent::Slept,
        PollEvent::Ran(finished(true, "{\"total_count\": 1}", "")),
    ];
    for event in events {
        let (tag, outcome, pause) = report_of(next_poll_step(&key, event));
        assert_eq!(tag, key);
        assert_eq!(
            outcome,
            Err("No credential configured. Configure one in settings.".to_string())
        );
        assert_eq!(pause, 60);
    }
}

#[test]
fn agent_scenarios_reach_the_status_through_the_loop() {
    let mut model = AppModel::default();
    let key = model.subscription().poll;
    let step = next_poll_step(&key, PollEvent::Ran(finished(true, "7", "")));
    match step {
        PollStep::Report { message, .. } => {
            model.update(message);
        }
        other => panic!("expected a report, got {other:?}"),
    }
    assert_eq!(model.status().count(), Some(7));
    assert_eq!(model.status().error(), None);
    let step = next_poll_step(&key, PollEvent::Ran(finished(false, "", "rate limited")));
    match step {
        PollStep::Report { message, .. } => {
            model.update(message);
        }
        other => panic!("expected a report, got {other:?}"),
    }
    assert_eq!(model.status().count(), Some(7));
    assert_eq!(model.status().error(), Some(&"rate limited".to_string()));
}

#[test]
fn check_asks_once_and_reports_under_its_number() {
    match next_check_step(4, CheckEvent::Started) {
        CheckStep::Run(command) => {
            assert_eq!(command.program, "gh");
            assert_eq!(command.args, vec!["auth", "status"]);
        }
        other => panic!("expected a command, got {other:?}"),
    }
    let run = finished(true, "", "Logged in to github.com account octocat (oauth_token)\n");
    match next_check_step(4, CheckEvent::Ran(run)) {
        CheckStep::Report(Message::GhStatusFetched(epoch, status)) => {
            assert_eq!(epoch, 4);
            assert_eq!(status, Ok("octocat".to_string()));
        }
        other => panic!("expected a report, got {other:?}"),
    }
}

#[test]
fn supervisor_starts_what_is_wanted_and_then_leaves_it_alone() {
    let mut supervisor = Supervisor::new();
    assert_eq!(supervisor.poll(), None);
    assert_eq!(supervisor.gh_check(), None);
    let key = identity(AuthMethod::GhCli, "", 60);
    let changes =
        supervisor.reconcile(Subscriptions { poll: key.clone(), gh_check: Some(1) });
    assert_eq!(changes.stop_poll, None);
    assert_eq!(changes.start_poll, Some(key.clone()));
    assert_eq!(changes.stop_check, None);
    assert_eq!(changes.start_check, Some(1));
    assert_eq!(supervisor.poll(), Some(&key));
    assert_eq!(supervisor.gh_check(), Some(1));
    let changes =
        supervisor.reconcile(Subscriptions { poll: key.clone(), gh_check: Some(1) });
    assert_eq!(changes.stop_poll, None);
    assert_eq!(changes.start_poll, None);
    assert_eq!(changes.stop_check, None);
    assert_eq!(changes.start_check, None);
    assert_eq!(supervisor.poll(), Some(&key));
}

#[test]
fn supervisor_replaces_a_loop_whose_key_changed() {
    let mut supervisor = Supervisor::new();
    let old = identity(AuthMethod::Pat, "a", 60);
    supervisor.reconcile(Subscriptions { poll: old.clone(), gh_check: Some(1) });
    for new in [
        identity(AuthMethod::GhCli, "a", 60),
        identity(AuthMethod::Pat, "b", 60),
        identity(AuthMethod::Pat, "a", 61),
    ] {
        let mut supervisor = Supervisor::new();
        supervisor.reconcile(Subscriptions { poll: old.clone(), gh_check: None });
        let changes = supervisor.reconcile(Subscriptions { poll: new.clone(), gh_check: None });
        assert_eq!(changes.stop_poll, Some(old.clone()));
        assert_eq!(changes.start_poll, Some(new.clone()));
        assert_eq!(supervisor.poll(), Some(&new));
    }
    let changes = supervisor.reconcile(Subscriptions { poll: old.clone(), gh_check: Some(2) });
    assert_eq!(changes.start_poll, None);
    assert_eq!(changes.stop_check, Some(1));
    assert_eq!(changes.start_check, Some(2));
    let changes = supervisor.reconcile(Subscriptions { poll: old.clone(), gh_check: None });
    assert_eq!(changes.stop_check, Some(2));
    assert_eq!(changes.start_check, None);
    assert_eq!(supervisor.gh_check(), None);
    let changes = supervisor.reconcile(Subscriptions { poll: old, gh_check: None });
    assert_eq!(changes.stop_check, None);
    assert_eq!(changes.start_check, None);
}

#[test]
fn two_interval_changes_leave_one_loop_with_the_second_interval() {
    let mut model = AppModel::init(Config {
        auth_method: AuthMethod::GhCli,
        github_pat: String::new(),
        poll_interval_secs: 60,
    });
    let mut supervisor = Supervisor::new();
    supervisor.reconcile(model.subscription());
    model.update(Message::SetPollInterval(3));
    let changes = supervisor.reconcile(model.subscription());
    assert_eq!(changes.stop_poll, Some(identity(AuthMethod::GhCli, "", 60)));
    assert_eq!(changes.start_poll, Some(identity(AuthMethod::GhCli, "", 300)));
    model.update(Message::SetPollInterval(5));
    let changes = supervisor.reconcile(model.subscription());
    assert_eq!(changes.stop_poll, Some(identity(AuthMethod::GhCli, "", 300)));
    assert_eq!(changes.start_poll, Some(identity(AuthMethod::GhCli, "", 1800)));
    assert_eq!(supervisor.poll(), Some(&identity(AuthMethod::GhCli, "", 1800)));
    let late = next_poll_step(
        &identity(AuthMethod::GhCli, "", 300),
        PollEvent::Ran(finished(true, "5", "")),
    );
    match late {
        PollStep::Report { message, .. } => {
            model.update(message);
        }
        other => panic!("expected a report, got {other:?}"),
    }
    assert_eq!(model.status().count(), None);
    model.update(Message::SetPollInterval(5));
    let changes = supervisor.reconcile(model.subscription());
    assert_eq!(changes.stop_poll, None);
    assert_eq!(changes.start_poll, None);
}
