//! The background loops: what each does from one event to the next, and the bookkeeping
//! that stops and starts them as the engine's state changes.

use vstd::prelude::*;
use crate::app::{AppModelView, Message, MessageView, Subscriptions, SubscriptionsView};
use crate::config::{poll_values, AuthMethod, PollIdentity, PollIdentityView};
use crate::fetch::{
    begin_fetch, fetch_pr_count, fetch_result, fetch_start, FetchStart, FetchStartView,
};
use crate::probe::{check_gh_status, gh_status_command, gh_status_command_view, status_from_run};
use crate::tool::{ToolCommand, ToolCommandView, ToolRun, ToolRunView};

verus! {

/// What happened to a poll loop.
#[derive(Debug)]
pub enum PollEvent {
    /// The loop was started.
    Started,
    /// The command that the loop asked for was run.
    Ran(ToolRun),
    /// The pause that the loop asked for is over.
    Slept,
}

/// The mathematical value of a [`PollEvent`].
pub enum PollEventView {
    Started,
    Ran(ToolRunView),
    Slept,
}

impl View for PollEvent {
    type V = PollEventView;

    open spec fn view(&self) -> PollEventView {
        match self {
            PollEvent::Started => PollEventView::Started,
            PollEvent::Ran(run) => PollEventView::Ran(run@),
            PollEvent::Slept => PollEventView::Slept,
        }
    }
}

/// What a poll loop does next.
#[derive(Debug)]
pub enum PollStep {
    /// Run this command, and come back with what it gave.
    Run(ToolCommand),
    /// Send this message to the engine, pause for so many seconds, and come back.
    Report { message: Message, pause_secs: u64 },
}

/// The mathematical value of a [`PollStep`].
pub enum PollStepView {
    Run(ToolCommandView),
    Report { message: MessageView, pause_secs: u64 },
}

impl View for PollStep {
    type V = PollStepView;

    open spec fn view(&self) -> PollStepView {
        match self {
            PollStep::Run(command) => PollStepView::Run(command@),
            PollStep::Report { message, pause_secs } => PollStepView::Report {
                message: message@,
                pause_secs: *pause_secs,
            },
        }
    }
}

/// The report that ends one cycle of the loop that runs under `identity`: the outcome, under
/// the loop's identity, and then a pause of the loop's interval, whatever the outcome was.
pub open spec fn poll_report(identity: PollIdentityView, outcome: Result<u32, Seq<char>>)
    -> PollStepView {
    PollStepView::Report {
        message: MessageView::PRCountFetched(identity, outcome),
        pause_secs: identity.poll_interval_secs,
    }
}

/// What the loop that runs under `identity` does after `event`. A cycle is a fetch, a report
/// and a pause; a fetch that is refused is reported without anything being run.
pub open spec fn poll_step(identity: PollIdentityView, event: PollEventView) -> PollStepView {
    match fetch_start(identity.auth_method, identity.credential) {
        FetchStartView::Refused(message) => poll_report(identity, Err(message)),
        FetchStartView::Run(command) => match event {
            PollEventView::Ran(run) => poll_report(
                identity,
                fetch_result(identity.auth_method, run),
            ),
            _ => PollStepView::Run(command),
        },
    }
}

/// Says what the poll loop that runs under `identity` does after `event`.
pub fn next_poll_step(identity: &PollIdentity, event: PollEvent) -> (step: PollStep)
    ensures
        step@ == poll_step(identity@, event@),
        identity.auth_method == AuthMethod::Pat && identity.credential@.len() == 0 ==> step@
            == poll_report(
            identity@,
            Err("No credential configured. Configure one in settings."@),
        ),
{
    let pause_secs = identity.poll_interval_secs;
    match begin_fetch(identity.auth_method, identity.credential.as_str()) {
        FetchStart::Refused(message) => PollStep::Report {
            message: Message::PRCountFetched(identity.clone(), Err(message)),
            pause_secs,
        },
        FetchStart::Run(command) => match event {
            PollEvent::Ran(run) => PollStep::Report {
                message: Message::PRCountFetched(
                    identity.clone(),
                    fetch_pr_count(identity.auth_method, &run),
                ),
                pause_secs,
            },
            _ => PollStep::Run(command),
        },
    }
}

/// What happened to a check of the agent.
#[derive(Debug)]
pub enum CheckEvent {
    /// The check was started.
    Started,
    /// The command that the check asked for was run.
    Ran(ToolRun),
}

/// The mathematical value of a [`CheckEvent`].
pub enum CheckEventView {
    Started,
    Ran(ToolRunView),
}

impl View for CheckEvent {
    type V = CheckEventView;

    open spec fn view(&self) -> CheckEventView {
        match self {
            CheckEvent::Started => CheckEventView::Started,
            CheckEvent::Ran(run) => CheckEventView::Ran(run@),
        }
    }
}

/// What a check of the agent does next.
#[derive(Debug)]
pub enum CheckStep {
    /// Run this command, and come back with what it gave.
    Run(ToolCommand),
    /// Send this message to the engine, and then rest until stopped.
    Report(Message),
}

/// The mathematical value of a [`CheckStep`].
pub enum CheckStepView {
    Run(ToolCommandView),
    Report(MessageView),
}

impl View for CheckStep {
    type V = CheckStepView;

    open spec fn view(&self) -> CheckStepView {
        match self {
            CheckStep::Run(command) => CheckStepView::Run(command@),
            CheckStep::Report(message) => CheckStepView::Report(message@),
        }
    }
}

/// What the check that was armed under `epoch` does after `event`: it asks the agent once,
/// and reports what that came to under its own number.
pub open spec fn check_step(epoch: u64, event: CheckEventView) -> CheckStepView {
    match event {
        CheckEventView::Started => CheckStepView::Run(gh_status_command_view()),
        CheckEventView::Ran(run) => CheckStepView::Report(
            MessageView::GhStatusFetched(epoch, status_from_run(run)),
        ),
    }
}

/// Says what the check that was armed under `epoch` does after `event`.
pub fn next_check_step(epoch: u64, event: CheckEvent) -> (step: CheckStep)
    ensures
        step@ == check_step(epoch, event@),
{
    match event {
        CheckEvent::Started => CheckStep::Run(gh_status_command()),
        CheckEvent::Ran(run) => CheckStep::Report(
            Message::GhStatusFetched(epoch, check_gh_status(&run)),
        ),
    }
}

/// The mathematical value of a [`Supervisor`]: the loops that are running.
pub struct SupervisorView {
    pub poll: Option<PollIdentityView>,
    pub gh_check: Option<u64>,
}

/// The mathematical value of [`Changes`].
pub struct ChangesView {
    pub stop_poll: Option<PollIdentityView>,
    pub start_poll: Option<PollIdentityView>,
    pub stop_check: Option<u64>,
    pub start_check: Option<u64>,
}

impl SupervisorView {
    /// No loop is running.
    pub open spec fn idle() -> SupervisorView {
        SupervisorView { poll: None, gh_check: None }
    }

    /// The loops that run once `wanted` has been put into effect.
    pub open spec fn reconciled(self, wanted: SubscriptionsView) -> SupervisorView {
        SupervisorView { poll: Some(wanted.poll), gh_check: wanted.gh_check }
    }

    /// What has to be stopped and started to put `wanted` into effect: a loop whose key is
    /// unchanged is left alone, and every other one is stopped and replaced.
    pub open spec fn changes(self, wanted: SubscriptionsView) -> ChangesView {
        ChangesView {
            stop_poll: if self.poll == Some(wanted.poll) {
                None
            } else {
                self.poll
            },
            start_poll: if self.poll == Some(wanted.poll) {
                None
            } else {
                Some(wanted.poll)
            },
            stop_check: if self.gh_check == wanted.gh_check {
                None
            } else {
                self.gh_check
            },
            start_check: if self.gh_check == wanted.gh_check {
                None
            } else {
                wanted.gh_check
            },
        }
    }
}

/// A loop is started exactly when none runs under the wanted key, and what ran under another
/// key is then stopped; afterwards exactly the wanted loops run.
pub proof fn lemma_restart_on_change(running: SupervisorView, wanted: SubscriptionsView)
    ensures
        running.changes(wanted).start_poll is Some <==> running.poll != Some(wanted.poll),
        running.changes(wanted).start_poll is Some ==> running.changes(wanted).stop_poll
            == running.poll,
        running.changes(wanted).start_poll is None ==> running.changes(wanted).stop_poll is None,
        running.changes(wanted).start_check is Some <==> wanted.gh_check is Some
            && running.gh_check != wanted.gh_check,
        running.changes(wanted).stop_check is Some <==> running.gh_check is Some
            && running.gh_check != wanted.gh_check,
        running.reconciled(wanted).poll == Some(wanted.poll),
        running.reconciled(wanted).gh_check == wanted.gh_check,
        running.reconciled(wanted).changes(wanted) == (ChangesView {
            stop_poll: None,
            start_poll: None,
            stop_check: None,
            start_check: None,
        }),
{
}

/// The offered poll intervals differ from one another.
pub proof fn lemma_poll_values_distinct(first: usize, second: usize)
    requires
        first < poll_values().len(),
        second < poll_values().len(),
        first != second,
    ensures
        poll_values()[first as int] != poll_values()[second as int],
{
}

/// When the poll interval is set twice in a row, to two different offered intervals, with the
/// loops put into effect after each: the loop of the first interval is stopped and that of
/// the second started, the one poll loop that then runs has the second interval, and an
/// outcome that the first loop still sends changes nothing.
pub proof fn lemma_interval_change_restarts(
    model: AppModelView,
    running: SupervisorView,
    first: usize,
    second: usize,
    outcome: Result<u32, Seq<char>>,
)
    requires
        first < poll_values().len(),
        second < poll_values().len(),
        first != second,
    ensures
        ({
            let after_first = model.next(MessageView::SetPollInterval(first));
            let running_first = running.reconciled(after_first.subscriptions());
            let after_second = after_first.next(MessageView::SetPollInterval(second));
            let changes = running_first.changes(after_second.subscriptions());
            let running_second = running_first.reconciled(after_second.subscriptions());
            &&& after_first.config.poll_identity().poll_interval_secs == poll_values()[first as int]
            &&& after_second.config.poll_identity().poll_interval_secs
                == poll_values()[second as int]
            &&& changes.stop_poll == Some(after_first.config.poll_identity())
            &&& changes.start_poll == Some(after_second.config.poll_identity())
            &&& running_second.poll == Some(after_second.config.poll_identity())
            &&& after_second.next(
                MessageView::PRCountFetched(after_first.config.poll_identity(), outcome),
            ) == after_second
        }),
{
    lemma_poll_values_distinct(first, second);
}

/// The loops to stop and to start, each named by its key.
#[derive(Debug)]
pub struct Changes {
    /// The poll loop to stop.
    pub stop_poll: Option<PollIdentity>,
    /// The poll loop to start.
    pub start_poll: Option<PollIdentity>,
    /// The check of the agent to stop.
    pub stop_check: Option<u64>,
    /// The check of the agent to start.
    pub start_check: Option<u64>,
}

/// The mathematical value of an identity that may be absent.
pub open spec fn identity_view(identity: Option<PollIdentity>) -> Option<PollIdentityView> {
    match identity {
        Some(identity) => Some(identity@),
        None => None,
    }
}

impl View for Changes {
    type V = ChangesView;

    open spec fn view(&self) -> ChangesView {
        ChangesView {
            stop_poll: identity_view(self.stop_poll),
            start_poll: identity_view(self.start_poll),
            stop_check: self.stop_check,
            start_check: self.start_check,
        }
    }
}

/// The record of the loops that are running: at most one poll loop and at most one check.
#[derive(Debug)]
pub struct Supervisor {
    poll: Option<PollIdentity>,
    gh_check: Option<u64>,
}

impl View for Supervisor {
    type V = SupervisorView;

    closed spec fn view(&self) -> SupervisorView {
        SupervisorView { poll: identity_view(self.poll), gh_check: self.gh_check }
    }
}

impl Supervisor {
    /// A supervisor under which nothing runs yet.
    pub fn new() -> (supervisor: Supervisor)
        ensures
            supervisor@ == SupervisorView::idle(),
    {
        Supervisor { poll: None, gh_check: None }
    }

    /// The identity of the poll loop that is running, if one is.
    pub fn poll(&self) -> (identity: Option<&PollIdentity>)
        ensures
            match identity {
                Some(identity) => self@.poll == Some(identity@),
                None => self@.poll is None,
            },
    {
        self.poll.as_ref()
    }

    /// The number of the check that is running, if one is.
    pub fn gh_check(&self) -> (epoch: Option<u64>)
        ensures
            epoch == self@.gh_check,
    {
        self.gh_check
    }

    /// Compares the loops that are running with those that are `wanted`, records the wanted
    /// ones as running, and says which loops to stop and which to start.
    pub fn reconcile(&mut self, wanted: Subscriptions) -> (changes: Changes)
        ensures
            final(self)@ == old(self)@.reconciled(wanted@),
            changes@ == old(self)@.changes(wanted@),
    {
        let same_poll = match &self.poll {
            Some(running) => *running == wanted.poll,
            None => false,
        };
        let same_check = self.gh_check == wanted.gh_check;
        let mut changes = Changes {
            stop_poll: None,
            start_poll: None,
            stop_check: None,
            start_check: None,
        };
        if !same_check {
            changes.stop_check = self.gh_check;
            changes.start_check = wanted.gh_check;
            self.gh_check = wanted.gh_check;
        }
        if !same_poll {
            changes.start_poll = Some(wanted.poll.clone());
            changes.stop_poll = self.poll.take();
            self.poll = Some(wanted.poll);
        }
        changes
    }
}

} // verus!
