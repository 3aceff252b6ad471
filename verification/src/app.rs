//! The engine's state and the handling of everything that reaches it: the user's intents,
//! replaced settings, and the results that the background loops send.

use vstd::prelude::*;
use vstd::string::StringExecFns;
use crate::config::{
    poll_interval_at, poll_interval_index, poll_values, AuthMethod, Config, ConfigView,
    PollIdentity, PollIdentityView,
};
use crate::fetch::outcome_view;
use crate::probe::status_view;
use crate::status::{Status, StatusView};
use crate::tool::{ToolCommand, ToolCommandView};

verus! {

/// What reaches the engine.
#[derive(Debug)]
pub enum Message {
    /// The panel button was pressed. The number is the handle that the popup gets if this
    /// opens one.
    TogglePopup(u64),
    /// The popup with this handle was closed from outside.
    PopupClosed(u64),
    /// The stored settings were replaced.
    UpdateConfig(Config),
    /// The poll loop that runs under this identity fetched the count, or failed to.
    PRCountFetched(PollIdentity, Result<u32, String>),
    /// The user asked for the list of review requests in the browser.
    OpenGitHub,
    /// The user opened the settings page.
    OpenSettings,
    /// The user left the settings page.
    CloseSettings,
    /// The user chose a way of fetching.
    SetAuthMethod(AuthMethod),
    /// The user edited the token field.
    SetPatInput(String),
    /// The user saved the token field.
    SavePat,
    /// The user chose the poll interval at this place among those offered.
    SetPollInterval(usize),
    /// The user asked for a fresh check of the agent.
    CheckGhStatus,
    /// The check of the agent that was armed under this number resolved.
    GhStatusFetched(u64, Result<String, String>),
}

/// The mathematical value of a [`Message`].
pub enum MessageView {
    TogglePopup(u64),
    PopupClosed(u64),
    UpdateConfig(ConfigView),
    PRCountFetched(PollIdentityView, Result<u32, Seq<char>>),
    OpenGitHub,
    OpenSettings,
    CloseSettings,
    SetAuthMethod(AuthMethod),
    SetPatInput(Seq<char>),
    SavePat,
    SetPollInterval(usize),
    CheckGhStatus,
    GhStatusFetched(u64, Result<Seq<char>, Seq<char>>),
}

impl View for Message {
    type V = MessageView;

    open spec fn view(&self) -> MessageView {
        match self {
            Message::TogglePopup(fresh) => MessageView::TogglePopup(*fresh),
            Message::PopupClosed(handle) => MessageView::PopupClosed(*handle),
            Message::UpdateConfig(config) => MessageView::UpdateConfig(config@),
            Message::PRCountFetched(identity, outcome) => MessageView::PRCountFetched(
                identity@,
                outcome_view(*outcome),
            ),
            Message::OpenGitHub => MessageView::OpenGitHub,
            Message::OpenSettings => MessageView::OpenSettings,
            Message::CloseSettings => MessageView::CloseSettings,
            Message::SetAuthMethod(method) => MessageView::SetAuthMethod(*method),
            Message::SetPatInput(input) => MessageView::SetPatInput(input@),
            Message::SavePat => MessageView::SavePat,
            Message::SetPollInterval(index) => MessageView::SetPollInterval(*index),
            Message::CheckGhStatus => MessageView::CheckGhStatus,
            Message::GhStatusFetched(epoch, status) => MessageView::GhStatusFetched(
                *epoch,
                status_view(*status),
            ),
        }
    }
}

impl Clone for Message {
    fn clone(&self) -> (copy: Self)
        ensures
            copy@ == self@,
    {
        match self {
            Message::TogglePopup(fresh) => Message::TogglePopup(*fresh),
            Message::PopupClosed(handle) => Message::PopupClosed(*handle),
            Message::UpdateConfig(config) => Message::UpdateConfig(config.clone()),
            Message::PRCountFetched(identity, outcome) => Message::PRCountFetched(
                identity.clone(),
                match outcome {
                    Ok(count) => Ok(*count),
                    Err(message) => Err(message.clone()),
                },
            ),
            Message::OpenGitHub => Message::OpenGitHub,
            Message::OpenSettings => Message::OpenSettings,
            Message::CloseSettings => Message::CloseSettings,
            Message::SetAuthMethod(method) => Message::SetAuthMethod(*method),
            Message::SetPatInput(input) => Message::SetPatInput(input.clone()),
            Message::SavePat => Message::SavePat,
            Message::SetPollInterval(index) => Message::SetPollInterval(*index),
            Message::CheckGhStatus => Message::CheckGhStatus,
            Message::GhStatusFetched(epoch, status) => Message::GhStatusFetched(
                *epoch,
                match status {
                    Ok(user) => Ok(user.clone()),
                    Err(message) => Err(message.clone()),
                },
            ),
        }
    }
}

impl Message {
    /// Tells whether the message arms a fresh check of the agent.
    pub fn arms_check(&self) -> (arms: bool)
        ensures
            arms == self@.arms_check(),
    {
        match self {
            Message::OpenSettings | Message::SetAuthMethod(_) | Message::CheckGhStatus => true,
            _ => false,
        }
    }
}

impl MessageView {
    /// Whether the message arms a fresh check of the agent.
    pub open spec fn arms_check(self) -> bool {
        self is OpenSettings || self is SetAuthMethod || self is CheckGhStatus
    }
}

/// What the engine asks of its surroundings in answer to a message.
#[derive(Debug)]
pub enum Action {
    /// Nothing.
    Nothing,
    /// Open a popup under this handle.
    OpenPopup(u64),
    /// Close the popup with this handle.
    ClosePopup(u64),
    /// Start this command and do not wait for it.
    Spawn(ToolCommand),
    /// Store these settings.
    PersistConfig(Config),
}

/// The mathematical value of an [`Action`].
pub enum ActionView {
    Nothing,
    OpenPopup(u64),
    ClosePopup(u64),
    Spawn(ToolCommandView),
    PersistConfig(ConfigView),
}

impl View for Action {
    type V = ActionView;

    open spec fn view(&self) -> ActionView {
        match self {
            Action::Nothing => ActionView::Nothing,
            Action::OpenPopup(handle) => ActionView::OpenPopup(*handle),
            Action::ClosePopup(handle) => ActionView::ClosePopup(*handle),
            Action::Spawn(command) => ActionView::Spawn(command@),
            Action::PersistConfig(config) => ActionView::PersistConfig(config@),
        }
    }
}

/// The command line that shows the review requests in the browser.
pub open spec fn open_github_command_view() -> ToolCommandView {
    ToolCommandView {
        program: "xdg-open"@,
        args: seq![
            "https://github.com/pulls?q=is%3Apr+is%3Aopen+review-requested%3A%40me+-review%3Aapproved"@,
        ],
    }
}

/// The command that shows the review requests in the browser.
pub fn open_github_command() -> (command: ToolCommand)
    ensures
        command@ == open_github_command_view(),
{
    let mut args: Vec<String> = Vec::new();
    args.push(
        "https://github.com/pulls?q=is%3Apr+is%3Aopen+review-requested%3A%40me+-review%3Aapproved".to_owned(),
    );
    let command = ToolCommand { program: "xdg-open".to_owned(), args };
    proof {
        assert(command@.args =~= open_github_command_view().args);
    }
    command
}

/// The background loops that a state of the engine calls for.
#[derive(Debug)]
pub struct Subscriptions {
    /// The identity under which the poll loop runs.
    pub poll: PollIdentity,
    /// The number under which the check of the agent runs, where one is called for.
    pub gh_check: Option<u64>,
}

/// The mathematical value of [`Subscriptions`].
pub struct SubscriptionsView {
    pub poll: PollIdentityView,
    pub gh_check: Option<u64>,
}

impl View for Subscriptions {
    type V = SubscriptionsView;

    open spec fn view(&self) -> SubscriptionsView {
        SubscriptionsView { poll: self.poll@, gh_check: self.gh_check }
    }
}

/// The mathematical value of an [`AppModel`].
pub struct AppModelView {
    /// The handle of the popup, while one is open.
    pub popup: Option<u64>,
    /// The settings in force.
    pub config: ConfigView,
    /// The last known count and error.
    pub status: StatusView,
    /// Whether the settings page is shown.
    pub show_settings: bool,
    /// The token field as the user last left it.
    pub pat_input: Seq<char>,
    /// What the last check of the agent resolved to; none while one is awaited.
    pub gh_status: Option<Result<Seq<char>, Seq<char>>>,
    /// The number of the check that was armed last.
    pub gh_check_id: u64,
}

impl AppModelView {
    /// The state that the engine starts in when `config` was loaded.
    pub open spec fn initial(config: ConfigView) -> AppModelView {
        AppModelView {
            popup: None,
            config: config.normalized(),
            status: StatusView::loading(),
            show_settings: false,
            pat_input: config.github_pat,
            gh_status: None,
            gh_check_id: 0,
        }
    }

    /// The poll interval in force is never zero.
    pub open spec fn wf(self) -> bool {
        self.config.poll_interval_secs != 0
    }

    /// The state with a fresh check of the agent armed.
    pub open spec fn armed(self) -> AppModelView {
        AppModelView { gh_status: None, gh_check_id: (self.gh_check_id + 1) as u64, ..self }
    }

    /// The background loops that the state calls for: always the poll loop under the identity
    /// of the settings in force, and the check of the agent while the settings page is shown
    /// and the agent is the chosen way.
    pub open spec fn subscriptions(self) -> SubscriptionsView {
        SubscriptionsView {
            poll: self.config.poll_identity(),
            gh_check: if self.show_settings && self.config.auth_method == AuthMethod::GhCli {
                Some(self.gh_check_id)
            } else {
                None
            },
        }
    }

    /// The line that tells the user what the last check of the agent found.
    pub open spec fn gh_status_text(self) -> Option<Seq<char>> {
        match self.gh_status {
            None => None,
            Some(Ok(user)) => Some("Connected as @"@ + user),
            Some(Err(message)) => Some(message),
        }
    }

    /// The state after `message`.
    pub open spec fn next(self, message: MessageView) -> AppModelView {
        match message {
            MessageView::PRCountFetched(identity, outcome) => {
                if identity == self.config.poll_identity() {
                    AppModelView { status: self.status.apply(outcome), ..self }
                } else {
                    self
                }
            },
            MessageView::OpenGitHub => self,
            MessageView::UpdateConfig(config) => AppModelView {
                config: config.normalized(),
                pat_input: if self.show_settings {
                    self.pat_input
                } else {
                    config.github_pat
                },
                ..self
            },
            MessageView::TogglePopup(fresh) => match self.popup {
                Some(_) => AppModelView { popup: None, show_settings: false, ..self },
                None => AppModelView { popup: Some(fresh), ..self },
            },
            MessageView::PopupClosed(handle) => {
                if self.popup == Some(handle) {
                    AppModelView { popup: None, show_settings: false, ..self }
                } else {
                    self
                }
            },
            MessageView::OpenSettings => AppModelView { show_settings: true, ..self.armed() },
            MessageView::CloseSettings => AppModelView { show_settings: false, ..self },
            MessageView::SetAuthMethod(method) => AppModelView {
                config: ConfigView { auth_method: method, ..self.config },
                ..self.armed()
            },
            MessageView::SetPatInput(input) => AppModelView { pat_input: input, ..self },
            MessageView::SavePat => AppModelView {
                config: ConfigView { github_pat: self.pat_input, ..self.config },
                ..self
            },
            MessageView::SetPollInterval(index) => {
                if index < poll_values().len() {
                    AppModelView {
                        config: ConfigView {
                            poll_interval_secs: poll_values()[index as int],
                            ..self.config
                        },
                        ..self
                    }
                } else {
                    self
                }
            },
            MessageView::CheckGhStatus => self.armed(),
            MessageView::GhStatusFetched(epoch, status) => {
                if epoch == self.gh_check_id {
                    AppModelView { gh_status: Some(status), ..self }
                } else {
                    self
                }
            },
        }
    }

    /// What the engine asks of its surroundings in answer to `message`.
    pub open spec fn action(self, message: MessageView) -> ActionView {
        match message {
            MessageView::OpenGitHub => ActionView::Spawn(open_github_command_view()),
            MessageView::TogglePopup(fresh) => match self.popup {
                Some(handle) => ActionView::ClosePopup(handle),
                None => ActionView::OpenPopup(fresh),
            },
            MessageView::SetAuthMethod(_) | MessageView::SavePat => ActionView::PersistConfig(
                self.next(message).config,
            ),
            MessageView::SetPollInterval(index) => {
                if index < poll_values().len() {
                    ActionView::PersistConfig(self.next(message).config)
                } else {
                    ActionView::Nothing
                }
            },
            _ => ActionView::Nothing,
        }
    }
}

impl AppModelView {
    /// The state after the poll loop that the state calls for has sent `outcomes`, one after
    /// the other.
    pub open spec fn delivered(self, outcomes: Seq<Result<u32, Seq<char>>>) -> AppModelView
        decreases outcomes.len(),
    {
        if outcomes.len() == 0 {
            self
        } else {
            let before = self.delivered(outcomes.drop_last());
            before.next(
                MessageView::PRCountFetched(before.config.poll_identity(), outcomes.last()),
            )
        }
    }

    /// The state after `messages`, one after the other.
    pub open spec fn run(self, messages: Seq<MessageView>) -> AppModelView
        decreases messages.len(),
    {
        if messages.len() == 0 {
            self
        } else {
            self.run(messages.drop_last()).next(messages.last())
        }
    }
}

/// No message makes the poll interval in force zero.
pub proof fn lemma_interval_stays_positive(model: AppModelView, message: MessageView)
    requires
        model.wf(),
    ensures
        model.next(message).wf(),
{
}

/// Settings that are loaded with a zero poll interval are in force with the default of 60
/// seconds; every other interval is kept.
pub proof fn lemma_loaded_interval(config: ConfigView)
    ensures
        AppModelView::initial(config).wf(),
        config.poll_interval_secs == 0 ==> AppModelView::initial(config).config.poll_interval_secs
            == 60,
        config.poll_interval_secs != 0 ==> AppModelView::initial(config).config.poll_interval_secs
            == config.poll_interval_secs,
{
}

/// Outcomes that the poll loop sends change the status alone, and change it as a replay of
/// them does.
pub proof fn lemma_delivered(model: AppModelView, outcomes: Seq<Result<u32, Seq<char>>>)
    ensures
        model.delivered(outcomes) == (AppModelView {
            status: model.status.replay(outcomes),
            ..model
        }),
    decreases outcomes.len(),
{
    if outcomes.len() > 0 {
        lemma_delivered(model, outcomes.drop_last());
    }
}

/// After any sequence of outcomes has been taken in from the start, the error is set exactly
/// when the last outcome was a failure, and the count is that of the last success so far, or
/// absent where there was none.
pub proof fn lemma_status_after_outcomes(
    config: ConfigView,
    outcomes: Seq<Result<u32, Seq<char>>>,
)
    ensures
        AppModelView::initial(config).delivered(outcomes).status.error is Some <==> outcomes.len()
            > 0 && outcomes.last() is Err,
        AppModelView::initial(config).delivered(outcomes).status.error
            == crate::status::last_error(outcomes),
        AppModelView::initial(config).delivered(outcomes).status.count
            == crate::status::last_count(outcomes),
{
    lemma_delivered(AppModelView::initial(config), outcomes);
    crate::status::lemma_replay_from_loading(outcomes);
}

/// An outcome that is sent under another identity than that of the settings in force
/// changes nothing.
pub proof fn lemma_superseded_outcome_discarded(
    model: AppModelView,
    identity: PollIdentityView,
    outcome: Result<u32, Seq<char>>,
)
    requires
        identity != model.config.poll_identity(),
    ensures
        model.next(MessageView::PRCountFetched(identity, outcome)) == model,
{
}

/// The number of the check armed last never goes back, and goes up with each arming.
pub proof fn lemma_epoch_grows(model: AppModelView, message: MessageView)
    requires
        model.gh_check_id < u64::MAX,
    ensures
        model.gh_check_id <= model.next(message).gh_check_id,
        message.arms_check() ==> model.next(message).gh_check_id == model.gh_check_id + 1,
        !message.arms_check() ==> model.next(message).gh_check_id == model.gh_check_id,
{
}

/// Over any sequence of messages the number of the check armed last does not go back, and
/// it has gone up where the last of them arms a check.
pub proof fn lemma_epoch_grows_over_run(model: AppModelView, messages: Seq<MessageView>)
    requires
        model.gh_check_id + messages.len() <= u64::MAX,
    ensures
        model.gh_check_id <= model.run(messages).gh_check_id <= model.gh_check_id
            + messages.len(),
        messages.len() > 0 && messages.last().arms_check() ==> model.gh_check_id < model.run(
            messages,
        ).gh_check_id,
    decreases messages.len(),
{
    if messages.len() > 0 {
        lemma_epoch_grows_over_run(model, messages.drop_last());
        lemma_epoch_grows(model.run(messages.drop_last()), messages.last());
    }
}

/// When a check is armed and then, after any further messages, a check is armed again, the
/// result of the first check changes nothing if it resolves afterwards, and the result of the
/// second is taken in.
pub proof fn lemma_stale_check_discarded(
    model: AppModelView,
    first: MessageView,
    between: Seq<MessageView>,
    second: MessageView,
    status: Result<Seq<char>, Seq<char>>,
)
    requires
        first.arms_check(),
        second.arms_check(),
        model.gh_check_id + between.len() + 2 <= u64::MAX,
    ensures
        ({
            let armed_once = model.next(first);
            let armed_twice = armed_once.run(between).next(second);
            &&& armed_once.gh_check_id < armed_twice.gh_check_id
            &&& armed_twice.next(MessageView::GhStatusFetched(armed_once.gh_check_id, status))
                == armed_twice
            &&& armed_twice.next(
                MessageView::GhStatusFetched(armed_twice.gh_check_id, status),
            ).gh_status == Some(status)
        }),
{
    let armed_once = model.next(first);
    lemma_epoch_grows(model, first);
    lemma_epoch_grows_over_run(armed_once, between);
    lemma_epoch_grows(armed_once.run(between), second);
}

/// The mathematical value of what a check of the agent is known to have resolved to.
pub open spec fn gh_status_view(status: Option<Result<String, String>>) -> Option<
    Result<Seq<char>, Seq<char>>,
> {
    match status {
        Some(resolved) => Some(status_view(resolved)),
        None => None,
    }
}

/// The engine's state.
#[derive(Debug)]
pub struct AppModel {
    popup: Option<u64>,
    config: Config,
    status: Status,
    show_settings: bool,
    pat_input: String,
    gh_status: Option<Result<String, String>>,
    gh_check_id: u64,
}

impl View for AppModel {
    type V = AppModelView;

    closed spec fn view(&self) -> AppModelView {
        AppModelView {
            popup: self.popup,
            config: self.config@,
            status: self.status@,
            show_settings: self.show_settings,
            pat_input: self.pat_input@,
            gh_status: gh_status_view(self.gh_status),
            gh_check_id: self.gh_check_id,
        }
    }
}

impl AppModel {
    /// The poll interval in force is never zero.
    #[verifier::type_invariant]
    spec fn interval_is_positive(self) -> bool {
        self.config.poll_interval_secs != 0
    }
}

impl Default for AppModel {
    fn default() -> (model: Self)
        ensures
            model@ == AppModelView::initial(ConfigView::initial()),
            model@.wf(),
    {
        AppModel {
            popup: None,
            config: Config::default(),
            status: Status::new(),
            show_settings: false,
            pat_input: String::new(),
            gh_status: None,
            gh_check_id: 0,
        }
    }
}

impl AppModel {
    /// The state that the engine starts in when `config` was loaded. A zero poll interval, as
    /// older stored settings hold it, becomes the default before anything uses it.
    pub fn init(config: Config) -> (model: Self)
        ensures
            model@ == AppModelView::initial(config@),
            model@.wf(),
            config.poll_interval_secs == 0 ==> model@.config.poll_interval_secs == 60,
    {
        let pat_input = config.github_pat.clone();
        AppModel {
            popup: None,
            config: config.normalized(),
            status: Status::new(),
            show_settings: false,
            pat_input,
            gh_status: None,
            gh_check_id: 0,
        }
    }

    /// Arms a fresh check of the agent.
    fn arm_check(&mut self)
        requires
            old(self).gh_check_id < u64::MAX,
        ensures
            final(self)@ == old(self)@.armed(),
    {
        proof {
            use_type_invariant(&*self);
        }
        self.gh_status = None;
        self.gh_check_id = self.gh_check_id + 1;
    }

    /// Takes in `message` and says what is to be done in answer. Results of background loops
    /// are taken in only from the loop that the present state calls for: a count from the
    /// poll loop under the present identity, and a check under the number armed last.
    pub fn update(&mut self, message: Message) -> (action: Action)
        requires
            message@.arms_check() ==> old(self)@.gh_check_id < u64::MAX,
        ensures
            final(self)@ == old(self)@.next(message@),
            action@ == old(self)@.action(message@),
            final(self)@.wf(),
    {
        proof {
            use_type_invariant(&*self);
        }
        match message {
            Message::PRCountFetched(identity, outcome) => {
                if identity == self.config.poll_identity() {
                    self.status.apply(outcome);
                }
                Action::Nothing
            },
            Message::OpenGitHub => Action::Spawn(open_github_command()),
            Message::UpdateConfig(config) => {
                if !self.show_settings {
                    self.pat_input = config.github_pat.clone();
                }
                self.config = config.normalized();
                Action::Nothing
            },
            Message::TogglePopup(fresh) => match self.popup {
                Some(handle) => {
                    self.popup = None;
                    self.show_settings = false;
                    Action::ClosePopup(handle)
                },
                None => {
                    self.popup = Some(fresh);
                    Action::OpenPopup(fresh)
                },
            },
            Message::PopupClosed(handle) => {
                let open = match self.popup {
                    Some(current) => current == handle,
                    None => false,
                };
                if open {
                    self.popup = None;
                    self.show_settings = false;
                }
                Action::Nothing
            },
            Message::OpenSettings => {
                self.show_settings = true;
                self.arm_check();
                Action::Nothing
            },
            Message::CloseSettings => {
                self.show_settings = false;
                Action::Nothing
            },
            Message::SetAuthMethod(method) => {
                self.config.auth_method = method;
                self.arm_check();
                Action::PersistConfig(self.config.clone())
            },
            Message::SetPatInput(input) => {
                self.pat_input = input;
                Action::Nothing
            },
            Message::SavePat => {
                self.config.github_pat = self.pat_input.clone();
                Action::PersistConfig(self.config.clone())
            },
            Message::SetPollInterval(index) => match poll_interval_at(index) {
                Some(secs) => {
                    self.config.poll_interval_secs = secs;
                    Action::PersistConfig(self.config.clone())
                },
                None => Action::Nothing,
            },
            Message::CheckGhStatus => {
                self.arm_check();
                Action::Nothing
            },
            Message::GhStatusFetched(epoch, status) => {
                if epoch == self.gh_check_id {
                    self.gh_status = Some(status);
                }
                Action::Nothing
            },
        }
    }

    /// The handle of the popup, while one is open.
    pub fn popup(&self) -> (popup: Option<u64>)
        ensures
            popup == self@.popup,
    {
        self.popup
    }

    /// The settings in force.
    pub fn config(&self) -> (config: &Config)
        ensures
            config@ == self@.config,
            config.poll_interval_secs != 0,
    {
        proof {
            use_type_invariant(self);
        }
        &self.config
    }

    /// The last known count and error.
    pub fn status(&self) -> (status: &Status)
        ensures
            status@ == self@.status,
    {
        &self.status
    }

    /// Whether the settings page is shown.
    pub fn show_settings(&self) -> (shown: bool)
        ensures
            shown == self@.show_settings,
    {
        self.show_settings
    }

    /// The token field as the user last left it.
    pub fn pat_input(&self) -> (input: &str)
        ensures
            input@ == self@.pat_input,
    {
        self.pat_input.as_str()
    }

    /// What the last check of the agent resolved to; none while one is awaited.
    pub fn gh_status(&self) -> (status: Option<&Result<String, String>>)
        ensures
            match status {
                Some(resolved) => self@.gh_status == Some(status_view(*resolved)),
                None => self@.gh_status is None,
            },
    {
        self.gh_status.as_ref()
    }

    /// The line that tells the user what the last check of the agent found; none while one
    /// is awaited.
    pub fn gh_status_text(&self) -> (text: Option<String>)
        ensures
            match text {
                Some(line) => self@.gh_status_text() == Some(line@),
                None => self@.gh_status_text() is None,
            },
    {
        match &self.gh_status {
            None => None,
            Some(Ok(user)) => Some("Connected as @".to_owned().concat(user.as_str())),
            Some(Err(message)) => Some(message.clone()),
        }
    }

    /// The number of the check that was armed last.
    pub fn gh_check_id(&self) -> (epoch: u64)
        ensures
            epoch == self@.gh_check_id,
    {
        self.gh_check_id
    }

    /// The place of the poll interval in force among those offered, if it is one of them.
    pub fn selected_interval(&self) -> (index: Option<usize>)
        ensures
            match index {
                Some(i) => i < poll_values().len() && poll_values()[i as int]
                    == self@.config.poll_interval_secs,
                None => !poll_values().contains(self@.config.poll_interval_secs),
            },
    {
        poll_interval_index(self.config.poll_interval_secs)
    }

    /// The background loops that the present state calls for. The surroundings also watch
    /// the stored settings at all times, and hand each replacement in as a message.
    pub fn subscription(&self) -> (wanted: Subscriptions)
        ensures
            wanted@ == self@.subscriptions(),
            wanted.poll.poll_interval_secs != 0,
    {
        proof {
            use_type_invariant(self);
        }
        let gh_check = if self.show_settings && self.config.auth_method == AuthMethod::GhCli {
            Some(self.gh_check_id)
        } else {
            None
        };
        Subscriptions { poll: self.config.poll_identity(), gh_check }
    }
}

} // verus!
