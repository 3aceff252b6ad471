//! Configuration of the poller and the identity that is derived from it.

use vstd::prelude::*;

verus! {

/// How the pending-review count is obtained.
#[derive(Debug, Clone, Copy, PartialEq, Eq, Hash, Structural)]
pub enum AuthMethod {
    /// Through the local `gh` command-line agent, which holds its own credentials.
    GhCli,
    /// Through a bearer-authenticated HTTPS request with a personal access token.
    Pat,
}

impl Default for AuthMethod {
    fn default() -> (method: Self)
        ensures
            method == AuthMethod::GhCli,
    {
        AuthMethod::GhCli
    }
}

/// The poll interval that stands in for a missing or zero interval.
pub const DEFAULT_POLL_INTERVAL_SECS: u64 = 60;

/// The mathematical value of a [`Config`].
pub struct ConfigView {
    pub auth_method: AuthMethod,
    pub github_pat: Seq<char>,
    pub poll_interval_secs: u64,
}

/// The persisted settings of the poller.
#[derive(Debug)]
pub struct Config {
    pub auth_method: AuthMethod,
    pub github_pat: String,
    pub poll_interval_secs: u64,
}

impl View for Config {
    type V = ConfigView;

    open spec fn view(&self) -> ConfigView {
        ConfigView {
            auth_method: self.auth_method,
            github_pat: self.github_pat@,
            poll_interval_secs: self.poll_interval_secs,
        }
    }
}

/// The interval that a stored interval stands for: a stored zero means the default.
pub open spec fn effective_interval(stored: u64) -> u64 {
    if stored == 0 {
        DEFAULT_POLL_INTERVAL_SECS
    } else {
        stored
    }
}

impl ConfigView {
    /// The settings of a first start: the agent, no token, the default interval.
    pub open spec fn initial() -> ConfigView {
        ConfigView {
            auth_method: AuthMethod::GhCli,
            github_pat: Seq::<char>::empty(),
            poll_interval_secs: DEFAULT_POLL_INTERVAL_SECS,
        }
    }

    /// The configuration with a zero interval replaced by the default.
    pub open spec fn normalized(self) -> ConfigView {
        ConfigView {
            auth_method: self.auth_method,
            github_pat: self.github_pat,
            poll_interval_secs: effective_interval(self.poll_interval_secs),
        }
    }

    /// The key under which a poll loop for this configuration runs.
    pub open spec fn poll_identity(self) -> PollIdentityView {
        PollIdentityView {
            auth_method: self.auth_method,
            credential: self.github_pat,
            poll_interval_secs: self.poll_interval_secs,
        }
    }
}

impl Default for Config {
    fn default() -> (config: Self)
        ensures
            config@ == ConfigView::initial(),
    {
        Config {
            auth_method: AuthMethod::GhCli,
            github_pat: String::new(),
            poll_interval_secs: DEFAULT_POLL_INTERVAL_SECS,
        }
    }
}

impl Clone for Config {
    fn clone(&self) -> (copy: Self)
        ensures
            copy@ == self@,
    {
        Config {
            auth_method: self.auth_method,
            github_pat: self.github_pat.clone(),
            poll_interval_secs: self.poll_interval_secs,
        }
    }
}

impl PartialEq for Config {
    fn eq(&self, other: &Self) -> (equal: bool) {
        self.auth_method == other.auth_method && self.github_pat == other.github_pat
            && self.poll_interval_secs == other.poll_interval_secs
    }
}

impl Eq for Config {}

impl vstd::std_specs::cmp::PartialEqSpecImpl for Config {
    open spec fn obeys_eq_spec() -> bool {
        true
    }

    open spec fn eq_spec(&self, other: &Self) -> bool {
        self@ == other@
    }
}

impl Config {
    /// Replaces a zero interval, as older stored settings hold it, by the default.
    pub fn normalized(self) -> (config: Self)
        ensures
            config@ == self@.normalized(),
            config.poll_interval_secs != 0,
    {
        let poll_interval_secs: u64 = if self.poll_interval_secs == 0 {
            DEFAULT_POLL_INTERVAL_SECS
        } else {
            self.poll_interval_secs
        };
        Config { auth_method: self.auth_method, github_pat: self.github_pat, poll_interval_secs }
    }

    /// The key under which the poll loop for these settings runs.
    pub fn poll_identity(&self) -> (identity: PollIdentity)
        ensures
            identity@ == self@.poll_identity(),
    {
        PollIdentity {
            auth_method: self.auth_method,
            credential: self.github_pat.clone(),
            poll_interval_secs: self.poll_interval_secs,
        }
    }
}

/// The mathematical value of a [`PollIdentity`].
pub struct PollIdentityView {
    pub auth_method: AuthMethod,
    pub credential: Seq<char>,
    pub poll_interval_secs: u64,
}

/// What a poll loop is keyed by: a loop must be replaced exactly when this changes.
#[derive(Debug, Hash)]
pub struct PollIdentity {
    pub auth_method: AuthMethod,
    pub credential: String,
    pub poll_interval_secs: u64,
}

impl View for PollIdentity {
    type V = PollIdentityView;

    open spec fn view(&self) -> PollIdentityView {
        PollIdentityView {
            auth_method: self.auth_method,
            credential: self.credential@,
            poll_interval_secs: self.poll_interval_secs,
        }
    }
}

impl Clone for PollIdentity {
    fn clone(&self) -> (copy: Self)
        ensures
            copy@ == self@,
    {
        PollIdentity {
            auth_method: self.auth_method,
            credential: self.credential.clone(),
            poll_interval_secs: self.poll_interval_secs,
        }
    }
}

impl PartialEq for PollIdentity {
    fn eq(&self, other: &Self) -> (equal: bool) {
        self.auth_method == other.auth_method && self.credential == other.credential
            && self.poll_interval_secs == other.poll_interval_secs
    }
}

impl Eq for PollIdentity {}

impl vstd::std_specs::cmp::PartialEqSpecImpl for PollIdentity {
    open spec fn obeys_eq_spec() -> bool {
        true
    }

    open spec fn eq_spec(&self, other: &Self) -> bool {
        self@ == other@
    }
}

/// The poll intervals that can be chosen, in seconds, in the order in which they are offered.
pub open spec fn poll_values() -> Seq<u64> {
    seq![30u64, 60u64, 120u64, 300u64, 600u64, 1800u64]
}

/// The interval offered at `index`, if there is one.
pub fn poll_interval_at(index: usize) -> (secs: Option<u64>)
    ensures
        index < poll_values().len() ==> secs == Some(poll_values()[index as int]),
        index >= poll_values().len() ==> secs is None,
{
    match index {
        0 => Some(30),
        1 => Some(60),
        2 => Some(120),
        3 => Some(300),
        4 => Some(600),
        5 => Some(1800),
        _ => None,
    }
}

/// The place of `secs` among the offered intervals, if it is one of them.
pub fn poll_interval_index(secs: u64) -> (index: Option<usize>)
    ensures
        match index {
            Some(i) => i < poll_values().len() && poll_values()[i as int] == secs,
            None => !poll_values().contains(secs),
        },
{
    if secs == 30 {
        Some(0)
    } else if secs == 60 {
        Some(1)
    } else if secs == 120 {
        Some(2)
    } else if secs == 300 {
        Some(3)
    } else if secs == 600 {
        Some(4)
    } else if secs == 1800 {
        Some(5)
    } else {
        None
    }
}

/// Two identities are equal exactly when all three of their parts are.
pub proof fn lemma_identity_equality(a: PollIdentityView, b: PollIdentityView)
    ensures
        a == b <==> (a.auth_method == b.auth_method && a.credential == b.credential
            && a.poll_interval_secs == b.poll_interval_secs),
{
}

} // verus!
