//! The order in which ways to authenticate are tried.
//!
//! Four strategies are tried in a fixed order, and the first that the remote
//! host accepts ends the negotiation: an identity file named by the user; the
//! credential remembered for the target; the authentication agent; and at last
//! a password that the user types, first as a password and then as the answer
//! to a challenge. The caller performs each attempt and reports whether it was
//! accepted; `advance` says what comes next.

use vstd::prelude::*;
use crate::config::{remembered, AuthData, AuthDataView, AuthType, Config};
use crate::crypto::{can_seal, decrypt, encrypt, opened_text, CryptoError, KeyMaterial};
use crate::text::{chars_of, opt_view, trim_bounds, trimmed};

verus! {

/// The ways to authenticate, in the order in which they are tried.
#[derive(Clone, Copy, Debug, PartialEq, Eq, Structural)]
pub enum Strategy {
    IdentityFile,
    SavedCredential,
    Agent,
    Interactive,
}

/// What the remembered credential lets the negotiation try.
#[derive(Debug, PartialEq, Eq)]
pub enum SavedAttempt {
    /// Nothing is remembered, or what is remembered cannot be opened.
    Nothing,
    /// The remembered password, opened.
    Password(String),
    /// The remembered key file.
    KeyFile(String),
}

pub enum SavedAttemptView {
    Nothing,
    Password(Seq<char>),
    KeyFile(Seq<char>),
}

impl View for SavedAttempt {
    type V = SavedAttemptView;

    open spec fn view(&self) -> SavedAttemptView {
        match *self {
            SavedAttempt::Nothing => SavedAttemptView::Nothing,
            SavedAttempt::Password(p) => SavedAttemptView::Password(p@),
            SavedAttempt::KeyFile(p) => SavedAttemptView::KeyFile(p@),
        }
    }
}

/// What is known before the negotiation begins.
#[derive(Debug, PartialEq, Eq)]
pub struct AuthPlan {
    /// The identity file that the user named, if any.
    pub identity_file: Option<String>,
    /// What the remembered credential lets the negotiation try.
    pub saved: SavedAttempt,
}

pub struct AuthPlanView {
    pub identity_file: Option<Seq<char>>,
    pub saved: SavedAttemptView,
}

impl View for AuthPlan {
    type V = AuthPlanView;

    open spec fn view(&self) -> AuthPlanView {
        AuthPlanView { identity_file: opt_view(self.identity_file), saved: self.saved@ }
    }
}

/// Where the negotiation stands.
#[derive(Debug, PartialEq, Eq)]
pub enum AuthStage {
    /// Nothing was tried yet.
    Start,
    /// The identity file is being tried.
    IdentityFile,
    /// The remembered credential is being tried.
    SavedCredential,
    /// The agent is being tried.
    Agent,
    /// The user is being asked for a password.
    Prompt,
    /// The typed password is being tried as a password.
    Password { password: String },
    /// The typed password is being tried as the answer to a challenge.
    Challenge { password: String },
    /// The remote host accepted `strategy`. `typed` is the typed password
    /// where the strategy was the interactive one.
    Authenticated { strategy: Strategy, typed: Option<String> },
    /// Every strategy was refused.
    Failed,
}

pub enum AuthStageView {
    Start,
    IdentityFile,
    SavedCredential,
    Agent,
    Prompt,
    Password { password: Seq<char> },
    Challenge { password: Seq<char> },
    Authenticated { strategy: Strategy, typed: Option<Seq<char>> },
    Failed,
}

impl View for AuthStage {
    type V = AuthStageView;

    open spec fn view(&self) -> AuthStageView {
        match *self {
            AuthStage::Start => AuthStageView::Start,
            AuthStage::IdentityFile => AuthStageView::IdentityFile,
            AuthStage::SavedCredential => AuthStageView::SavedCredential,
            AuthStage::Agent => AuthStageView::Agent,
            AuthStage::Prompt => AuthStageView::Prompt,
            AuthStage::Password { password } => AuthStageView::Password { password: password@ },
            AuthStage::Challenge { password } => AuthStageView::Challenge { password: password@ },
            AuthStage::Authenticated { strategy, typed } => AuthStageView::Authenticated {
                strategy,
                typed: opt_view(typed),
            },
            AuthStage::Failed => AuthStageView::Failed,
        }
    }
}

/// What the caller reports.
#[derive(Debug, PartialEq, Eq)]
pub enum AuthEvent {
    /// The negotiation is to begin.
    Begin,
    /// The remote host accepted the attempt.
    Accepted,
    /// The remote host refused the attempt, or the attempt could not be made.
    Refused,
    /// The user typed this password.
    Typed(String),
}

pub enum AuthEventView {
    Begin,
    Accepted,
    Refused,
    Typed(Seq<char>),
}

impl View for AuthEvent {
    type V = AuthEventView;

    open spec fn view(&self) -> AuthEventView {
        match *self {
            AuthEvent::Begin => AuthEventView::Begin,
            AuthEvent::Accepted => AuthEventView::Accepted,
            AuthEvent::Refused => AuthEventView::Refused,
            AuthEvent::Typed(p) => AuthEventView::Typed(p@),
        }
    }
}

/// What the caller is to do next.
#[derive(Debug, PartialEq, Eq)]
pub enum AuthAction {
    /// Authenticate with the private key at `path`; resolve the path to its
    /// canonical form first where `canonicalize` is set.
    TryKeyFile { path: String, canonicalize: bool },
    /// Authenticate with `password`.
    TryPassword { password: String },
    /// Authenticate through the agent.
    TryAgent,
    /// Ask the user for a password, without echo.
    AskPassword,
    /// Authenticate by challenge and response, with `password` as the answer
    /// to every prompt that is not echoed.
    TryChallenge { password: String },
    /// The negotiation has succeeded.
    Succeed { strategy: Strategy, typed: Option<String> },
    /// The negotiation has failed: every strategy was refused.
    Fail,
}

pub enum AuthActionView {
    TryKeyFile { path: Seq<char>, canonicalize: bool },
    TryPassword { password: Seq<char> },
    TryAgent,
    AskPassword,
    TryChallenge { password: Seq<char> },
    Succeed { strategy: Strategy, typed: Option<Seq<char>> },
    Fail,
}

impl View for AuthAction {
    type V = AuthActionView;

    open spec fn view(&self) -> AuthActionView {
        match *self {
            AuthAction::TryKeyFile { path, canonicalize } => AuthActionView::TryKeyFile {
                path: path@,
                canonicalize,
            },
            AuthAction::TryPassword { password } => AuthActionView::TryPassword {
                password: password@,
            },
            AuthAction::TryAgent => AuthActionView::TryAgent,
            AuthAction::AskPassword => AuthActionView::AskPassword,
            AuthAction::TryChallenge { password } => AuthActionView::TryChallenge {
                password: password@,
            },
            AuthAction::Succeed { strategy, typed } => AuthActionView::Succeed {
                strategy,
                typed: opt_view(typed),
            },
            AuthAction::Fail => AuthActionView::Fail,
        }
    }
}

/// What the remembered credential `saved` lets the negotiation try under the
/// key `key`. A password that cannot be opened, for want of a key or for any
/// other reason, lets it try nothing.
pub open spec fn saved_attempt(key: Option<Seq<u8>>, saved: Option<AuthDataView>)
    -> SavedAttemptView {
    match saved {
        None => SavedAttemptView::Nothing,
        Some(data) => match data.auth_type {
            AuthType::KeyPath => SavedAttemptView::KeyFile(data.secret),
            AuthType::Password => match key {
                None => SavedAttemptView::Nothing,
                Some(k) => match opened_text(k, data.secret) {
                    Ok(password) => SavedAttemptView::Password(password),
                    Err(_) => SavedAttemptView::Nothing,
                },
            },
        },
    }
}

/// The step into the agent strategy.
pub open spec fn enter_agent() -> (AuthStageView, AuthActionView) {
    (AuthStageView::Agent, AuthActionView::TryAgent)
}

/// The step into the first strategy that applies, from the remembered
/// credential on.
pub open spec fn enter_saved(plan: AuthPlanView) -> (AuthStageView, AuthActionView) {
    match plan.saved {
        SavedAttemptView::Password(password) => (
            AuthStageView::SavedCredential,
            AuthActionView::TryPassword { password },
        ),
        SavedAttemptView::KeyFile(path) => (
            AuthStageView::SavedCredential,
            AuthActionView::TryKeyFile { path, canonicalize: false },
        ),
        SavedAttemptView::Nothing => enter_agent(),
    }
}

/// The step into the first strategy that applies, from the identity file on.
pub open spec fn enter_identity(plan: AuthPlanView) -> (AuthStageView, AuthActionView) {
    match plan.identity_file {
        Some(path) => (
            AuthStageView::IdentityFile,
            AuthActionView::TryKeyFile { path, canonicalize: true },
        ),
        None => enter_saved(plan),
    }
}

/// The step that ends the negotiation with success.
pub open spec fn succeed(strategy: Strategy, typed: Option<Seq<char>>) -> (
    AuthStageView,
    AuthActionView,
) {
    (AuthStageView::Authenticated { strategy, typed }, AuthActionView::Succeed { strategy, typed })
}

/// The step that ends the negotiation with failure.
pub open spec fn fail() -> (AuthStageView, AuthActionView) {
    (AuthStageView::Failed, AuthActionView::Fail)
}

/// The next stage and what the caller is to do, from the stage `stage` on the
/// event `event`. While an attempt is out, `Accepted` ends the negotiation
/// with success and anything else moves on to the next strategy. While the
/// user is asked, a typed password is tried and anything else ends the
/// negotiation with failure. The two ends are final.
pub open spec fn next(plan: AuthPlanView, stage: AuthStageView, event: AuthEventView) -> (
    AuthStageView,
    AuthActionView,
) {
    match stage {
        AuthStageView::Start => enter_identity(plan),
        AuthStageView::IdentityFile => if event is Accepted {
            succeed(Strategy::IdentityFile, None)
        } else {
            enter_saved(plan)
        },
        AuthStageView::SavedCredential => if event is Accepted {
            succeed(Strategy::SavedCredential, None)
        } else {
            enter_agent()
        },
        AuthStageView::Agent => if event is Accepted {
            succeed(Strategy::Agent, None)
        } else {
            (AuthStageView::Prompt, AuthActionView::AskPassword)
        },
        AuthStageView::Prompt => match event {
            AuthEventView::Typed(password) => (
                AuthStageView::Password { password },
                AuthActionView::TryPassword { password },
            ),
            _ => fail(),
        },
        AuthStageView::Password { password } => if event is Accepted {
            succeed(Strategy::Interactive, Some(password))
        } else {
            (AuthStageView::Challenge { password }, AuthActionView::TryChallenge { password })
        },
        AuthStageView::Challenge { password } => if event is Accepted {
            succeed(Strategy::Interactive, Some(password))
        } else {
            fail()
        },
        AuthStageView::Authenticated { strategy, typed } => succeed(strategy, typed),
        AuthStageView::Failed => fail(),
    }
}

/// How far a stage is along the order of the strategies.
pub open spec fn rank(stage: AuthStageView) -> nat {
    match stage {
        AuthStageView::Start => 0,
        AuthStageView::IdentityFile => 1,
        AuthStageView::SavedCredential => 2,
        AuthStageView::Agent => 3,
        AuthStageView::Prompt => 4,
        AuthStageView::Password { .. } => 5,
        AuthStageView::Challenge { .. } => 6,
        AuthStageView::Authenticated { .. } => 7,
        AuthStageView::Failed => 7,
    }
}

/// The strategy that a stage belongs to, if it is the stage of an attempt.
pub open spec fn strategy_of(stage: AuthStageView) -> Option<Strategy> {
    match stage {
        AuthStageView::IdentityFile => Some(Strategy::IdentityFile),
        AuthStageView::SavedCredential => Some(Strategy::SavedCredential),
        AuthStageView::Agent => Some(Strategy::Agent),
        AuthStageView::Prompt => Some(Strategy::Interactive),
        AuthStageView::Password { .. } => Some(Strategy::Interactive),
        AuthStageView::Challenge { .. } => Some(Strategy::Interactive),
        _ => None,
    }
}

/// The stage that the negotiation is in after the events `events`.
pub open spec fn stage_after(plan: AuthPlanView, events: Seq<AuthEventView>) -> AuthStageView
    decreases events.len(),
{
    if events.len() == 0 {
        AuthStageView::Start
    } else {
        next(plan, stage_after(plan, events.drop_last()), events.last()).0
    }
}

/// What the caller is told to do on the last of the events `events`, of which
/// there is one at least.
pub open spec fn action_after(plan: AuthPlanView, events: Seq<AuthEventView>) -> AuthActionView {
    next(plan, stage_after(plan, events.drop_last()), events.last()).1
}

/// The answers to the prompts of a challenge: the password for each prompt
/// that is not echoed, nothing for the others.
pub open spec fn answers(password: Seq<char>, echo: Seq<bool>) -> Seq<Seq<char>> {
    Seq::new(
        echo.len(),
        |i: int|
            if echo[i] {
                Seq::<char>::empty()
            } else {
                password
            },
    )
}

/// Whether the user is to be offered that the credential be remembered: after
/// success with a typed password, where nothing is remembered for the target.
pub open spec fn offers_save(
    remembered: Map<Seq<char>, AuthDataView>,
    key: Seq<char>,
    stage: AuthStageView,
) -> bool {
    stage matches AuthStageView::Authenticated { strategy: Strategy::Interactive, .. }
        && !remembered.contains_key(key)
}

/// Whether a stage is one that is reached without asking the user: a stage up
/// to the agent's, or success by a strategy other than the interactive one.
pub open spec fn without_prompt(stage: AuthStageView) -> bool {
    match stage {
        AuthStageView::Authenticated { strategy, .. } => strategy != Strategy::Interactive,
        _ => rank(stage) <= 3,
    }
}

/// Whether the answer `answer` to the offer to remember the credential
/// accepts it: it does where its first character, whitespace apart, is `y` or
/// `Y`. Every other answer, the empty one too, declines.
pub open spec fn accepts(answer: Seq<char>) -> bool {
    let t = trimmed(answer);
    t.len() > 0 && (t[0] == 'y' || t[0] == 'Y')
}

/// The strategies are tried strictly in their order, each once at most: every
/// step from a stage that is not final leads to a later stage, and the final
/// stages are left no more. An attempt that is accepted ends the negotiation.
pub proof fn lemma_strict_order(plan: AuthPlanView, stage: AuthStageView, event: AuthEventView)
    ensures
        rank(stage) < 7 ==> rank(next(plan, stage, event).0) > rank(stage),
        rank(stage) == 7 ==> next(plan, stage, event).0 == stage,
        1 <= rank(stage) < 7 && rank(stage) != 4 && event is Accepted ==> next(
            plan,
            stage,
            event,
        ).0 == (AuthStageView::Authenticated {
            strategy: strategy_of(stage).unwrap(),
            typed: match stage {
                AuthStageView::Password { password } => Some(password),
                AuthStageView::Challenge { password } => Some(password),
                _ => None,
            },
        }),
{
}

/// What the caller is told to do belongs to the stage that is entered: the
/// identity file is tried in its stage, with its path made canonical; the
/// remembered credential in its stage, as it is; the agent in its stage; and
/// the user is asked only in the stage of the prompt.
pub proof fn lemma_action_fits_stage(plan: AuthPlanView, stage: AuthStageView, event: AuthEventView)
    ensures
        ({
            let (to, action) = next(plan, stage, event);
            match to {
                AuthStageView::Start => false,
                AuthStageView::IdentityFile => plan.identity_file is Some && action == (
                AuthActionView::TryKeyFile {
                    path: plan.identity_file.unwrap(),
                    canonicalize: true,
                }),
                AuthStageView::SavedCredential => match plan.saved {
                    SavedAttemptView::Password(password) => action == (AuthActionView::TryPassword {
                        password,
                    }),
                    SavedAttemptView::KeyFile(path) => action == (AuthActionView::TryKeyFile {
                        path,
                        canonicalize: false,
                    }),
                    SavedAttemptView::Nothing => false,
                },
                AuthStageView::Agent => action == AuthActionView::TryAgent,
                AuthStageView::Prompt => action == AuthActionView::AskPassword,
                AuthStageView::Password { password } => action == (AuthActionView::TryPassword {
                    password,
                }),
                AuthStageView::Challenge { password } => action == (AuthActionView::TryChallenge {
                    password,
                }),
                AuthStageView::Authenticated { strategy, typed } => action == (
                AuthActionView::Succeed { strategy, typed }),
                AuthStageView::Failed => action == AuthActionView::Fail,
            }
        }),
{
}

/// Where the agent is accepted whenever it is tried, the negotiation never
/// goes beyond the agent: the user is never asked for a password.
pub proof fn lemma_agent_spares_prompt(plan: AuthPlanView, events: Seq<AuthEventView>)
    requires
        forall|i: int|
            0 <= i < events.len() && #[trigger] stage_after(plan, events.take(i))
                == AuthStageView::Agent ==> events[i] is Accepted,
    ensures
        without_prompt(stage_after(plan, events)),
        events.len() > 0 ==> action_after(plan, events) != AuthActionView::AskPassword,
        events.len() > 0 ==> !(action_after(plan, events) is TryChallenge),
    decreases events.len(),
{
    if events.len() > 0 {
        let before = events.drop_last();
        assert forall|i: int|
            0 <= i < before.len() && #[trigger] stage_after(plan, before.take(i))
                == AuthStageView::Agent implies before[i] is Accepted by {
            assert(before.take(i) =~= events.take(i));
        }
        lemma_agent_spares_prompt(plan, before);
    }
}

/// After the credential for a target has been remembered, no offer to
/// remember is made for that target again, whatever the stage.
pub proof fn lemma_no_second_offer(
    m: Map<Seq<char>, AuthDataView>,
    key: Seq<char>,
    data: AuthDataView,
    stage: AuthStageView,
)
    ensures
        !offers_save(remembered(m, key, data), key, stage),
{
}

/// What is known before the negotiation begins: the identity file, and what
/// the credential remembered for the target lets the negotiation try. A
/// remembered password is opened here, ahead of the attempts: what it opens
/// to depends on the key and the stored text alone, so the second strategy
/// tries the same whenever it is reached.
pub fn prepare(
    identity_file: Option<String>,
    saved: Option<&AuthData>,
    key: Option<&KeyMaterial>,
) -> (r: AuthPlan)
    ensures
        r@.identity_file == opt_view(identity_file),
        r@.saved == saved_attempt(
            match key {
                Some(k) => Some(k@),
                None => None,
            },
            match saved {
                Some(d) => Some(d@),
                None => None,
            },
        ),
{
    let attempt = match saved {
        None => SavedAttempt::Nothing,
        Some(data) => match data.auth_type {
            AuthType::KeyPath => SavedAttempt::KeyFile(data.secret.clone()),
            AuthType::Password => match key {
                None => SavedAttempt::Nothing,
                Some(k) => match decrypt(k, data.secret.as_str()) {
                    Ok(password) => SavedAttempt::Password(password),
                    Err(_) => SavedAttempt::Nothing,
                },
            },
        },
    };
    AuthPlan { identity_file, saved: attempt }
}

/// The step into the first strategy that applies, from the remembered
/// credential on.
fn step_into_saved(plan: &AuthPlan) -> (r: (AuthStage, AuthAction))
    ensures
        (r.0@, r.1@) == enter_saved(plan@),
{
    match &plan.saved {
        SavedAttempt::Password(password) => (
            AuthStage::SavedCredential,
            AuthAction::TryPassword { password: password.clone() },
        ),
        SavedAttempt::KeyFile(path) => (
            AuthStage::SavedCredential,
            AuthAction::TryKeyFile { path: path.clone(), canonicalize: false },
        ),
        SavedAttempt::Nothing => (AuthStage::Agent, AuthAction::TryAgent),
    }
}

/// The step that ends the negotiation with success.
fn step_to_success(strategy: Strategy, password: Option<String>) -> (r: (AuthStage, AuthAction))
    ensures
        (r.0@, r.1@) == succeed(strategy, opt_view(password)),
{
    let copy = match &password {
        Some(p) => Some(p.clone()),
        None => None,
    };
    (
        AuthStage::Authenticated { strategy, typed: password },
        AuthAction::Succeed { strategy, typed: copy },
    )
}

/// The next stage and what the caller is to do.
pub fn advance(plan: &AuthPlan, stage: AuthStage, event: AuthEvent) -> (r: (AuthStage, AuthAction))
    ensures
        (r.0@, r.1@) == next(plan@, stage@, event@),
{
    let accepted = match &event {
        AuthEvent::Accepted => true,
        _ => false,
    };
    match stage {
        AuthStage::Start => match &plan.identity_file {
            Some(path) => (
                AuthStage::IdentityFile,
                AuthAction::TryKeyFile { path: path.clone(), canonicalize: true },
            ),
            None => step_into_saved(plan),
        },
        AuthStage::IdentityFile => if accepted {
            step_to_success(Strategy::IdentityFile, None)
        } else {
            step_into_saved(plan)
        },
        AuthStage::SavedCredential => if accepted {
            step_to_success(Strategy::SavedCredential, None)
        } else {
            (AuthStage::Agent, AuthAction::TryAgent)
        },
        AuthStage::Agent => if accepted {
            step_to_success(Strategy::Agent, None)
        } else {
            (AuthStage::Prompt, AuthAction::AskPassword)
        },
        AuthStage::Prompt => match event {
            AuthEvent::Typed(password) => {
                let copy = password.clone();
                (AuthStage::Password { password }, AuthAction::TryPassword { password: copy })
            },
            _ => (AuthStage::Failed, AuthAction::Fail),
        },
        AuthStage::Password { password } => if accepted {
            step_to_success(Strategy::Interactive, Some(password))
        } else {
            let copy = password.clone();
            (AuthStage::Challenge { password }, AuthAction::TryChallenge { password: copy })
        },
        AuthStage::Challenge { password } => if accepted {
            step_to_success(Strategy::Interactive, Some(password))
        } else {
            (AuthStage::Failed, AuthAction::Fail)
        },
        AuthStage::Authenticated { strategy, typed } => step_to_success(strategy, typed),
        AuthStage::Failed => (AuthStage::Failed, AuthAction::Fail),
    }
}

/// The answers to the prompts of a challenge, of which `echo` says for each
/// whether it is echoed.
pub fn challenge_answers(password: &str, echo: &Vec<bool>) -> (r: Vec<String>)
    ensures
        crate::text::views(r@) == answers(password@, echo@),
{
    let mut out: Vec<String> = Vec::new();
    let n = echo.len();
    let mut i: usize = 0;
    while i < n
        invariant
            i <= n,
            n == echo@.len(),
            out@.len() == i,
            forall|k: int|
                0 <= k < i ==> (#[trigger] out@[k])@ == if echo@[k] {
                    Seq::<char>::empty()
                } else {
                    password@
                },
        decreases n - i,
    {
        if echo[i] {
            out.push(String::new());
        } else {
            out.push(password.to_owned());
        }
        i += 1;
    }
    out
}

/// Whether the user is to be offered that the credential be remembered.
pub fn should_offer_save(config: &Config, key: &str, stage: &AuthStage) -> (r: bool)
    ensures
        r == offers_save(config@, key@, stage@),
{
    match stage {
        AuthStage::Authenticated { strategy: Strategy::Interactive, .. } => !config.contains(key),
        _ => false,
    }
}

/// What an attempt is reported as: it is accepted where the call to the
/// transport succeeded and the transport then says that the session is
/// authenticated, and refused in every other case.
pub fn attempt_event(call_ok: bool, authenticated: bool) -> (r: AuthEvent)
    ensures
        r@ == if call_ok && authenticated {
            AuthEventView::Accepted
        } else {
            AuthEventView::Refused
        },
{
    if call_ok && authenticated {
        AuthEvent::Accepted
    } else {
        AuthEvent::Refused
    }
}

/// Whether the answer `answer` accepts the offer to remember the credential.
pub fn accepts_save(answer: &str) -> (r: bool)
    ensures
        r == accepts(answer@),
{
    let v = chars_of(answer);
    let (a, b) = trim_bounds(&v);
    if a < b {
        v[a] == 'y' || v[a] == 'Y'
    } else {
        false
    }
}

/// Remembers the typed password for the target with the key `target_key`:
/// the password is sealed under `key` and stored, unless something is
/// remembered for the target already. Says whether it was stored. Where the
/// password cannot be sealed, nothing changes.
pub fn save_credential(
    config: &mut Config,
    key: &KeyMaterial,
    target_key: String,
    password: &str,
) -> (r: Result<bool, CryptoError>)
    ensures
        match r {
            Ok(stored) => {
                &&& can_seal(password@)
                &&& stored == !old(config)@.contains_key(target_key@)
                &&& exists|secret: Seq<char>|
                    {
                        &&& opened_text(key@, secret) == Ok::<Seq<char>, CryptoError>(password@)
                        &&& final(config)@ == #[trigger] remembered(
                            old(config)@,
                            target_key@,
                            AuthDataView { auth_type: AuthType::Password, secret },
                        )
                    }
            },
            Err(e) => e == CryptoError::TooLong && !can_seal(password@) && *final(config) == *old(
                config,
            ),
        },
        old(config).distinct_keys() ==> final(config).distinct_keys(),
        r is Ok ==> !offers_save(
            final(config)@,
            target_key@,
            AuthStageView::Authenticated { strategy: Strategy::Interactive, typed: Some(password@) },
        ),
{
    match encrypt(key, password) {
        Err(e) => Err(e),
        Ok(secret) => {
            let stored = config.remember(
                target_key,
                AuthData { auth_type: AuthType::Password, secret },
            );
            Ok(stored)
        },
    }
}

} // verus!
