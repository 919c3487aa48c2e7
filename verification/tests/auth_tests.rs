use trump::auth::{
    accepts_save, advance, attempt_event, challenge_answers, prepare, save_credential, should_offer_save, AuthAction,
    AuthEvent, AuthPlan, AuthStage, SavedAttempt, Strategy,
};
use trump::config::{AuthData, AuthType, Config};
use trump::crypto::{decrypt, encrypt, KeyMaterial};

fn auth_key() -> KeyMaterial {
    KeyMaterial::from_bytes(vec![42; 32]).ok().unwrap()
}

fn plan_with(identity_file: Option<&str>, saved: SavedAttempt) -> AuthPlan {
    AuthPlan { identity_file: identity_file.map(|p| p.to_string()), saved }
}

fn run(plan: &AuthPlan, events: Vec<AuthEvent>) -> (AuthStage, Vec<AuthAction>) {
    let mut stage = AuthStage::Start;
    let mut actions = Vec::new();
    for event in events {
        let (next, action) = advance(plan, stage, event);
        stage = next;
        actions.push(action);
    }
    (stage, actions)
}

#[test]
fn the_strategies_run_in_their_order_until_all_are_refused() {
    let plan = plan_with(Some("~/.ssh/id_ed25519"), SavedAttempt::Password("saved".to_string()));
    let (stage, actions) = run(
        &plan,
        vec![
            AuthEvent::Begin,
            AuthEvent::Refused,
            AuthEvent::Refused,
            AuthEvent::Refused,
            AuthEvent::Typed("typed".to_string()),
            AuthEvent::Refused,
            AuthEvent::Refused,
        ],
    );
    assert_eq!(
        actions,
        vec![
            AuthAction::TryKeyFile { path: "~/.ssh/id_ed25519".to_string(), canonicalize: true },
            AuthAction::TryPassword { password: "saved".to_string() },
            AuthAction::TryAgent,
            AuthAction::AskPassword,
            AuthAction::TryPassword { password: "typed".to_string() },
            AuthAction::TryChallenge { password: "typed".to_string() },
            AuthAction::Fail,
        ]
    );
    assert_eq!(stage, AuthStage::Failed);
}

#[test]
fn an_agent_that_is_accepted_spares_the_prompt() {
    let plan = plan_with(Some("/id"), SavedAttempt::KeyFile("/saved/key".to_string()));
    let (stage, actions) = run(
        &plan,
        vec![AuthEvent::Begin, AuthEvent::Refused, AuthEvent::Refused, AuthEvent::Accepted],
    );
    assert_eq!(
        actions,
        vec![
            AuthAction::TryKeyFile { path: "/id".to_string(), canonicalize: true },
            AuthAction::TryKeyFile { path: "/saved/key".to_string(), canonicalize: false },
            AuthAction::TryAgent,
            AuthAction::Succeed { strategy: Strategy::Agent, typed: None },
        ]
    );
    assert_eq!(stage, AuthStage::Authenticated { strategy: Strategy::Agent, typed: None });
    assert!(!actions.contains(&AuthAction::AskPassword));
}

#[test]
fn the_first_success_ends_the_negotiation() {
    let plan = plan_with(Some("/id"), SavedAttempt::Password("saved".to_string()));
    let (stage, actions) = run(&plan, vec![AuthEvent::Begin, AuthEvent::Accepted]);
    assert_eq!(actions.len(), 2);
    assert_eq!(actions[1], AuthAction::Succeed { strategy: Strategy::IdentityFile, typed: None });
    let (again, action) = advance(&plan, stage, AuthEvent::Refused);
    assert_eq!(again, AuthStage::Authenticated { strategy: Strategy::IdentityFile, typed: None });
    assert_eq!(action, AuthAction::Succeed { strategy: Strategy::IdentityFile, typed: None });
}

#[test]
fn a_remembered_credential_that_is_accepted_ends_the_negotiation() {
    let plan = plan_with(None, SavedAttempt::Password("saved".to_string()));
    let (stage, actions) = run(&plan, vec![AuthEvent::Begin, AuthEvent::Accepted]);
    assert_eq!(actions[0], AuthAction::TryPassword { password: "saved".to_string() });
    assert_eq!(stage, AuthStage::Authenticated { strategy: Strategy::SavedCredential, typed: None });
}

#[test]
fn with_nothing_to_go_by_the_agent_comes_first_and_then_the_prompt() {
    let plan = plan_with(None, SavedAttempt::Nothing);
    let (stage, actions) = run(&plan, vec![AuthEvent::Begin, AuthEvent::Refused]);
    assert_eq!(actions, vec![AuthAction::TryAgent, AuthAction::AskPassword]);
    assert_eq!(stage, AuthStage::Prompt);
}

#[test]
fn a_typed_password_that_is_accepted_is_handed_on() {
    let plan = plan_with(None, SavedAttempt::Nothing);
    let (stage, actions) = run(
        &plan,
        vec![
            AuthEvent::Begin,
            AuthEvent::Refused,
            AuthEvent::Typed("pw".to_string()),
            AuthEvent::Accepted,
        ],
    );
    let done = AuthStage::Authenticated {
        strategy: Strategy::Interactive,
        typed: Some("pw".to_string()),
    };
    assert_eq!(stage, done);
    assert_eq!(
        actions[3],
        AuthAction::Succeed { strategy: Strategy::Interactive, typed: Some("pw".to_string()) }
    );
}

#[test]
fn the_challenge_is_tried_after_the_password_with_the_same_password() {
    let plan = plan_with(None, SavedAttempt::Nothing);
    let (stage, actions) = run(
        &plan,
        vec![
            AuthEvent::Begin,
            AuthEvent::Refused,
            AuthEvent::Typed("pw".to_string()),
            AuthEvent::Refused,
            AuthEvent::Accepted,
        ],
    );
    assert_eq!(actions[3], AuthAction::TryChallenge { password: "pw".to_string() });
    assert_eq!(
        stage,
        AuthStage::Authenticated { strategy: Strategy::Interactive, typed: Some("pw".to_string()) }
    );
}

#[test]
fn a_prompt_without_an_answer_ends_in_failure() {
    let plan = plan_with(None, SavedAttempt::Nothing);
    let (stage, actions) =
        run(&plan, vec![AuthEvent::Begin, AuthEvent::Refused, AuthEvent::Refused]);
    assert_eq!(actions[2], AuthAction::Fail);
    assert_eq!(stage, AuthStage::Failed);
    assert_eq!(
        advance(&plan, AuthStage::Failed, AuthEvent::Accepted),
        (AuthStage::Failed, AuthAction::Fail)
    );
}

#[test]
fn a_remembered_password_is_opened_for_the_plan() {
    let k = auth_key();
    let sealed = encrypt(&k, "hunter2").unwrap();
    let saved = AuthData { auth_type: AuthType::Password, secret: sealed };
    let plan = prepare(Some("/id".to_string()), Some(&saved), Some(&k));
    assert_eq!(plan.identity_file, Some("/id".to_string()));
    assert_eq!(plan.saved, SavedAttempt::Password("hunter2".to_string()));
}

#[test]
fn a_remembered_password_that_cannot_be_opened_is_passed_over() {
    let k = auth_key();
    let other = KeyMaterial::from_bytes(vec![1; 32]).ok().unwrap();
    let sealed = encrypt(&other, "hunter2").unwrap();
    let saved = AuthData { auth_type: AuthType::Password, secret: sealed };
    assert_eq!(prepare(None, Some(&saved), Some(&k)).saved, SavedAttempt::Nothing);
    assert_eq!(prepare(None, Some(&saved), None).saved, SavedAttempt::Nothing);
    let garbled = AuthData { auth_type: AuthType::Password, secret: "garbled".to_string() };
    assert_eq!(prepare(None, Some(&garbled), Some(&k)).saved, SavedAttempt::Nothing);
}

#[test]
fn a_remembered_key_file_needs_no_key_material() {
    let saved = AuthData { auth_type: AuthType::KeyPath, secret: "/home/a/.ssh/id".to_string() };
    assert_eq!(
        prepare(None, Some(&saved), None).saved,
        SavedAttempt::KeyFile("/home/a/.ssh/id".to_string())
    );
    assert_eq!(prepare(None, None, None).saved, SavedAttempt::Nothing);
}

#[test]
fn the_password_answers_every_prompt_that_is_not_echoed() {
    assert_eq!(
        challenge_answers("pw", &vec![false, true, false]),
        vec!["pw".to_string(), String::new(), "pw".to_string()]
    );
    assert_eq!(challenge_answers("pw", &Vec::new()), Vec::<String>::new());
}

#[test]
fn saving_is_offered_only_after_a_typed_password_and_only_once() {
    let k = auth_key();
    let mut config = Config::new();
    let target = "alice@example.com:2222";
    let typed =
        AuthStage::Authenticated { strategy: Strategy::Interactive, typed: Some("pw".to_string()) };
    let by_agent = AuthStage::Authenticated { strategy: Strategy::Agent, typed: None };
    assert!(should_offer_save(&config, target, &typed));
    assert!(!should_offer_save(&config, target, &by_agent));
    assert!(!should_offer_save(&config, target, &AuthStage::Failed));
    assert_eq!(save_credential(&mut config, &k, target.to_string(), "pw"), Ok(true));
    assert!(!should_offer_save(&config, target, &typed));
    assert!(should_offer_save(&config, "bob@example.com:22", &typed));
}

#[test]
fn a_saved_credential_is_sealed_and_never_overwritten() {
    let k = auth_key();
    let mut config = Config::new();
    let target = "alice@example.com:2222";
    assert_eq!(save_credential(&mut config, &k, target.to_string(), "first"), Ok(true));
    let stored = config.get(target).unwrap().secret.clone();
    assert_ne!(stored, "first");
    assert_eq!(config.get(target).unwrap().auth_type, AuthType::Password);
    assert_eq!(decrypt(&k, &stored), Ok("first".to_string()));
    assert_eq!(save_credential(&mut config, &k, target.to_string(), "second"), Ok(false));
    assert_eq!(config.len(), 1);
    assert_eq!(config.get(target).unwrap().secret, stored);
}

#[test]
fn only_an_explicit_yes_accepts_the_offer_to_remember() {
    for yes in ["y", "Y", "yes", "  Yes\n"] {
        assert!(accepts_save(yes), "{:?}", yes);
    }
    for no in ["", "\n", "n", "no", "maybe", " ok"] {
        assert!(!accepts_save(no), "{:?}", no);
    }
}

#[test]
fn an_attempt_counts_only_where_the_call_and_the_session_agree() {
    assert_eq!(attempt_event(true, true), AuthEvent::Accepted);
    assert_eq!(attempt_event(true, false), AuthEvent::Refused);
    assert_eq!(attempt_event(false, true), AuthEvent::Refused);
    assert_eq!(attempt_event(false, false), AuthEvent::Refused);
}
