use trump::auth::{advance, prepare, should_offer_save, AuthAction, AuthEvent, AuthStage};
use trump::bridge::{CdStep, CommandResult, SSHClient};
use trump::config::Config;
use trump::shell::{repl, ReplInput, Step};
use trump::target::parse_target;

#[test]
fn a_first_visit_asks_for_the_password_and_then_follows_the_remote_host() {
    let target = parse_target("alice@example.com:2222").unwrap();
    assert_eq!(target.user, "alice");
    assert_eq!(target.host, "example.com");
    assert_eq!(target.port, "2222");

    let config = Config::new();
    let plan = prepare(None, config.get(&target.key()), None);
    let (stage, action) = advance(&plan, AuthStage::Start, AuthEvent::Begin);
    assert_eq!(action, AuthAction::TryAgent);
    let (stage, action) = advance(&plan, stage, AuthEvent::Refused);
    assert_eq!(action, AuthAction::AskPassword);
    let (stage, action) = advance(&plan, stage, AuthEvent::Typed("pw".to_string()));
    assert_eq!(action, AuthAction::TryPassword { password: "pw".to_string() });
    let (stage, _) = advance(&plan, stage, AuthEvent::Accepted);
    assert!(should_offer_save(&config, &target.key(), &stage));

    let mut client = SSHClient::new(target, true, "/home/alice\n");
    let step = repl(ReplInput::Line("cd projects".to_string()));
    assert_eq!(step, Step::ChangeDirectory { target: "projects".to_string() });
    let (cd, command) = client.begin_cd("projects");
    assert_eq!(command, "cd /home/alice/projects && pwd");
    let printed = CommandResult {
        exit_status: 0,
        stdout: "/home/alice/projects\n".to_string(),
        stderr: String::new(),
    };
    assert_eq!(client.cd_step(cd, &printed), CdStep::Canonicalized);
    assert_eq!(client.current_directory, "/home/alice/projects");
}
