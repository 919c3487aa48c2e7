use trump::bridge::{
    after_run, connect_address, enter_then, reports_missing_cd, resolve_cwd_command, signatures,
    stat_offered, stat_probe_command, CdStage, CdStep, CommandResult, RunVerdict, SSHClient,
};
use trump::target::parse_target;

fn result(exit_status: i32, stdout: &str, stderr: &str) -> CommandResult {
    CommandResult { exit_status, stdout: stdout.to_string(), stderr: stderr.to_string() }
}

fn client_at(cwd: &str, stat_available: bool) -> SSHClient {
    SSHClient::new(parse_target("alice@example.com:2222").unwrap(), stat_available, cwd)
}

#[test]
fn the_session_starts_where_pwd_says() {
    let c = client_at("/home/alice\n", true);
    assert_eq!(c.user, "alice");
    assert_eq!(c.host_name, "example.com");
    assert_eq!(c.port, "2222");
    assert_eq!(c.current_directory, "/home/alice");
    assert!(c.stat_available);
    assert_eq!(resolve_cwd_command(), "pwd -P");
    assert_eq!(stat_probe_command(), "stat /");
}

#[test]
fn stat_is_offered_where_its_probe_ends_with_status_zero() {
    assert!(stat_offered(&result(0, "  File: /\n", "")));
    assert!(stat_offered(&result(0, "", "")));
    assert!(!stat_offered(&result(127, "", "sh: stat: not found")));
    assert!(!stat_offered(&result(1, "  File: /\n", "")));
    assert!(!stat_offered(&result(-1, "", "")));
}

#[test]
fn the_address_is_host_and_port() {
    assert_eq!(connect_address(&parse_target("bob@10.1.2.3").unwrap()), "10.1.2.3:22");
    assert_eq!(connect_address(&parse_target("bob@h:2200").unwrap()), "h:2200");
}

#[test]
fn the_prompt_names_the_target() {
    assert_eq!(client_at("/", true).prompt(), "trump > alice@example.com:2222 > ");
}

#[test]
fn a_relative_target_is_joined_onto_the_working_directory() {
    let c = client_at("/home/alice", true);
    assert_eq!(c.candidate_path("projects"), "/home/alice/projects");
    assert_eq!(c.candidate_path("../bob"), "/home/alice/../bob");
    assert_eq!(client_at("/", true).candidate_path("etc"), "/etc");
    assert_eq!(client_at("/srv/", true).candidate_path("www"), "/srv/www");
    assert_eq!(client_at("", true).candidate_path("x"), "x");
    assert_eq!(c.candidate_path(""), "/home/alice/");
}

#[test]
fn a_target_at_the_root_or_at_home_stands_alone() {
    let c = client_at("/home/alice", true);
    assert_eq!(c.candidate_path("/etc"), "/etc");
    assert_eq!(c.candidate_path("~"), "~");
    assert_eq!(c.candidate_path("~/notes"), "~/notes");
}

#[test]
fn a_command_is_sent_into_the_working_directory() {
    let c = client_at("/home/alice", true);
    assert_eq!(c.with_cwd("ls -la"), "cd /home/alice && ls -la");
    assert_eq!(enter_then("/tmp", "pwd"), "cd /tmp && pwd");
}

#[test]
fn a_confirmed_change_adopts_what_the_remote_host_printed() {
    let mut c = client_at("/home/alice", true);
    let (stage, command) = c.begin_cd("projects");
    assert_eq!(stage, CdStage::Probing { candidate: "/home/alice/projects".to_string() });
    assert_eq!(command, "cd /home/alice/projects && pwd");
    let step = c.cd_step(stage, &result(0, "/home/alice/projects\n", ""));
    assert_eq!(step, CdStep::Canonicalized);
    assert_eq!(c.current_directory, "/home/alice/projects");
}

#[test]
fn the_remote_host_resolves_links_and_dots() {
    let mut c = client_at("/home/alice", true);
    let (stage, _) = c.begin_cd("../bob/./link");
    assert_eq!(c.cd_step(stage, &result(0, "  /srv/data \n", "")), CdStep::Canonicalized);
    assert_eq!(c.current_directory, "/srv/data");
}

#[test]
fn a_path_that_does_not_exist_changes_nothing_and_is_reported() {
    let mut c = client_at("/home/alice", true);
    let (stage, _) = c.begin_cd("nowhere");
    let step = c.cd_step(stage, &result(1, "", "sh: cd: nowhere: No such file or directory\n"));
    assert_eq!(
        step,
        CdStep::Failed {
            exit_status: 1,
            stdout: String::new(),
            stderr: "sh: cd: nowhere: No such file or directory\n".to_string(),
        }
    );
    assert_eq!(c.current_directory, "/home/alice");
}

#[test]
fn success_needs_status_zero_and_output() {
    let mut c = client_at("/home/alice", true);
    let (stage, _) = c.begin_cd("x");
    assert!(matches!(c.cd_step(stage, &result(0, " \n", "")), CdStep::Failed { .. }));
    let (stage, _) = c.begin_cd("x");
    assert!(matches!(c.cd_step(stage, &result(2, "/somewhere\n", "")), CdStep::Failed { .. }));
    assert_eq!(c.current_directory, "/home/alice");
}

#[test]
fn without_cd_the_candidate_is_checked_by_stat_and_adopted_as_written() {
    let mut c = client_at("/home/alice", true);
    let (stage, _) = c.begin_cd("../bob");
    let step = c.cd_step(stage, &result(127, "", "sh: cd: not found\n"));
    let checking = CdStage::Checking { candidate: "/home/alice/../bob".to_string() };
    assert_eq!(
        step,
        CdStep::Check {
            stage: CdStage::Checking { candidate: "/home/alice/../bob".to_string() },
            command: "stat /home/alice/../bob".to_string(),
        }
    );
    assert_eq!(c.current_directory, "/home/alice");
    assert_eq!(c.cd_step(checking, &result(0, "ignored", "")), CdStep::DegradedLocal);
    assert_eq!(c.current_directory, "/home/alice/../bob");
}

#[test]
fn without_cd_and_stat_the_candidate_is_checked_by_listing() {
    let mut c = client_at("/home/alice", false);
    let (stage, _) = c.begin_cd("/opt");
    let step = c.cd_step(stage, &result(127, "bash: cd: command not found", ""));
    assert_eq!(
        step,
        CdStep::Check {
            stage: CdStage::Checking { candidate: "/opt".to_string() },
            command: "ls -d /opt".to_string(),
        }
    );
    let step = c.cd_step(
        CdStage::Checking { candidate: "/opt".to_string() },
        &result(2, "", "ls: /opt: No such file or directory"),
    );
    assert_eq!(
        step,
        CdStep::Failed {
            exit_status: 2,
            stdout: String::new(),
            stderr: "ls: /opt: No such file or directory".to_string(),
        }
    );
    assert_eq!(c.current_directory, "/home/alice");
}

#[test]
fn a_missing_cd_is_known_by_its_signatures() {
    assert_eq!(signatures().len(), 3);
    assert!(reports_missing_cd(&result(127, "", "sh: 1: cd: not found")));
    assert!(reports_missing_cd(&result(127, "-rbash: cd: command not found", "")));
    assert!(reports_missing_cd(&result(
        126,
        "",
        "exec: \"cd\": executable file not found in $PATH"
    )));
    assert!(reports_missing_cd(&result(1, "sh: cd: not", " found")));
    assert!(!reports_missing_cd(&result(1, "", "cd: /nowhere: No such file or directory")));
    assert!(!reports_missing_cd(&result(0, "", "")));
}

#[test]
fn a_command_that_failed_for_want_of_cd_is_sent_bare_once() {
    assert_eq!(
        after_run("ls -la", &result(127, "", "sh: cd: not found")),
        RunVerdict::RetryBare { command: "ls -la".to_string() }
    );
    assert_eq!(after_run("ls", &result(0, "cd: not found", "")), RunVerdict::Done);
    assert_eq!(after_run("ls", &result(2, "", "ls: cannot access")), RunVerdict::Done);
    assert_eq!(after_run("ls", &result(0, "a\nb\n", "")), RunVerdict::Done);
}
