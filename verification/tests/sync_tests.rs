use trump::bridge::CommandResult;
use trump::sync::{
    classify, classify_step, fetch, file_name, join_path, pack_warning, parent, push_back,
    ClassifyStage, ClassifyStep, EntryKind, Transfer, DEFAULT_FILE_MODE,
};

fn gave(exit_status: i32, stdout: &str, stderr: &str) -> CommandResult {
    CommandResult { exit_status, stdout: stdout.to_string(), stderr: stderr.to_string() }
}

fn strings(items: &[&str]) -> Vec<String> {
    items.iter().map(|s| s.to_string()).collect()
}

#[test]
fn the_last_component_is_the_name() {
    assert_eq!(file_name("/home/alice/notes.txt"), "notes.txt");
    assert_eq!(file_name("/home/alice/projects/"), "projects");
    assert_eq!(file_name("projects///"), "projects");
    assert_eq!(file_name("notes.txt"), "notes.txt");
    assert_eq!(file_name("/etc"), "etc");
    assert_eq!(file_name("/"), "");
    assert_eq!(file_name(""), "");
}

#[test]
fn what_stands_before_the_name_is_the_parent() {
    assert_eq!(parent("/home/alice/notes.txt"), "/home/alice");
    assert_eq!(parent("/home/alice/projects/"), "/home/alice");
    assert_eq!(parent("a/b"), "a");
    assert_eq!(parent("notes.txt"), ".");
    assert_eq!(parent("/etc"), "/");
    assert_eq!(parent("/"), "/");
    assert_eq!(parent(""), ".");
}

#[test]
fn a_path_in_a_directory_is_joined_by_a_slash() {
    assert_eq!(join_path("/tmp/trump-1", "notes.txt"), "/tmp/trump-1/notes.txt");
}

#[test]
fn the_kind_is_asked_by_stat_where_there_is_one() {
    assert_eq!(classify("docs", true), (ClassifyStage::Stat, "stat -c %F docs".to_string()));
    assert_eq!(classify("docs", false), (ClassifyStage::Listing, "ls -ld docs".to_string()));
}

#[test]
fn stat_names_the_kind() {
    assert_eq!(
        classify_step("docs", ClassifyStage::Stat, &gave(0, "directory\n", "")),
        ClassifyStep::Known { kind: EntryKind::Directory }
    );
    assert_eq!(
        classify_step("a.txt", ClassifyStage::Stat, &gave(0, "regular file\n", "")),
        ClassifyStep::Known { kind: EntryKind::File }
    );
    assert_eq!(
        classify_step("a.txt", ClassifyStage::Stat, &gave(0, "regular empty file\n", "")),
        ClassifyStep::Known { kind: EntryKind::File }
    );
}

#[test]
fn a_failed_stat_falls_back_on_the_listing() {
    assert_eq!(
        classify_step("my docs", ClassifyStage::Stat, &gave(127, "", "sh: stat: not found")),
        ClassifyStep::Fallback { command: "ls -ld my docs".to_string() }
    );
}

#[test]
fn the_listing_names_the_kind_by_its_first_character() {
    assert_eq!(
        classify_step("docs", ClassifyStage::Listing, &gave(0, "drwxr-xr-x 2 a a 4096 docs\n", "")),
        ClassifyStep::Known { kind: EntryKind::Directory }
    );
    assert_eq!(
        classify_step("a", ClassifyStage::Listing, &gave(0, "-rw-r--r-- 1 a a 12 a\n", "")),
        ClassifyStep::Known { kind: EntryKind::File }
    );
    assert_eq!(
        classify_step("a", ClassifyStage::Listing, &gave(2, "", "ls: a: No such file")),
        ClassifyStep::Known { kind: EntryKind::File }
    );
}

#[test]
fn a_file_is_fetched_as_a_raw_stream() {
    assert_eq!(
        fetch("/etc/hosts", "/tmp/s/hosts", EntryKind::File),
        Transfer::ReceiveFile { remote: "/etc/hosts".to_string(), local: "/tmp/s/hosts".to_string() }
    );
}

#[test]
fn a_directory_is_fetched_through_tar_from_its_parent() {
    assert_eq!(
        fetch("/home/alice/projects", "/tmp/s/projects", EntryKind::Directory),
        Transfer::ReceiveTree {
            remote_command: "tar -C /home/alice -cf - projects".to_string(),
            local: "/tmp/s/projects".to_string(),
            program: "tar".to_string(),
            args: strings(&["-xf", "-", "-C", "/tmp/s/projects", "--strip-components=1"]),
        }
    );
    assert_eq!(
        fetch("projects/", "out", EntryKind::Directory),
        Transfer::ReceiveTree {
            remote_command: "tar -C . -cf - projects".to_string(),
            local: "out".to_string(),
            program: "tar".to_string(),
            args: strings(&["-xf", "-", "-C", "out", "--strip-components=1"]),
        }
    );
}

#[test]
fn a_file_is_pushed_back_with_the_default_mode() {
    assert_eq!(DEFAULT_FILE_MODE, 0o644);
    assert_eq!(
        push_back("/tmp/s/hosts", "/etc/hosts", false),
        Transfer::SendFile {
            local: "/tmp/s/hosts".to_string(),
            remote: "/etc/hosts".to_string(),
            mode: 0o644,
        }
    );
}

#[test]
fn a_directory_is_pushed_back_through_tar_with_overwrite() {
    assert_eq!(
        push_back("/tmp/s/projects", "/home/alice/projects", true),
        Transfer::SendTree {
            program: "tar".to_string(),
            args: strings(&["-C", "/tmp/s/projects", "-cf", "-", "."]),
            remote_command: "tar -xf - -C /home/alice/projects --overwrite".to_string(),
        }
    );
}

#[test]
fn a_failed_remote_tar_is_a_warning() {
    assert_eq!(
        pack_warning(&gave(2, "", "tar: projects: Cannot stat")),
        Some("tar: projects: Cannot stat".to_string())
    );
    assert_eq!(pack_warning(&gave(0, "", "tar: removing leading /")), None);
}
