use cargo_xfmt::cargo_fmt::cargo_fmt;
use cargo_xfmt::cargo_fmt::cargo_fmt_command;
use cargo_xfmt::cargo_fmt::CargoFmtOptions;
use cargo_xfmt::command::strip_subcommand;
use cargo_xfmt::command::Command;
use cargo_xfmt::command::InvocationMode;
use cargo_xfmt::error::IoOperation;
use cargo_xfmt::error::ValueKind;
use cargo_xfmt::error::XfmtError;
use cargo_xfmt::invocation::extend_args;
use cargo_xfmt::invocation::extend_config_args;
use cargo_xfmt::invocation::rustfmt_command;
use cargo_xfmt::invocation::Input;
use cargo_xfmt::invocation::Invocation;
use cargo_xfmt::invocation::Stream;
use cargo_xfmt::run::Action;
use cargo_xfmt::run::Event;
use cargo_xfmt::run::Phase;
use cargo_xfmt::run::Run;
use cargo_xfmt::rustfmt::rustfmt;
use cargo_xfmt::rustfmt::rustfmt_one;
use cargo_xfmt::rustfmt::FilesStep;
use cargo_xfmt::rustfmt::RustfmtOptions;
use cargo_xfmt::rustfmt_stdio::rustfmt_stdio;
use cargo_xfmt::rustfmt_stdio::RustfmtStdioOptions;
use cargo_xfmt::rustfmt_toml::Rename;
use cargo_xfmt::rustfmt_toml::RustfmtToml;
use cargo_xfmt::snapshot::Node;
use cargo_xfmt::snapshot::Snapshot;

fn strings(items: &[&str]) -> Vec<String> {
    items.iter().map(|s| s.to_string()).collect()
}

fn pairs(items: &[(&str, &str)]) -> Vec<(String, String)> {
    items.iter().map(|(k, v)| (k.to_string(), v.to_string())).collect()
}

fn project(cwd: Option<&str>, config: &str) -> Snapshot {
    let mut fs = Snapshot::new(cwd.map(|s| s.to_string()));
    fs.record("/w".to_string(), Node::Directory);
    fs.record("/w/src".to_string(), Node::Directory);
    fs.record("/w/Cargo.toml".to_string(), Node::File("[package]\nedition = \"2021\"\n".to_string()));
    fs.record("/w/rustfmt.toml".to_string(), Node::File(config.to_string()));
    fs.record("/w/src/main.rs".to_string(), Node::File("fn main(){}".to_string()));
    fs
}

fn hiding_rename() -> Action {
    Action::Rename(Rename { from: "/w/rustfmt.toml".to_string(), to: "/w/_rustfmt.toml".to_string() })
}

fn bring_back() -> Action {
    Action::Rename(Rename { from: "/w/_rustfmt.toml".to_string(), to: "/w/rustfmt.toml".to_string() })
}

fn some_run(store: Option<&str>) -> (Run, Action, Invocation) {
    let config = RustfmtToml::parse("/w/rustfmt.toml", "max_width = 40\n").unwrap();
    let invocation = rustfmt_command(
        false,
        &None,
        config.config(),
        &Vec::new(),
        Input::OwnInput,
        Stream::Inherit,
    );
    let copy = invocation.clone_invocation();
    let (run, first) = Run::new(config, invocation, store.map(|s| s.to_string()));
    (run, first, copy)
}

#[test]
fn config_entries_become_argument_pairs() {
    let mut args = Vec::new();
    extend_config_args(&mut args, &pairs(&[("max_width", "100"), ("hard_tabs", "true")]));
    assert_eq!(args, strings(&["--config", "max_width=100", "--config", "hard_tabs=true"]));
}

#[test]
fn config_file_becomes_argument_pairs() {
    let config = RustfmtToml::parse("/p/rustfmt.toml", "max_width = 100\nhard_tabs = true\n").unwrap();
    let mut args = strings(&["first"]);
    extend_config_args(&mut args, config.config());
    assert_eq!(args, strings(&["first", "--config", "max_width=100", "--config", "hard_tabs=true"]));
    let mut none = strings(&["first"]);
    extend_config_args(&mut none, &Vec::new());
    assert_eq!(none, strings(&["first"]));
}

#[test]
fn arguments_are_appended_in_order() {
    let mut args = strings(&["a"]);
    extend_args(&mut args, &strings(&["b", "c"]));
    assert_eq!(args, strings(&["a", "b", "c"]));
}

#[test]
fn formatter_command_in_full() {
    let invocation = rustfmt_command(
        true,
        &Some("2021".to_string()),
        &pairs(&[("max_width", "100"), ("hard_tabs", "true")]),
        &strings(&["--verbose", "--", "x"]),
        Input::OwnInput,
        Stream::Inherit,
    );
    assert_eq!(
        invocation,
        Invocation {
            program: "rustfmt".to_string(),
            args: strings(&[
                "--check",
                "--edition",
                "2021",
                "--config",
                "max_width=100",
                "--config",
                "hard_tabs=true",
                "--verbose",
                "--",
                "x",
            ]),
            stdin: Input::OwnInput,
            stdout: Stream::Inherit,
            stderr: Stream::Inherit,
        }
    );
    assert_eq!(invocation.clone_invocation(), invocation);
}

#[test]
fn formatter_command_at_its_barest() {
    let invocation = rustfmt_command(
        false,
        &None,
        &Vec::new(),
        &Vec::new(),
        Input::File("/w/a.rs".to_string()),
        Stream::Piped,
    );
    assert_eq!(
        invocation,
        Invocation {
            program: "rustfmt".to_string(),
            args: Vec::new(),
            stdin: Input::File("/w/a.rs".to_string()),
            stdout: Stream::Piped,
            stderr: Stream::Inherit,
        }
    );
}

#[test]
fn project_command_splits_the_additional_arguments() {
    let invocation = cargo_fmt_command(
        true,
        &pairs(&[("max_width", "100")]),
        strings(&["--all", "--", "--emit", "files", "--", "z"]),
    );
    assert_eq!(
        invocation,
        Invocation {
            program: "cargo".to_string(),
            args: strings(&[
                "fmt",
                "--check",
                "--all",
                "--",
                "--config",
                "max_width=100",
                "--emit",
                "files",
                "--",
                "z",
            ]),
            stdin: Input::Inherit,
            stdout: Stream::Inherit,
            stderr: Stream::Inherit,
        }
    );
}

#[test]
fn project_command_without_separator() {
    let invocation = cargo_fmt_command(false, &pairs(&[("a", "b")]), strings(&["--all"]));
    assert_eq!(invocation.args, strings(&["fmt", "--all", "--", "--config", "a=b"]));
    let bare = cargo_fmt_command(false, &Vec::new(), Vec::new());
    assert_eq!(bare.args, strings(&["fmt", "--"]));
}

#[test]
fn mode_is_stdio_when_input_is_no_terminal() {
    let command = Command {
        config: None,
        check: true,
        files: strings(&["a.rs"]),
        additional_args: strings(&["x"]),
    };
    assert_eq!(
        command.mode(false),
        InvocationMode::Stdio(RustfmtStdioOptions { check: true, additional_args: strings(&["x"]) })
    );
}

#[test]
fn mode_is_files_when_files_are_named() {
    let command = Command {
        config: None,
        check: false,
        files: strings(&["a.rs", "b.rs"]),
        additional_args: strings(&["x"]),
    };
    assert_eq!(
        command.mode(true),
        InvocationMode::Files(RustfmtOptions {
            check: false,
            files: strings(&["a.rs", "b.rs"]),
            additional_args: strings(&["x"]),
        })
    );
}

#[test]
fn mode_is_project_otherwise() {
    let command = Command {
        config: Some("x.toml".to_string()),
        check: true,
        files: Vec::new(),
        additional_args: strings(&["--", "y"]),
    };
    assert_eq!(
        command.mode(true),
        InvocationMode::Project(CargoFmtOptions { check: true, additional_args: strings(&["--", "y"]) })
    );
}

#[test]
fn subcommand_name_is_dropped() {
    assert_eq!(
        strip_subcommand(strings(&["cargo", "xfmt", "--check"])),
        strings(&["xfmt", "--check"])
    );
    assert_eq!(
        strip_subcommand(strings(&["cargo-xfmt", "--check"])),
        strings(&["cargo-xfmt", "--check"])
    );
    assert_eq!(strip_subcommand(strings(&["xfmt"])), strings(&["xfmt"]));
    assert_eq!(strip_subcommand(Vec::new()), Vec::<String>::new());
}

#[test]
fn files_are_formatted_one_after_the_other() {
    let options =
        RustfmtOptions { check: false, files: strings(&["a.rs", "b.rs", "c.rs"]), additional_args: Vec::new() };
    assert_eq!(rustfmt(&options, &vec![]), FilesStep::Format(0));
    assert_eq!(rustfmt(&options, &vec![0]), FilesStep::Format(1));
    assert_eq!(rustfmt(&options, &vec![0, 0]), FilesStep::Format(2));
    assert_eq!(rustfmt(&options, &vec![0, 0, 0]), FilesStep::Exit(0));
}

#[test]
fn second_file_failing_stops_before_the_third() {
    let options =
        RustfmtOptions { check: true, files: strings(&["a.rs", "b.rs", "c.rs"]), additional_args: Vec::new() };
    assert_eq!(rustfmt(&options, &vec![0, 3]), FilesStep::Exit(3));
    assert_eq!(rustfmt(&options, &vec![0, 3, 0]), FilesStep::Exit(3));
    assert_eq!(rustfmt(&options, &vec![0, 3, 5]), FilesStep::Exit(3));
    assert_eq!(rustfmt(&options, &vec![-1]), FilesStep::Exit(-1));
}

#[test]
fn no_files_end_at_once() {
    let options = RustfmtOptions { check: false, files: Vec::new(), additional_args: Vec::new() };
    assert_eq!(rustfmt(&options, &vec![]), FilesStep::Exit(0));
}

#[test]
fn stdio_run_from_start_to_exit() {
    let fs = project(Some("/w"), "max_width = 40\n");
    let options = RustfmtStdioOptions { check: false, additional_args: strings(&["--quiet"]) };
    let (mut run, first) = rustfmt_stdio(options, &fs).unwrap();
    assert_eq!(first, hiding_rename());
    assert_eq!(run.phase(), Phase::Hiding);
    assert_eq!(run.teardown(), None);
    let spawn = run.advance(Event::Renamed(true));
    assert_eq!(
        spawn,
        Action::Spawn(Invocation {
            program: "rustfmt".to_string(),
            args: strings(&["--edition", "2021", "--config", "max_width=40", "--quiet"]),
            stdin: Input::OwnInput,
            stdout: Stream::Inherit,
            stderr: Stream::Inherit,
        })
    );
    assert_eq!(run.phase(), Phase::Running);
    assert!(run.config().is_hidden());
    assert_eq!(run.advance(Event::Exited(Some(0))), bring_back());
    assert_eq!(run.phase(), Phase::Restoring);
    assert_eq!(run.advance(Event::Renamed(true)), Action::Finish(Ok(0)));
    assert_eq!(run.phase(), Phase::Finished);
    assert!(!run.config().is_hidden());
    assert_eq!(run.teardown(), None);
    assert_eq!(run.advance(Event::Renamed(true)), Action::Finish(Ok(0)));
}

#[test]
fn stdio_run_hands_on_the_code_of_the_child() {
    let fs = project(Some("/w/src"), "");
    let options = RustfmtStdioOptions { check: true, additional_args: Vec::new() };
    let (mut run, _) = rustfmt_stdio(options, &fs).unwrap();
    assert_eq!(
        run.advance(Event::Renamed(true)),
        Action::Spawn(Invocation {
            program: "rustfmt".to_string(),
            args: strings(&["--check", "--edition", "2021"]),
            stdin: Input::OwnInput,
            stdout: Stream::Inherit,
            stderr: Stream::Inherit,
        })
    );
    assert_eq!(run.advance(Event::Exited(Some(7))), bring_back());
    assert_eq!(run.advance(Event::Renamed(true)), Action::Finish(Ok(7)));
}

#[test]
fn child_without_code_counts_as_one() {
    let (mut run, _, _) = some_run(None);
    run.advance(Event::Renamed(true));
    assert_eq!(run.advance(Event::Exited(None)), bring_back());
    assert_eq!(run.advance(Event::Renamed(true)), Action::Finish(Ok(1)));
}

#[test]
fn array_in_config_means_nothing_is_run() {
    let fs = project(Some("/w"), "ignore = [\"a.rs\"]\n");
    let stdio = RustfmtStdioOptions { check: false, additional_args: Vec::new() };
    assert_eq!(
        rustfmt_stdio(stdio, &fs),
        Err(XfmtError::UnsupportedConfigValue(ValueKind::Array))
    );
    let files = RustfmtOptions { check: false, files: strings(&["/w/src/main.rs"]), additional_args: Vec::new() };
    assert_eq!(
        rustfmt_one("/w/src/main.rs", &files, &fs),
        Err(XfmtError::UnsupportedConfigValue(ValueKind::Array))
    );
    let all = CargoFmtOptions { check: false, additional_args: Vec::new() };
    assert_eq!(cargo_fmt(all, &fs), Err(XfmtError::UnsupportedConfigValue(ValueKind::Array)));
}

#[test]
fn unknown_working_directory_means_nothing_is_run() {
    let fs = project(None, "");
    let stdio = RustfmtStdioOptions { check: false, additional_args: Vec::new() };
    assert_eq!(rustfmt_stdio(stdio, &fs), Err(XfmtError::Io(IoOperation::CurrentDir)));
    let all = CargoFmtOptions { check: false, additional_args: Vec::new() };
    assert_eq!(cargo_fmt(all, &fs), Err(XfmtError::Io(IoOperation::CurrentDir)));
}

#[test]
fn missing_manifest_or_config_means_nothing_is_run() {
    let mut fs = Snapshot::new(Some("/w".to_string()));
    fs.record("/w".to_string(), Node::Directory);
    let stdio = RustfmtStdioOptions { check: false, additional_args: Vec::new() };
    assert_eq!(rustfmt_stdio(stdio.clone(), &fs), Err(XfmtError::ManifestNotFound));
    fs.record("/w/Cargo.toml".to_string(), Node::File("[package]\n".to_string()));
    assert_eq!(rustfmt_stdio(stdio, &fs), Err(XfmtError::ConfigNotFound));
    let all = CargoFmtOptions { check: false, additional_args: Vec::new() };
    assert_eq!(cargo_fmt(all, &fs), Err(XfmtError::ConfigNotFound));
}

#[test]
fn project_run_needs_no_manifest() {
    let mut fs = Snapshot::new(Some("/w".to_string()));
    fs.record("/w".to_string(), Node::Directory);
    fs.record("/w/rustfmt.toml".to_string(), Node::File("max_width = 40\n".to_string()));
    let options = CargoFmtOptions { check: true, additional_args: strings(&["-p", "x", "--", "-v"]) };
    let (mut run, first) = cargo_fmt(options, &fs).unwrap();
    assert_eq!(first, hiding_rename());
    assert_eq!(
        run.advance(Event::Renamed(true)),
        Action::Spawn(Invocation {
            program: "cargo".to_string(),
            args: strings(&["fmt", "--check", "-p", "x", "--", "--config", "max_width=40", "-v"]),
            stdin: Input::Inherit,
            stdout: Stream::Inherit,
            stderr: Stream::Inherit,
        })
    );
    assert_eq!(run.advance(Event::Exited(Some(1))), bring_back());
    assert_eq!(run.advance(Event::Renamed(true)), Action::Finish(Ok(1)));
}

#[test]
fn file_run_stores_the_output_on_success() {
    let fs = project(None, "max_width = 40\n");
    let options =
        RustfmtOptions { check: false, files: strings(&["/w/src/main.rs"]), additional_args: strings(&["-v"]) };
    let (mut run, first) = rustfmt_one("/w/src/main.rs", &options, &fs).unwrap();
    assert_eq!(first, hiding_rename());
    assert_eq!(
        run.advance(Event::Renamed(true)),
        Action::Spawn(Invocation {
            program: "rustfmt".to_string(),
            args: strings(&["--edition", "2021", "--config", "max_width=40", "-v"]),
            stdin: Input::File("/w/src/main.rs".to_string()),
            stdout: Stream::Piped,
            stderr: Stream::Inherit,
        })
    );
    assert_eq!(run.advance(Event::Exited(Some(0))), Action::Store("/w/src/main.rs".to_string()));
    assert_eq!(run.phase(), Phase::Storing);
    assert_eq!(run.advance(Event::Stored(true)), bring_back());
    assert_eq!(run.advance(Event::Renamed(true)), Action::Finish(Ok(0)));
}

#[test]
fn file_run_feeds_and_stores_the_absolute_path() {
    let mut fs = Snapshot::new(Some("/w".to_string()));
    fs.record("src/./main.rs".to_string(), Node::File("".to_string()));
    fs.record("Cargo.toml".to_string(), Node::File("".to_string()));
    fs.record("/w/Cargo.toml".to_string(), Node::File("[package]\n".to_string()));
    fs.record("src/rustfmt.toml".to_string(), Node::File("".to_string()));
    fs.record("/w/src/rustfmt.toml".to_string(), Node::File("a = 1\n".to_string()));
    let options = RustfmtOptions { check: true, files: strings(&["src/./main.rs"]), additional_args: Vec::new() };
    let (mut run, first) = rustfmt_one("src/./main.rs", &options, &fs).unwrap();
    assert_eq!(
        first,
        Action::Rename(Rename {
            from: "/w/src/rustfmt.toml".to_string(),
            to: "/w/src/_rustfmt.toml".to_string()
        })
    );
    assert_eq!(
        run.advance(Event::Renamed(true)),
        Action::Spawn(Invocation {
            program: "rustfmt".to_string(),
            args: strings(&["--check", "--config", "a=1"]),
            stdin: Input::File("/w/src/main.rs".to_string()),
            stdout: Stream::Piped,
            stderr: Stream::Inherit,
        })
    );
    assert_eq!(run.advance(Event::Exited(Some(0))), Action::Store("/w/src/main.rs".to_string()));
}

#[test]
fn file_run_stores_nothing_after_a_failure() {
    let (mut run, _, _) = some_run(Some("/w/src/main.rs"));
    run.advance(Event::Renamed(true));
    assert_eq!(run.advance(Event::Exited(Some(1))), bring_back());
    assert_eq!(run.advance(Event::Renamed(true)), Action::Finish(Ok(1)));
}

#[test]
fn failed_store_is_reported_after_the_file_is_back() {
    let (mut run, _, _) = some_run(Some("/w/src/main.rs"));
    run.advance(Event::Renamed(true));
    assert_eq!(run.advance(Event::Exited(Some(0))), Action::Store("/w/src/main.rs".to_string()));
    assert_eq!(run.advance(Event::Stored(false)), bring_back());
    assert!(run.config().is_hidden());
    assert_eq!(
        run.advance(Event::Renamed(true)),
        Action::Finish(Err(XfmtError::Io(IoOperation::Write)))
    );
    assert!(!run.config().is_hidden());
}

#[test]
fn relative_file_needs_the_working_directory() {
    let mut fs = Snapshot::new(None);
    fs.record("main.rs".to_string(), Node::File("".to_string()));
    fs.record("Cargo.toml".to_string(), Node::File("[package]\n".to_string()));
    fs.record("/abs/rustfmt.toml".to_string(), Node::File("".to_string()));
    let options = RustfmtOptions { check: false, files: strings(&["main.rs"]), additional_args: Vec::new() };
    assert_eq!(rustfmt_one("main.rs", &options, &fs), Err(XfmtError::Io(IoOperation::CurrentDir)));
}

#[test]
fn failed_hiding_ends_the_run_at_once() {
    let (mut run, first, _) = some_run(None);
    assert_eq!(first, hiding_rename());
    assert_eq!(
        run.advance(Event::Renamed(false)),
        Action::Finish(Err(XfmtError::Io(IoOperation::Rename)))
    );
    assert_eq!(run.phase(), Phase::Finished);
    assert!(!run.config().is_hidden());
    assert_eq!(run.teardown(), None);
}

#[test]
fn spawn_failure_brings_the_file_back_before_the_error() {
    let (mut run, _, invocation) = some_run(None);
    assert_eq!(run.advance(Event::Renamed(true)), Action::Spawn(invocation));
    assert_eq!(
        run.teardown(),
        Some(Rename { from: "/w/_rustfmt.toml".to_string(), to: "/w/rustfmt.toml".to_string() })
    );
    assert_eq!(run.advance(Event::SpawnFailed), bring_back());
    assert_eq!(run.phase(), Phase::Restoring);
    assert_eq!(run.advance(Event::Renamed(true)), Action::Finish(Err(XfmtError::SpawnFailure)));
    assert!(!run.config().is_hidden());
    assert_eq!(run.teardown(), None);
}

#[test]
fn spawn_failure_is_reported_even_if_the_file_stays_hidden() {
    let (mut run, _, _) = some_run(None);
    run.advance(Event::Renamed(true));
    assert_eq!(run.advance(Event::SpawnFailed), bring_back());
    assert_eq!(run.advance(Event::Renamed(false)), Action::Finish(Err(XfmtError::SpawnFailure)));
    assert!(run.config().is_hidden());
    assert_eq!(
        run.teardown(),
        Some(Rename { from: "/w/_rustfmt.toml".to_string(), to: "/w/rustfmt.toml".to_string() })
    );
}

#[test]
fn failure_around_the_child_brings_the_file_back() {
    let (mut run, _, _) = some_run(None);
    run.advance(Event::Renamed(true));
    assert_eq!(run.advance(Event::Failed(IoOperation::Read)), bring_back());
    assert_eq!(
        run.advance(Event::Renamed(true)),
        Action::Finish(Err(XfmtError::Io(IoOperation::Read)))
    );
}

#[test]
fn failed_rename_back_after_success_is_an_error() {
    let (mut run, _, _) = some_run(None);
    run.advance(Event::Renamed(true));
    assert_eq!(run.advance(Event::Exited(Some(0))), bring_back());
    assert_eq!(
        run.advance(Event::Renamed(false)),
        Action::Finish(Err(XfmtError::Io(IoOperation::Rename)))
    );
    assert!(run.config().is_hidden());
}

#[test]
fn event_that_answers_nothing_fails_the_action_under_way() {
    let (mut run, _, _) = some_run(Some("/w/a.rs"));
    assert_eq!(
        run.advance(Event::Exited(Some(0))),
        Action::Finish(Err(XfmtError::Io(IoOperation::Rename)))
    );
    let (mut run, _, _) = some_run(Some("/w/a.rs"));
    run.advance(Event::Renamed(true));
    assert_eq!(run.advance(Event::Stored(true)), bring_back());
    assert_eq!(
        run.advance(Event::Exited(Some(0))),
        Action::Finish(Err(XfmtError::Io(IoOperation::Child)))
    );
    let (mut run, _, _) = some_run(Some("/w/a.rs"));
    run.advance(Event::Renamed(true));
    run.advance(Event::Exited(Some(0)));
    assert_eq!(run.advance(Event::SpawnFailed), bring_back());
    assert_eq!(
        run.advance(Event::Renamed(true)),
        Action::Finish(Err(XfmtError::Io(IoOperation::Write)))
    );
}

#[test]
fn input_decides_how_standard_input_is_connected() {
    assert_eq!(Input::Inherit.stream(), Stream::Inherit);
    assert_eq!(Input::OwnInput.stream(), Stream::Piped);
    assert_eq!(Input::File("/a".to_string()).stream(), Stream::Piped);
}
