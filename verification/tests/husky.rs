use c3_cargo_husky::cli::{InstallArgs, RunArgs, SetArgs};
use c3_cargo_husky::husky::error::HuskyError;
use c3_cargo_husky::husky::filesystem_manager::LocalFilesystem;
use c3_cargo_husky::husky::hook_command_line;
use c3_cargo_husky::husky::repository::{hooks_directory, is_staged_status, staged_paths};
use c3_cargo_husky::husky::task_runner::{
    describe_task, find_task_by_name, group_not_found_line, group_preparing_line, plan_run,
    task_failed_line, task_header_lines, task_list_lines, task_not_found_line, task_skipped_line,
    task_succeeded_line, tasks_in_group,
    HuskyTaskRunner, RunStep, Task, TaskList, TaskRun,
};

fn strings(items: &[&str]) -> Vec<String> {
    items.iter().map(|s| s.to_string()).collect()
}

fn task(name: &str, group: Option<&str>) -> Task {
    Task {
        name: name.to_string(),
        group: group.map(|g| g.to_string()),
        command: "cargo".to_string(),
        cwd: None,
        args: None,
        include_globs: None,
        exclude: None,
    }
}

fn sample_tasks() -> Vec<Task> {
    vec![
        task("cargo-check", Some("pre-commit")),
        task("cargo-clippy", Some("Pre-Commit")),
        task("cargo-test", Some("pre-push")),
        task("cargo-fmt-verify", None),
        task("Cargo-Check", Some("pre-push")),
    ]
}

#[test]
fn should_run_matches_a_staged_path() {
    let runner = HuskyTaskRunner;
    let res = runner.should_run(&strings(&["*.rs"]), &strings(&["README.md", "src/main.rs"]));
    assert!(matches!(res, Ok(true)));
}

#[test]
fn should_run_without_match_is_false() {
    let runner = HuskyTaskRunner;
    let res = runner.should_run(&strings(&["*.rs", "*.toml"]), &strings(&["README.md"]));
    assert!(matches!(res, Ok(false)));
}

#[test]
fn should_run_with_no_globs_is_false() {
    let runner = HuskyTaskRunner;
    let res = runner.should_run(&[], &strings(&["README.md"]));
    assert!(matches!(res, Ok(false)));
}

#[test]
fn should_run_with_no_paths_is_false() {
    let runner = HuskyTaskRunner;
    let res = runner.should_run(&strings(&["**"]), &[]);
    assert!(matches!(res, Ok(false)));
}

#[test]
fn should_run_rejects_a_bad_glob() {
    let runner = HuskyTaskRunner;
    let res = runner.should_run(&strings(&["*.rs", "src/[a-"]), &strings(&["src/main.rs"]));
    assert!(matches!(res, Err(HuskyError::Globset(_))));
}

#[test]
fn filters_pass_without_globs() {
    let runner = HuskyTaskRunner;
    let t = task("build", None);
    assert!(runner.check_task_filters(&t, &strings(&["a.rs"])).is_ok());
}

#[test]
fn filters_skip_when_included_file_missing() {
    let runner = HuskyTaskRunner;
    let mut t = task("build", None);
    t.include_globs = Some(strings(&["*.rs"]));
    match runner.check_task_filters(&t, &strings(&["README.md"])) {
        Err(HuskyError::TaskSkipped(m)) => assert_eq!(m, "Included file(s) not found"),
        other => panic!("unexpected {:?}", other),
    }
    assert!(runner.check_task_filters(&t, &strings(&["lib.rs"])).is_ok());
}

#[test]
fn filters_skip_when_excluded_file_found() {
    let runner = HuskyTaskRunner;
    let mut t = task("build", None);
    t.exclude = Some(strings(&["*.md"]));
    match runner.check_task_filters(&t, &strings(&["README.md"])) {
        Err(HuskyError::TaskSkipped(m)) => assert_eq!(m, "Excluded file(s) found"),
        other => panic!("unexpected {:?}", other),
    }
    assert!(runner.check_task_filters(&t, &strings(&["lib.rs"])).is_ok());
}

#[test]
fn filters_look_at_include_before_exclude() {
    let runner = HuskyTaskRunner;
    let mut t = task("build", None);
    t.include_globs = Some(strings(&["*.toml"]));
    t.exclude = Some(strings(&["*.md"]));
    match runner.check_task_filters(&t, &strings(&["README.md"])) {
        Err(HuskyError::TaskSkipped(m)) => assert_eq!(m, "Included file(s) not found"),
        other => panic!("unexpected {:?}", other),
    }
}

#[test]
fn filters_report_a_bad_exclude_glob() {
    let runner = HuskyTaskRunner;
    let mut t = task("build", None);
    t.exclude = Some(strings(&["{a,b"]));
    assert!(matches!(
        runner.check_task_filters(&t, &strings(&["a"])),
        Err(HuskyError::Globset(_))
    ));
}

#[test]
fn find_by_name_ignores_ascii_case_and_takes_the_first() {
    let tasks = sample_tasks();
    assert_eq!(find_task_by_name(&tasks, "CARGO-CHECK").unwrap(), 0);
    assert_eq!(find_task_by_name(&tasks, "cargo-test").unwrap(), 2);
}

#[test]
fn find_by_name_reports_a_missing_task() {
    let tasks = sample_tasks();
    assert!(matches!(
        find_task_by_name(&tasks, "cargo-doc"),
        Err(HuskyError::TaskNotFound)
    ));
    assert!(matches!(find_task_by_name(&[], "x"), Err(HuskyError::TaskNotFound)));
}

#[test]
fn group_selection_ignores_ascii_case_and_keeps_order() {
    let tasks = sample_tasks();
    assert_eq!(tasks_in_group(&tasks, "pre-commit"), vec![0, 1]);
    assert_eq!(tasks_in_group(&tasks, "PRE-PUSH"), vec![2, 4]);
    assert_eq!(tasks_in_group(&tasks, "post-merge"), Vec::<usize>::new());
}

fn run_args(name: Option<&str>, group: Option<&str>) -> RunArgs {
    RunArgs {
        name: name.map(|s| s.to_string()),
        group: group.map(|s| s.to_string()),
        args: None,
    }
}

fn drive(run: &mut TaskRun, results: Vec<Result<bool, HuskyError>>) -> (Vec<usize>, Vec<String>, Option<HuskyError>) {
    let mut ran = Vec::new();
    let mut skipped = Vec::new();
    let mut results = results.into_iter();
    while let Some(i) = run.next_task() {
        ran.push(i);
        match run.record(results.next().expect("a result per task")) {
            RunStep::Continue => {}
            RunStep::Skipped(m) => skipped.push(m),
            RunStep::Stop(e) => return (ran, skipped, Some(e)),
        }
    }
    (ran, skipped, None)
}

#[test]
fn plan_by_name_runs_the_first_match_only() {
    let tasks = sample_tasks();
    let mut run = plan_run(&tasks, &run_args(Some("cargo-CHECK"), Some("pre-push"))).unwrap();
    let (ran, _, err) = drive(&mut run, vec![Ok(true)]);
    assert_eq!(ran, vec![0]);
    assert!(err.is_none());
}

#[test]
fn plan_by_name_does_not_tolerate_a_skip() {
    let tasks = sample_tasks();
    let mut run = plan_run(&tasks, &run_args(Some("cargo-test"), None)).unwrap();
    let (ran, skipped, err) = drive(&mut run, vec![Err(HuskyError::TaskSkipped("why".to_string()))]);
    assert_eq!(ran, vec![2]);
    assert!(skipped.is_empty());
    assert!(matches!(err, Some(HuskyError::TaskSkipped(m)) if m == "why"));
}

#[test]
fn plan_by_unknown_name_fails() {
    let tasks = sample_tasks();
    assert!(matches!(
        plan_run(&tasks, &run_args(Some("nope"), None)),
        Err(HuskyError::TaskNotFound)
    ));
}

#[test]
fn plan_by_group_runs_the_group_in_order() {
    let tasks = sample_tasks();
    let mut run = plan_run(&tasks, &run_args(None, Some("pre-push"))).unwrap();
    let (ran, skipped, err) = drive(
        &mut run,
        vec![Err(HuskyError::TaskSkipped("Excluded file(s) found".to_string())), Ok(true)],
    );
    assert_eq!(ran, vec![2, 4]);
    assert_eq!(skipped, vec!["Excluded file(s) found".to_string()]);
    assert!(err.is_none());
}

#[test]
fn plan_of_an_empty_group_runs_nothing() {
    let tasks = sample_tasks();
    let mut run = plan_run(&tasks, &run_args(None, Some("post-merge"))).unwrap();
    assert_eq!(run.next_task(), None);
    let (ran, _, err) = drive(&mut run, vec![]);
    assert!(ran.is_empty());
    assert!(err.is_none());
}

#[test]
fn plan_without_filter_runs_everything_until_a_failure() {
    let tasks = sample_tasks();
    let mut run = plan_run(&tasks, &run_args(None, None)).unwrap();
    let (ran, _, err) = drive(&mut run, vec![Ok(true), Ok(true), Ok(false), Ok(true), Ok(true)]);
    assert_eq!(ran, vec![0, 1, 2]);
    assert!(matches!(err, Some(HuskyError::TaskFailed)));
    assert_eq!(run.next_task(), None);
}

#[test]
fn run_stops_on_an_error_other_than_a_skip() {
    let mut run = TaskRun::new(vec![3, 1, 2], true, Vec::new());
    let (ran, _, err) = drive(&mut run, vec![Ok(true), Err(HuskyError::InvalidTaskRunnerFile), Ok(true)]);
    assert_eq!(ran, vec![3, 1]);
    assert!(matches!(err, Some(HuskyError::InvalidTaskRunnerFile)));
}

#[test]
fn run_passes_every_task_that_succeeds() {
    let mut run = TaskRun::new(vec![1, 0], true, Vec::new());
    let (ran, skipped, err) = drive(&mut run, vec![Ok(true), Ok(true)]);
    assert_eq!(ran, vec![1, 0]);
    assert!(skipped.is_empty());
    assert!(err.is_none());
}

#[test]
fn hook_line_is_trimmed_with_a_newline() {
    assert_eq!(hook_command_line("  cargo husky run -g pre-commit \t"), Some("cargo husky run -g pre-commit\n".to_string()));
    assert_eq!(hook_command_line("echo hi"), Some("echo hi\n".to_string()));
}

#[test]
fn hook_line_of_a_blank_command_is_none() {
    assert_eq!(hook_command_line(""), None);
    assert_eq!(hook_command_line(" \n\t \u{3000}"), None);
}

#[test]
fn hook_line_ignores_surrounding_space() {
    let once = hook_command_line("  npm test ").unwrap();
    assert_eq!(hook_command_line(once.trim()), Some(once.clone()));
}

#[test]
fn task_list_lines_show_groups() {
    let list = TaskList {
        schema: "https://example.invalid/schema.json".to_string(),
        tasks: vec![task("cargo-check", Some("pre-commit")), task("cargo-fmt", None)],
    };
    let lines = task_list_lines(&list);
    let sep = "=".repeat(80);
    assert_eq!(lines.len(), 5);
    assert_eq!(lines[0], sep);
    assert_eq!(lines[1], "🚀 Husky Task List");
    assert_eq!(lines[2], sep);
    assert_eq!(lines[3], "📋 cargo-check 👥 pre-commit");
    assert_eq!(lines[4], "📋 cargo-fmt 👥 [Unspecified]");
}

#[test]
fn describe_task_without_group() {
    assert_eq!(describe_task(&task("lint", None)), "📋 lint 👥 [Unspecified]");
}

#[test]
fn task_header_frames_the_name() {
    let lines = task_header_lines("cargo-check");
    let sep = "=".repeat(80);
    assert_eq!(lines, vec![String::new(), sep.clone(), "🚀 Running 📋 cargo-check".to_string(), sep]);
}

#[test]
fn source_text_needs_an_existing_readable_file() {
    assert_eq!(TaskList::source_text(Ok(true), Some("{}".to_string())).unwrap(), "{}");
    assert!(matches!(
        TaskList::source_text(Ok(false), Some("{}".to_string())),
        Err(HuskyError::InvalidTaskRunnerFile)
    ));
    assert!(matches!(
        TaskList::source_text(Ok(true), None),
        Err(HuskyError::InvalidTaskRunnerFile)
    ));
    let io = std::io::Error::new(std::io::ErrorKind::Other, "denied");
    assert!(matches!(
        TaskList::source_text(Err(HuskyError::Io(io)), Some("{}".to_string())),
        Err(HuskyError::InvalidTaskRunnerFile)
    ));
}

#[test]
fn execute_mode_sets_the_owner_execute_bit() {
    assert_eq!(LocalFilesystem::execute_mode(0o644), 0o744);
    assert_eq!(LocalFilesystem::execute_mode(0o755), 0o755);
    assert_eq!(LocalFilesystem::execute_mode(0), 0o100);
}

#[test]
fn hooks_directory_defaults_to_husky() {
    assert_eq!(hooks_directory(None), ".husky");
    assert_eq!(hooks_directory(Some("hooks".to_string())), "hooks");
}

#[test]
fn install_args_default_directory() {
    assert_eq!(InstallArgs::default().directory, ".husky");
}

#[test]
fn set_args_default_command_is_empty() {
    let args = SetArgs::for_hook("pre-commit".to_string());
    assert_eq!(args.hook, "pre-commit");
    assert_eq!(args.command, "");
}

#[test]
fn errors_convert_from_their_sources() {
    let io = std::io::Error::new(std::io::ErrorKind::NotFound, "missing");
    assert!(matches!(HuskyError::from(io), HuskyError::Io(_)));
    let json = serde_json::from_str::<serde_json::Value>("{").unwrap_err();
    assert!(matches!(HuskyError::from(json), HuskyError::Serde(_)));
    let glob = globset::Glob::new("[").unwrap_err();
    assert!(matches!(HuskyError::from(glob), HuskyError::Globset(_)));
    let git = git2::Error::from_str("broken");
    assert!(matches!(HuskyError::from(git), HuskyError::Git(_)));
}

#[test]
fn custom_arguments_follow_the_task_arguments() {
    let mut tasks = sample_tasks();
    tasks[2].args = Some(strings(&["test", "--workspace"]));
    let mut args = run_args(None, Some("pre-push"));
    args.args = Some(strings(&["--", "--nocapture"]));
    let run = plan_run(&tasks, &args).unwrap();
    assert_eq!(run.command_arguments(&tasks[2]), strings(&["test", "--workspace", "--", "--nocapture"]));
    assert_eq!(run.command_arguments(&tasks[4]), strings(&["--", "--nocapture"]));
}

#[test]
fn without_custom_arguments_a_task_keeps_its_own() {
    let mut tasks = sample_tasks();
    tasks[0].args = Some(strings(&["check"]));
    let run = plan_run(&tasks, &run_args(Some("cargo-check"), None)).unwrap();
    assert_eq!(run.command_arguments(&tasks[0]), strings(&["check"]));
    assert_eq!(run.command_arguments(&tasks[3]), Vec::<String>::new());
}

#[test]
fn an_empty_include_list_skips_the_task() {
    let runner = HuskyTaskRunner;
    let mut t = task("build", None);
    t.include_globs = Some(Vec::new());
    match runner.check_task_filters(&t, &strings(&["a.rs"])) {
        Err(HuskyError::TaskSkipped(m)) => assert_eq!(m, "Included file(s) not found"),
        other => panic!("unexpected {:?}", other),
    }
}

#[test]
fn an_empty_exclude_list_lets_the_task_run() {
    let runner = HuskyTaskRunner;
    let mut t = task("build", None);
    t.exclude = Some(Vec::new());
    assert!(runner.check_task_filters(&t, &strings(&["a.rs"])).is_ok());
}

#[test]
fn should_run_is_true_when_one_glob_of_several_matches() {
    let runner = HuskyTaskRunner;
    let res = runner.should_run(&strings(&["*.toml", "docs/**"]), &strings(&["src/lib.rs", "docs/guide.md"]));
    assert!(matches!(res, Ok(true)));
}

#[test]
fn status_lines_name_the_task() {
    assert_eq!(task_succeeded_line("fmt"), "✔️ 📋 fmt succeeded");
    assert_eq!(task_failed_line("fmt"), "🚫 📋 fmt failed");
    assert_eq!(task_skipped_line("fmt", "Excluded file(s) found"), "↪️ 📋 fmt skipped: 'Excluded file(s) found'");
    assert_eq!(task_not_found_line("fmt"), "⚠️ 📋 fmt was not found");
    assert_eq!(group_preparing_line("pre-commit"), "⌛ Preparing to run tasks in group 👥 pre-commit");
    assert_eq!(group_not_found_line("pre-commit"), "⚠️ 👥 pre-commit was not found");
}

#[test]
fn staged_statuses_are_index_changes() {
    assert!(is_staged_status(git2::Status::INDEX_NEW.bits()));
    assert!(is_staged_status((git2::Status::INDEX_MODIFIED | git2::Status::WT_MODIFIED).bits()));
    assert!(is_staged_status(git2::Status::INDEX_TYPECHANGE.bits()));
    assert!(!is_staged_status(git2::Status::WT_MODIFIED.bits()));
    assert!(!is_staged_status(git2::Status::WT_NEW.bits()));
    assert!(!is_staged_status(git2::Status::CURRENT.bits()));
}

#[test]
fn staged_paths_keep_index_changes_in_order() {
    let entries = vec![
        (git2::Status::INDEX_NEW.bits(), "a.rs".to_string()),
        (git2::Status::WT_MODIFIED.bits(), "b.rs".to_string()),
        ((git2::Status::INDEX_MODIFIED | git2::Status::WT_MODIFIED).bits(), "c.rs".to_string()),
        (git2::Status::WT_NEW.bits(), "d.rs".to_string()),
    ];
    assert_eq!(staged_paths(&entries), strings(&["a.rs", "c.rs"]));
    assert_eq!(staged_paths(&[]), Vec::<String>::new());
}

#[test]
fn a_task_file_that_does_not_parse_is_invalid() {
    let bad = serde_json::from_str::<serde_json::Value>("{").unwrap_err();
    assert!(matches!(TaskList::from_parsed(Err(bad)), Err(HuskyError::InvalidTaskRunnerFile)));
    let list = TaskList { schema: "s".to_string(), tasks: vec![task("t", None)] };
    let parsed = TaskList::from_parsed(Ok(list)).unwrap();
    assert_eq!(parsed.schema, "s");
    assert_eq!(parsed.tasks.len(), 1);
    assert_eq!(parsed.tasks[0].name, "t");
}
