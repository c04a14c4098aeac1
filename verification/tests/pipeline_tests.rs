use rdkafka_src::command::Cmd;
use rdkafka_src::errors::BuildError;
use rdkafka_src::pipeline::{Action, Event, Step};
use rdkafka_src::Build;

fn ok(tokens: &[&str]) -> Event {
    Event::Succeeded {
        output: tokens.iter().map(|t| t.to_string()).collect(),
    }
}

fn argv(cmd: &Cmd) -> Vec<String> {
    let mut v = vec![cmd.program.clone()];
    v.extend(cmd.args.iter().cloned());
    v
}

/// Drives a whole build in which every external action succeeds and the
/// tag listing returns `tags`, collecting the actions the pipeline asks
/// for.  The driver mirrors what a real caller does: perform the action,
/// report success, stop at the first outcome.
fn drive(b: &Build, tags: &[&str], detected: usize) -> Vec<Action> {
    let mut actions = Vec::new();
    let (mut step, mut action) = b.start();
    loop {
        actions.push(action.clone());
        match &action {
            Action::Finish { .. } | Action::Fail { .. } => return actions,
            _ => {}
        }
        assert_ne!(step, Step::Finished, "a pending action implies an unfinished pipeline");
        let listing = matches!(&action, Action::Run { cmd } if cmd.args.first().map(|a| a.as_str() == "tag").unwrap_or(false));
        let event = if listing { ok(tags) } else { ok(&[]) };
        let (next, a) = b.step(step, event, detected);
        step = next;
        action = a;
    }
}

#[test]
fn successful_build_runs_the_full_sequence() {
    let b = Build::new("/tmp/out", "2.6").source_dir("/vendor/librdkafka".to_string());
    let tags = [
        "v2.6.0", "v2.6.1", "v2.6.2", "v2.6.3", "v2.6.4", "v2.6.5", "v2.6.6", "v2.6.7", "v2.6.8",
    ];
    let actions = drive(&b, &tags, 8);

    assert_eq!(actions.len(), 10);
    assert_eq!(
        actions[0],
        Action::ResetDir { path: "/tmp/out/librdkafka/2.6".to_string() }
    );
    assert_eq!(
        actions[1],
        Action::ResetDir { path: "/tmp/out/librdkafka-build/2.6".to_string() }
    );
    assert_eq!(
        actions[2],
        Action::StageTree {
            src: "/vendor/librdkafka".to_string(),
            dst: "/tmp/out/librdkafka-build/2.6".to_string(),
        }
    );
    match &actions[3] {
        Action::Run { cmd } => {
            assert_eq!(argv(cmd), ["git", "tag", "-l", "v2.6.*"]);
            assert_eq!(cmd.dir, "/tmp/out/librdkafka-build/2.6");
        }
        other => panic!("expected the tag listing, got {:?}", other),
    }
    match &actions[4] {
        Action::Run { cmd } => assert_eq!(argv(cmd), ["git", "checkout", "v2.6.8"]),
        other => panic!("expected the checkout, got {:?}", other),
    }
    match &actions[5] {
        Action::Run { cmd } => {
            assert_eq!(
                argv(cmd),
                [
                    "./configure",
                    "--prefix",
                    "/tmp/out/librdkafka/2.6",
                    "--disable-zlib",
                    "--disable-zstd",
                    "--disable-ssl",
                    "--disable-gssapi",
                    "--disable-sasl",
                    "--disable-curl",
                    "--disable-lz4-ext",
                    "--disable-lz4",
                    "--disable-regex-ext",
                ]
            );
        }
        other => panic!("expected configure, got {:?}", other),
    }
    match &actions[6] {
        // Detected parallelism 8 leaves two cores of headroom.
        Action::Run { cmd } => assert_eq!(argv(cmd), ["make", "-j", "6"]),
        other => panic!("expected make, got {:?}", other),
    }
    match &actions[7] {
        Action::Run { cmd } => assert_eq!(argv(cmd), ["make", "install"]),
        other => panic!("expected make install, got {:?}", other),
    }
    assert_eq!(
        actions[8],
        Action::RemoveDir { path: "/tmp/out/librdkafka-build/2.6".to_string() }
    );
    match &actions[9] {
        Action::Finish { artifacts } => {
            assert_eq!(artifacts.install_dir, "/tmp/out/librdkafka/2.6");
            assert_eq!(artifacts.include_dir, "/tmp/out/librdkafka/2.6/include");
            assert_eq!(artifacts.lib_dir, "/tmp/out/librdkafka/2.6/lib");
        }
        other => panic!("expected the artifacts, got {:?}", other),
    }
}

#[test]
fn job_override_takes_precedence_over_detection() {
    let b = Build::new("/tmp/out", "2.6").num_jobs(3);
    let actions = drive(&b, &["v2.6.0"], 64);
    match &actions[6] {
        Action::Run { cmd } => assert_eq!(argv(cmd), ["make", "-j", "3"]),
        other => panic!("expected make, got {:?}", other),
    }
}

#[test]
fn low_parallelism_still_compiles_with_one_job() {
    let b = Build::new("/tmp/out", "2.6");
    let actions = drive(&b, &["v2.6.0"], 2);
    match &actions[6] {
        Action::Run { cmd } => assert_eq!(argv(cmd), ["make", "-j", "1"]),
        other => panic!("expected make, got {:?}", other),
    }
}

#[test]
fn version_not_found_issues_no_build_commands() {
    let b = Build::new("/tmp/out", "2.6");
    let actions = drive(&b, &["v2.5.0"], 8);
    // Resets, staging and the tag listing happen; then the pipeline fails
    // without any checkout, configure, compile or install command.
    assert_eq!(actions.len(), 5);
    assert!(matches!(&actions[3], Action::Run { .. }));
    match &actions[4] {
        Action::Fail { error: BuildError::VersionNotFound { version } } => {
            assert_eq!(version.as_str(), "2.6");
        }
        other => panic!("expected VersionNotFound, got {:?}", other),
    }
}

#[test]
fn failed_configure_surfaces_its_diagnostics() {
    let b = Build::new("/tmp/out", "2.6");
    let (s1, _) = b.start();
    let (s2, _) = b.step(s1, ok(&[]), 4); // install dir reset
    let (s3, _) = b.step(s2, ok(&[]), 4); // build dir reset
    let (s4, _) = b.step(s3, ok(&[]), 4); // staged
    let (s5, _) = b.step(s4, ok(&["v2.6.0"]), 4); // tags listed
    let (s6, _) = b.step(s5, ok(&[]), 4); // checked out
    let failure = Event::Failed {
        diagnostics: "missing compiler".to_string(),
    };
    let (s7, action) = b.step(s6, failure, 4);
    assert_eq!(s7, Step::Finished);
    match action {
        Action::Fail { error: BuildError::ConfigureFailed { diagnostics } } => {
            assert_eq!(diagnostics, "missing compiler");
        }
        other => panic!("expected ConfigureFailed, got {:?}", other),
    }
}

#[test]
fn unspawnable_process_is_an_execution_error() {
    let b = Build::new("/tmp/out", "2.6");
    let (s1, _) = b.start();
    let (s2, _) = b.step(s1, ok(&[]), 4);
    let (s3, _) = b.step(s2, ok(&[]), 4);
    let (s4, _) = b.step(s3, ok(&[]), 4); // staged; the tag listing is next
    let spawn = Event::SpawnFailed {
        diagnostics: "git: command not found".to_string(),
    };
    let (s5, action) = b.step(s4, spawn, 4);
    assert_eq!(s5, Step::Finished);
    assert!(matches!(
        action,
        Action::Fail { error: BuildError::ExecutionError { .. } }
    ));
}

#[test]
fn workspace_reset_failure_stops_the_build() {
    let b = Build::new("/tmp/out", "2.6");
    let (s1, _) = b.start();
    let failure = Event::Failed {
        diagnostics: "permission denied".to_string(),
    };
    let (s2, action) = b.step(s1, failure, 4);
    assert_eq!(s2, Step::Finished);
    assert!(matches!(
        action,
        Action::Fail { error: BuildError::WorkspaceError { .. } }
    ));
}

#[test]
fn each_tool_failure_maps_to_its_stage_error() {
    let b = Build::new("/tmp/out", "2.6");
    let fail = |d: &str| Event::Failed {
        diagnostics: d.to_string(),
    };
    let (s1, _) = b.start(); // install dir reset pending
    let (s2, _) = b.step(s1, ok(&[]), 4); // build dir reset pending
    let (s3, _) = b.step(s2, ok(&[]), 4); // staging pending

    let (_, a) = b.step(s3, fail("/vendor/dev/socket"), 4);
    match a {
        Action::Fail { error: BuildError::StagingError { path } } => {
            assert_eq!(path, "/vendor/dev/socket");
        }
        other => panic!("expected StagingError, got {:?}", other),
    }

    let (s4, _) = b.step(s3, ok(&[]), 4); // tag listing pending
    let (_, a) = b.step(s4, fail("not a git repository"), 4);
    assert!(matches!(
        a,
        Action::Fail { error: BuildError::CheckoutError { .. } }
    ));

    let (s5, _) = b.step(s4, ok(&["v2.6.0"]), 4); // checkout pending
    let (_, a) = b.step(s5, fail("tag rejected"), 4);
    assert!(matches!(
        a,
        Action::Fail { error: BuildError::CheckoutError { .. } }
    ));

    let (s6, _) = b.step(s5, ok(&[]), 4); // configure pending
    let (s7, _) = b.step(s6, ok(&[]), 4); // compile pending
    let (_, a) = b.step(s7, fail("cc: internal error"), 4);
    assert!(matches!(
        a,
        Action::Fail { error: BuildError::CompileFailed { .. } }
    ));

    let (s8, _) = b.step(s7, ok(&[]), 4); // install pending
    let (_, a) = b.step(s8, fail("no space left"), 4);
    assert!(matches!(
        a,
        Action::Fail { error: BuildError::InstallFailed { .. } }
    ));

    let (s9, _) = b.step(s8, ok(&[]), 4); // teardown pending
    let (_, a) = b.step(s9, fail("directory busy"), 4);
    assert!(matches!(
        a,
        Action::Fail { error: BuildError::WorkspaceError { .. } }
    ));
}

#[test]
fn empty_argv_is_rejected_as_empty_command() {
    let r = Cmd::from_argv(Vec::new(), "/tmp".to_string());
    assert!(matches!(r, Err(BuildError::EmptyCommand)));
    let r = Cmd::from_argv(
        vec!["git".to_string(), "status".to_string()],
        "/tmp".to_string(),
    );
    let cmd = r.unwrap();
    assert_eq!(cmd.program, "git");
    assert_eq!(cmd.args, vec!["status".to_string()]);
    assert_eq!(cmd.dir, "/tmp");
}
