use rushget::config::ConfigLoader;
use rushget::config::DockerMirrorRule;
use rushget::config::DockerMirrorRuleset;
use rushget::config::RushGetConfig;
use rushget::config::RushGetDockerConfig;
use rushget::config::RushGetGithubConfig;
use rushget::docker::DockerCheckTask;
use rushget::docker::DockerExec;
use rushget::docker::DockerPullTask;
use rushget::docker::PullAction;
use rushget::docker::StepOutcome;
use rushget::error::DockermirError;

fn unmatched_config() -> RushGetConfig {
    RushGetConfig {
        name: String::from("t"),
        version: String::from("1"),
        description: String::from("d"),
        github: RushGetGithubConfig { mirrors: Vec::new() },
        docker: RushGetDockerConfig {
            ruleset: vec![DockerMirrorRuleset {
                name: String::from("g"),
                mirror_host: String::from("mirror.example.com"),
                mirror_namespace: String::from("ns"),
                rules: vec![DockerMirrorRule {
                    name: String::from("unrelated"),
                    match_regex: String::from("^docker\\.io/(.+)$"),
                    replace_template: String::from("${mirror_host}/${1}"),
                }],
            }],
        },
    }
}

fn action_name(a: &PullAction) -> &'static str {
    match a {
        PullAction::Fetch { .. } => "fetch",
        PullAction::Relabel { .. } => "relabel",
        PullAction::Cleanup { .. } => "cleanup",
    }
}

#[test]
fn successful_pull_runs_fetch_relabel_cleanup_in_order() {
    let config = ConfigLoader::default().load_default_config();
    let image = "mcr.microsoft.com/dotnet/sdk:6.0-alpine-arm64v8";
    let task = DockerPullTask::new(config, String::from(image));
    let mut run = task.start().unwrap();
    let mut recorded: Vec<&'static str> = Vec::new();
    while !run.finished() {
        let action = run.pending_action().unwrap();
        recorded.push(action_name(&action));
        if let PullAction::Fetch { mirror_image } = &action {
            assert_eq!(
                mirror_image,
                "registry.cn-hangzhou.aliyuncs.com/newbe36524/sdk:6.0-alpine-arm64v8"
            );
        }
        if let PullAction::Relabel { source_image, .. } = &action {
            assert_eq!(source_image, image);
        }
        run.step(StepOutcome::Success);
    }
    assert_eq!(recorded, vec!["fetch", "relabel", "cleanup"]);
    assert!(run.into_result().is_ok());
}

#[test]
fn fetch_failure_stops_the_run_before_relabel_and_cleanup() {
    let config = ConfigLoader::default().load_default_config();
    let image = "mcr.microsoft.com/dotnet/sdk:6.0-alpine-arm64v8";
    let task = DockerPullTask::new(config, String::from(image));
    let mut run = task.start().unwrap();
    let mut recorded: Vec<&'static str> = Vec::new();
    recorded.push(action_name(&run.pending_action().unwrap()));
    run.step(StepOutcome::Failure { error: String::from("network down") });
    assert!(run.finished());
    assert!(run.pending_action().is_none());
    assert_eq!(recorded, vec!["fetch"]);
    match run.into_result().unwrap_err() {
        DockermirError::FetchError { source_image, mirror_image, error } => {
            assert_eq!(source_image, image);
            assert_eq!(
                mirror_image,
                "registry.cn-hangzhou.aliyuncs.com/newbe36524/sdk:6.0-alpine-arm64v8"
            );
            assert_eq!(error, "network down");
        },
        _ => panic!("expected a fetch error"),
    }
}

#[test]
fn relabel_failure_leaves_mirror_artifact_in_place() {
    let config = ConfigLoader::default().load_default_config();
    let image = "mcr.microsoft.com/java/jdk:11-zulu-ubuntu-19.10";
    let task = DockerPullTask::new(config, String::from(image));
    let mut run = task.start().unwrap();
    run.step(StepOutcome::Success);
    run.step(StepOutcome::Failure { error: String::from("tag refused") });
    assert!(run.finished());
    assert!(run.pending_action().is_none());
    assert!(matches!(
        run.into_result().unwrap_err(),
        DockermirError::RelabelError { .. }
    ));
}

#[test]
fn cleanup_failure_is_surfaced_distinctly() {
    let config = ConfigLoader::default().load_default_config();
    let image = "mcr.microsoft.com/windows:10.0.19042.1889-amd64";
    let task = DockerPullTask::new(config, String::from(image));
    let mut run = task.start().unwrap();
    run.step(StepOutcome::Success);
    run.step(StepOutcome::Success);
    run.step(StepOutcome::Failure { error: String::from("still in use") });
    match run.into_result().unwrap_err() {
        DockermirError::CleanupError { image: cleaned, error } => {
            assert_eq!(
                cleaned,
                "registry.cn-hangzhou.aliyuncs.com/newbe36524/windows:10.0.19042.1889-amd64"
            );
            assert_eq!(error, "still in use");
        },
        _ => panic!("expected a cleanup error"),
    }
}

#[test]
fn unmatched_pull_aborts_with_no_external_step() {
    let task = DockerPullTask::new(unmatched_config(), String::from("img/thing:1"));
    let result = task.start();
    assert!(matches!(result, Err(DockermirError::MismatchAllRule)));
}

#[test]
fn check_task_reports_match_and_no_match_as_success() {
    let config = ConfigLoader::default().load_default_config();
    let matched = DockerCheckTask::new(
        config,
        String::from("mcr.microsoft.com/dotnet/sdk:6.0-alpine-arm64v8"),
    );
    assert!(matched.outcome().is_ok());
    assert!(matched.run().is_ok());

    let unmatched = DockerCheckTask::new(unmatched_config(), String::from("img/thing:1"));
    assert!(unmatched.outcome().is_err());
    assert!(unmatched.run().is_ok());
}

#[test]
fn planned_commands_follow_the_runtime_grammar() {
    let exec = DockerExec::new();
    let fetch = exec.command_for(&PullAction::Fetch { mirror_image: String::from("m/i:1") });
    assert_eq!(fetch, vec![String::from("pull"), String::from("m/i:1")]);
    let relabel = exec.command_for(&PullAction::Relabel {
        mirror_image: String::from("m/i:1"),
        source_image: String::from("s/i:1"),
    });
    assert_eq!(
        relabel,
        vec![String::from("tag"), String::from("m/i:1"), String::from("s/i:1")]
    );
    let cleanup = exec.command_for(&PullAction::Cleanup { mirror_image: String::from("m/i:1") });
    assert_eq!(cleanup, vec![String::from("rmi"), String::from("m/i:1")]);
}
