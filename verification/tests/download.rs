use rushget::config::ConfigLoader;
use rushget::config::GithubMirror;
use rushget::config::RushGetConfig;
use rushget::config::RushGetDockerConfig;
use rushget::config::RushGetGithubConfig;
use rushget::error::DockermirError;
use rushget::github::DownloadAction;
use rushget::github::DownloadEvent;
use rushget::github::GithubReleaseTask;

fn config_with_mirrors(templates: Vec<(&str, &str)>) -> RushGetConfig {
    RushGetConfig {
        name: String::from("t"),
        version: String::from("1"),
        description: String::from("d"),
        github: RushGetGithubConfig {
            mirrors: templates
                .into_iter()
                .map(|(name, template)| GithubMirror {
                    name: String::from(name),
                    replace_template: String::from(template),
                })
                .collect(),
        },
        docker: RushGetDockerConfig { ruleset: Vec::new() },
    }
}

const RELEASE_URL: &str =
    "https://github.com/Amazing-Favorites/Amazing-Favorites/archive/refs/tags/v0.8.0.zip";

#[test]
fn download_success() {
    let config = ConfigLoader::default().load_default_config();
    let task = GithubReleaseTask::new(config, String::from(RELEASE_URL));
    let mut run = task.start();
    match run.pending_action().unwrap() {
        DownloadAction::Get { url } => {
            assert_eq!(url, format!("https://ghproxy.com/{}", RELEASE_URL));
        },
        _ => panic!("expected a GET first"),
    }
    run.step(DownloadEvent::GetSucceeded);
    match run.pending_action().unwrap() {
        DownloadAction::Save { file_name } => assert_eq!(file_name, "v0.8.0.zip"),
        _ => panic!("expected the save next"),
    }
    run.step(DownloadEvent::SaveSucceeded);
    assert!(run.into_result().is_ok());
}

#[test]
fn download_failed() {
    let config = config_with_mirrors(vec![(
        "error-mirror",
        "https://error.example.com/${release_url}",
    )]);
    let task = GithubReleaseTask::new(config, String::from(RELEASE_URL));
    let mut run = task.start();
    run.step(DownloadEvent::GetFailed);
    assert!(run.finished());
    match run.into_result().unwrap_err() {
        DockermirError::DownloadExhausted { url, .. } => assert_eq!(url, RELEASE_URL),
        _ => panic!("expected the aggregate download failure"),
    }
}

#[test]
fn second_of_three_mirrors_answers_after_exactly_two_attempts() {
    let config = config_with_mirrors(vec![
        ("one", "https://one.example.com/${release_url}"),
        ("two", "https://two.example.com/${release_url}"),
        ("three", "https://three.example.com/${release_url}"),
    ]);
    let task = GithubReleaseTask::new(config, String::from("https://host/r/v1.zip"));
    let mut run = task.start();
    let mut attempted: Vec<String> = Vec::new();
    let outcomes = [false, true, false];
    let mut i: usize = 0;
    while !run.finished() {
        match run.pending_action().unwrap() {
            DownloadAction::Get { url } => {
                attempted.push(url);
                run.step(if outcomes[i] {
                    DownloadEvent::GetSucceeded
                } else {
                    DownloadEvent::GetFailed
                });
                i += 1;
            },
            DownloadAction::Save { .. } => {
                run.step(DownloadEvent::SaveSucceeded);
            },
        }
    }
    assert_eq!(
        attempted,
        vec![
            String::from("https://one.example.com/https://host/r/v1.zip"),
            String::from("https://two.example.com/https://host/r/v1.zip"),
        ]
    );
    assert!(run.into_result().is_ok());
}

#[test]
fn every_mirror_failing_exhausts_the_run() {
    let config = config_with_mirrors(vec![
        ("one", "https://one.example.com/${release_url}"),
        ("two", "https://two.example.com/${release_url}"),
    ]);
    let task = GithubReleaseTask::new(config, String::from("https://host/r/v1.zip"));
    let mut run = task.start();
    let mut attempts: usize = 0;
    while !run.finished() {
        attempts += 1;
        run.step(DownloadEvent::GetFailed);
    }
    assert_eq!(attempts, 2);
    assert!(matches!(
        run.into_result().unwrap_err(),
        DockermirError::DownloadExhausted { .. }
    ));
}

#[test]
fn save_failure_carries_its_cause() {
    let config = config_with_mirrors(vec![("one", "${release_url}")]);
    let task = GithubReleaseTask::new(config, String::from("https://host/r/v1.zip"));
    let mut run = task.start();
    run.step(DownloadEvent::GetSucceeded);
    run.step(DownloadEvent::SaveFailed { error: String::from("Failed to create file: v1.zip") });
    match run.into_result().unwrap_err() {
        DockermirError::DownloadExhausted { error, .. } => {
            assert_eq!(error, "Failed to create file: v1.zip");
        },
        _ => panic!("expected the download failure"),
    }
}

#[test]
fn no_mirrors_is_exhausted_from_the_start() {
    let config = config_with_mirrors(Vec::new());
    let task = GithubReleaseTask::new(config, String::from("https://host/r/v1.zip"));
    let run = task.start();
    assert!(run.finished());
    assert!(run.into_result().is_err());
}
