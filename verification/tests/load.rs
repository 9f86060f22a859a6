use rushget::config::ConfigLoader;
use rushget::config::LoadAction;
use rushget::config::LoadConfigOptions;
use rushget::config::LoadEvent;
use rushget::error::DockermirError;

fn options(remote: Option<&str>, local: Option<&str>) -> LoadConfigOptions {
    LoadConfigOptions {
        remote_config_url: remote.map(String::from),
        local_config_path: local.map(String::from),
    }
}

#[test]
fn remote_tier_preferred_when_available() {
    let loader = ConfigLoader::default();
    let mut load = loader.begin_load(options(Some("https://example.com/rushget.yaml"), Some("mine.yaml")));
    match load.pending_action() {
        Some(LoadAction::FetchRemote { url }) => {
            assert_eq!(url, "https://example.com/rushget.yaml")
        },
        other => panic!("expected a remote fetch, got {:?}", other.is_some()),
    }
    let mut remote_doc = loader.load_default_config();
    remote_doc.name = String::from("remote");
    load.step(LoadEvent::RemoteDocument(remote_doc));
    assert!(load.finished());
    let doc = load.into_result().unwrap();
    assert_eq!(doc.name, "remote");
}

#[test]
fn remote_failure_falls_to_requested_file() {
    let loader = ConfigLoader::default();
    let mut load = loader.begin_load(options(Some("https://example.com/c.yaml"), Some("mine.yaml")));
    load.step(LoadEvent::RemoteFailed);
    match load.pending_action() {
        Some(LoadAction::ReadLocal { path }) => assert_eq!(path, "mine.yaml"),
        _ => panic!("expected the requested local file next"),
    }
    let mut local_doc = loader.load_default_config();
    local_doc.name = String::from("local");
    load.step(LoadEvent::LocalDocument(local_doc));
    let doc = load.into_result().unwrap();
    assert_eq!(doc.name, "local");
}

#[test]
fn missing_requested_file_retries_default_path_once() {
    let loader = ConfigLoader::default();
    let mut load = loader.begin_load(options(None, Some("absent.yaml")));
    match load.pending_action() {
        Some(LoadAction::ReadLocal { path }) => assert_eq!(path, "absent.yaml"),
        _ => panic!("expected the requested local file first"),
    }
    load.step(LoadEvent::LocalMissing);
    match load.pending_action() {
        Some(LoadAction::ReadLocal { path }) => assert_eq!(path, "rushget.yaml"),
        _ => panic!("expected the fixed default path next"),
    }
    load.step(LoadEvent::LocalMissing);
    assert!(matches!(load.pending_action(), Some(LoadAction::ParseEmbedded)));
    load.step(LoadEvent::EmbeddedDocument(loader.load_default_config()));
    let doc = load.into_result().unwrap();
    assert_eq!(doc.name, "rushget");
}

#[test]
fn unparsable_local_file_falls_to_embedded_default() {
    let loader = ConfigLoader::default();
    let mut load = loader.begin_load(options(None, Some("broken.yaml")));
    load.step(LoadEvent::LocalUnparsable);
    assert!(matches!(load.pending_action(), Some(LoadAction::ParseEmbedded)));
}

#[test]
fn no_options_starts_at_default_path() {
    let loader = ConfigLoader::default();
    let load = loader.begin_load(LoadConfigOptions::default());
    match load.pending_action() {
        Some(LoadAction::ReadLocal { path }) => assert_eq!(path, "rushget.yaml"),
        _ => panic!("expected the fixed default path"),
    }
}

#[test]
fn corrupt_embedded_default_is_the_only_hard_failure() {
    let loader = ConfigLoader::default();
    let mut load = loader.begin_load(LoadConfigOptions::default());
    load.step(LoadEvent::LocalMissing);
    load.step(LoadEvent::EmbeddedUnparsable);
    assert!(load.finished());
    assert_eq!(load.into_result().unwrap_err(), DockermirError::DefaultCorrupt);
}

#[test]
fn all_tiers_available_prefers_remote_then_local_then_default() {
    let loader = ConfigLoader::default();

    // Remote answers: one action, the remote document wins.
    let mut load = loader.begin_load(options(Some("https://example.com/c.yaml"), Some("mine.yaml")));
    let mut actions: usize = 0;
    while !load.finished() {
        actions += 1;
        match load.pending_action() {
            Some(LoadAction::FetchRemote { .. }) => {
                let mut d = loader.load_default_config();
                d.name = String::from("remote");
                load.step(LoadEvent::RemoteDocument(d));
            },
            Some(LoadAction::ReadLocal { .. }) => {
                let mut d = loader.load_default_config();
                d.name = String::from("local");
                load.step(LoadEvent::LocalDocument(d));
            },
            Some(LoadAction::ParseEmbedded) => {
                load.step(LoadEvent::EmbeddedDocument(loader.load_default_config()));
            },
            None => unreachable!(),
        }
    }
    assert_eq!(actions, 1);
    assert_eq!(load.into_result().unwrap().name, "remote");

    // Remote down: the local document wins; the embedded default never errs.
    let mut load = loader.begin_load(options(Some("https://example.com/c.yaml"), Some("mine.yaml")));
    load.step(LoadEvent::RemoteFailed);
    let mut d = loader.load_default_config();
    d.name = String::from("local");
    load.step(LoadEvent::LocalDocument(d));
    assert_eq!(load.into_result().unwrap().name, "local");
}
