use rushget::config::ConfigLoader;
use rushget::config::DockerMirrorRule;
use rushget::config::DockerMirrorRuleset;
use rushget::config::RushGetConfig;
use rushget::config::RushGetDockerConfig;
use rushget::config::RushGetGithubConfig;
use rushget::error::DockermirError;
use rushget::registry::MirrorRegistry;

fn rule(name: &str, match_regex: &str, replace_template: &str) -> DockerMirrorRule {
    DockerMirrorRule {
        name: String::from(name),
        match_regex: String::from(match_regex),
        replace_template: String::from(replace_template),
    }
}

fn config_with_rules(rules: Vec<DockerMirrorRule>) -> RushGetConfig {
    RushGetConfig {
        name: String::from("test"),
        version: String::from("1"),
        description: String::from("test rules"),
        github: RushGetGithubConfig { mirrors: Vec::new() },
        docker: RushGetDockerConfig {
            ruleset: vec![DockerMirrorRuleset {
                name: String::from("group"),
                mirror_host: String::from("mirror.example.com"),
                mirror_namespace: String::from("ns"),
                rules,
            }],
        },
    }
}

#[test]
fn map_success() {
    let cases = [
        (
            "mcr.microsoft.com/dotnet/runtime-deps:6.0-alpine-arm64v8",
            "registry.cn-hangzhou.aliyuncs.com/newbe36524/runtime-deps:6.0-alpine-arm64v8",
        ),
        (
            "mcr.microsoft.com/dotnet/runtime:6.0-alpine-arm64v8",
            "registry.cn-hangzhou.aliyuncs.com/newbe36524/runtime:6.0-alpine-arm64v8",
        ),
        (
            "mcr.microsoft.com/dotnet/sdk:6.0-alpine-arm64v8",
            "registry.cn-hangzhou.aliyuncs.com/newbe36524/sdk:6.0-alpine-arm64v8",
        ),
        (
            "mcr.microsoft.com/dotnet/aspnet:7.0-bullseye-slim",
            "registry.cn-hangzhou.aliyuncs.com/newbe36524/aspnet:7.0-bullseye-slim",
        ),
        (
            "mcr.microsoft.com/mssql/server:2017-CU12-ubuntu",
            "registry.cn-hangzhou.aliyuncs.com/newbe36524/server:2017-CU12-ubuntu",
        ),
        (
            "mcr.microsoft.com/java/jdk:11-zulu-ubuntu-19.10",
            "registry.cn-hangzhou.aliyuncs.com/newbe36524/jdk:11-zulu-ubuntu-19.10",
        ),
        (
            "mcr.microsoft.com/java/jre:11u10-zulu-ubuntu-18.04",
            "registry.cn-hangzhou.aliyuncs.com/newbe36524/jre:11u10-zulu-ubuntu-18.04",
        ),
        (
            "mcr.microsoft.com/windows:10.0.19042.1889-amd64",
            "registry.cn-hangzhou.aliyuncs.com/newbe36524/windows:10.0.19042.1889-amd64",
        ),
        (
            "mcr.microsoft.com/vscode/devcontainers/base:0-alpine-3.11",
            "registry.cn-hangzhou.aliyuncs.com/newbe36524/vscode_base:0-alpine-3.11",
        ),
        (
            "mcr.microsoft.com/vscode/devcontainers/rust:0",
            "registry.cn-hangzhou.aliyuncs.com/newbe36524/vscode_rust:0",
        ),
    ];
    let loader = ConfigLoader::default();
    for (source, expected) in cases.iter() {
        let config = loader.load_default_config();
        let result = MirrorRegistry::map_mirror_by_configuration(source, &config);
        assert!(result.is_ok(), "failed to map image: {}", source);
        assert_eq!(result.unwrap().mirror_image, *expected);
    }
}

#[test]
fn map_failed() {
    let config = config_with_rules(vec![rule(
        "unrelated",
        "^docker\\.io/library/([^:/]+):(.+)$",
        "${mirror_host}/${mirror_namespace}/${1}:${2}",
    )]);
    let source = "mcr.microsoft.com/java/jdk:15u2-zulu-ubuntu-18.04";
    let result = MirrorRegistry::map_mirror_by_configuration(source, &config);
    assert!(result.is_err());
    assert_eq!(result.unwrap_err(), DockermirError::MismatchAllRule);
}

#[test]
fn resolution_reports_rule_and_group() {
    let loader = ConfigLoader::default();
    let config = loader.load_default_config();
    let source = "mcr.microsoft.com/dotnet/sdk:6.0-alpine-arm64v8";
    let data = MirrorRegistry::map_mirror_by_configuration(source, &config).unwrap();
    assert_eq!(data.source_image, source);
    assert_eq!(data.hit_rule.name, "mcr-dotnet");
    assert_eq!(data.hit_ruleset.name, "mcr");
    assert_eq!(data.hit_ruleset.mirror_host, "registry.cn-hangzhou.aliyuncs.com");
    assert_eq!(data.hit_ruleset.mirror_namespace, "newbe36524");
}

#[test]
fn first_matching_rule_wins() {
    let config = config_with_rules(vec![
        rule("miss", "^never/(.+)$", "${mirror_host}/${1}"),
        rule("first", "^img/(.+)$", "${mirror_host}/first/${1}"),
        rule("second", "^img/(.+)$", "${mirror_host}/second/${1}"),
    ]);
    let data = MirrorRegistry::map_mirror_by_configuration("img/thing", &config).unwrap();
    assert_eq!(data.hit_rule.name, "first");
    assert_eq!(data.mirror_image, "mirror.example.com/first/thing");
}

#[test]
fn first_match_across_groups_in_document_order() {
    let mut config = config_with_rules(vec![rule(
        "group-one-rule",
        "^img/(.+)$",
        "${mirror_host}/one/${1}",
    )]);
    config.docker.ruleset.push(DockerMirrorRuleset {
        name: String::from("later-group"),
        mirror_host: String::from("other.example.com"),
        mirror_namespace: String::from("ns2"),
        rules: vec![rule("group-two-rule", "^img/(.+)$", "${mirror_host}/two/${1}")],
    });
    let data = MirrorRegistry::map_mirror_by_configuration("img/thing", &config).unwrap();
    assert_eq!(data.hit_rule.name, "group-one-rule");
    assert_eq!(data.hit_ruleset.name, "group");
    assert_eq!(data.mirror_image, "mirror.example.com/one/thing");
}

#[test]
fn invalid_pattern_names_the_rule() {
    let config = config_with_rules(vec![
        rule("fine-but-misses", "^never/(.+)$", "${mirror_host}/${1}"),
        rule("broken", "foo(bar", "${mirror_host}/${1}"),
        rule("never-reached", "^img/(.+)$", "${mirror_host}/${1}"),
    ]);
    let result = MirrorRegistry::map_mirror_by_configuration("img/thing", &config);
    assert_eq!(
        result.unwrap_err(),
        DockermirError::InvalidPattern { rule_name: String::from("broken") }
    );
}

#[test]
fn no_match_leaves_nothing_substituted() {
    let config = config_with_rules(vec![rule(
        "unrelated",
        "^docker\\.io/(.+)$",
        "${mirror_host}/${1}",
    )]);
    let result = MirrorRegistry::map_mirror_by_configuration("img/thing", &config);
    assert!(matches!(result, Err(DockermirError::MismatchAllRule)));
}
