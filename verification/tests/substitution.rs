use rushget::config::ConfigLoader;
use rushget::config::RushGetConfig;
use rushget::config::RushGetDockerConfig;
use rushget::config::RushGetGithubConfig;
use rushget::github::GithubReleaseTask;
use rushget::strutil::replace_all_str;
use rushget::strutil::substitute_mirror_tokens;
use rushget::strutil::substitute_release_url;

#[test]
fn replace_all_replaces_every_occurrence() {
    assert_eq!(replace_all_str("a-b-c", "-", "+"), "a+b+c");
    assert_eq!(replace_all_str("aaa", "aa", "b"), "ba");
    assert_eq!(replace_all_str("hello", "xyz", "!"), "hello");
    assert_eq!(replace_all_str("", "x", "y"), "");
    assert_eq!(replace_all_str("abc", "", "y"), "abc");
}

#[test]
fn tokens_filled_from_group() {
    let r = substitute_mirror_tokens(
        "${mirror_host}/${mirror_namespace}/${1}:${2}",
        "registry.cn-hangzhou.aliyuncs.com",
        "newbe36524",
    );
    assert_eq!(r, "registry.cn-hangzhou.aliyuncs.com/newbe36524/${1}:${2}");
}

#[test]
fn substitution_idempotent_on_tokens() {
    let template = "${mirror_host}/${mirror_namespace}/img and ${mirror_host} again";
    let host = "mirror.example.com";
    let ns = "space";
    let once = substitute_mirror_tokens(template, host, ns);
    let twice = substitute_mirror_tokens(&once, host, ns);
    assert_eq!(twice, once);
    assert_eq!(once, "mirror.example.com/space/img and mirror.example.com again");
}

#[test]
fn token_free_template_unchanged() {
    let template = "plain.example.com/image:tag";
    assert_eq!(substitute_mirror_tokens(template, "h", "n"), template);
}

#[test]
fn release_url_token_filled() {
    let r = substitute_release_url(
        "https://ghproxy.com/${release_url}",
        "https://github.com/o/r/archive/v1.zip",
    );
    assert_eq!(r, "https://ghproxy.com/https://github.com/o/r/archive/v1.zip");
}

#[test]
fn file_name_is_last_url_segment() {
    let config = RushGetConfig {
        name: String::from("t"),
        version: String::from("1"),
        description: String::from("d"),
        github: RushGetGithubConfig { mirrors: Vec::new() },
        docker: RushGetDockerConfig { ruleset: Vec::new() },
    };
    let task = GithubReleaseTask::new(
        config,
        String::from(
            "https://github.com/Amazing-Favorites/Amazing-Favorites/archive/refs/tags/v0.8.0.zip",
        ),
    );
    assert_eq!(task.file_name(), "v0.8.0.zip");
}

#[test]
fn file_name_of_plain_name_is_itself() {
    let config = ConfigLoader::default().load_default_config();
    let task = GithubReleaseTask::new(config, String::from("archive.tar.gz"));
    assert_eq!(task.file_name(), "archive.tar.gz");
}
