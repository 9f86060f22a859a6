//! The rule document and its acquisition. A document is immutable once
//! loaded; acquisition walks three tiers (remote URL, local file, embedded
//! default) and is modelled as a step machine, so that the order of the
//! attempts — and that a later tier is consulted only after the earlier ones
//! failed — is part of the verified contract. The driver that performs the
//! HTTP fetch, the file read and the parsing feeds each outcome back in as a
//! `LoadEvent`.

use vstd::prelude::*;

use crate::error::DockermirError;
use crate::error::ErrorView;

verus! {

/// Ghost shape of a rewrite rule.
#[verifier::ext_equal]
pub struct RuleView {
    pub name: Seq<char>,
    pub match_regex: Seq<char>,
    pub replace_template: Seq<char>,
}

/// Ghost shape of a rule group.
#[verifier::ext_equal]
pub struct RulesetView {
    pub name: Seq<char>,
    pub mirror_host: Seq<char>,
    pub mirror_namespace: Seq<char>,
    pub rules: Seq<RuleView>,
}

/// Ghost shape of a release mirror.
#[verifier::ext_equal]
pub struct GithubMirrorView {
    pub name: Seq<char>,
    pub replace_template: Seq<char>,
}

#[verifier::ext_equal]
pub struct GithubConfigView {
    pub mirrors: Seq<GithubMirrorView>,
}

#[verifier::ext_equal]
pub struct DockerConfigView {
    pub ruleset: Seq<RulesetView>,
}

/// Ghost shape of a whole rule document.
#[verifier::ext_equal]
pub struct ConfigView {
    pub name: Seq<char>,
    pub version: Seq<char>,
    pub description: Seq<char>,
    pub github: GithubConfigView,
    pub docker: DockerConfigView,
}

/// One rewrite rule: a match pattern and a replacement template holding
/// literal text, the placeholder tokens and capture-group references.
#[derive(Debug)]
pub struct DockerMirrorRule {
    pub name: String,
    pub match_regex: String,
    pub replace_template: String,
}

/// A named group of rules sharing a mirror host and namespace; evaluation
/// order inside the group is the vector order.
#[derive(Debug)]
pub struct DockerMirrorRuleset {
    pub name: String,
    pub mirror_host: String,
    pub mirror_namespace: String,
    pub rules: Vec<DockerMirrorRule>,
}

/// One release mirror: its template holds the `${release_url}` placeholder.
#[derive(Debug)]
pub struct GithubMirror {
    pub name: String,
    pub replace_template: String,
}

#[derive(Debug)]
pub struct RushGetGithubConfig {
    pub mirrors: Vec<GithubMirror>,
}

#[derive(Debug)]
pub struct RushGetDockerConfig {
    pub ruleset: Vec<DockerMirrorRuleset>,
}

/// The rule document: image-mirror rule groups and release mirrors.
/// Immutable once loaded; it lives for a single invocation.
#[derive(Debug)]
pub struct RushGetConfig {
    pub name: String,
    pub version: String,
    pub description: String,
    pub github: RushGetGithubConfig,
    pub docker: RushGetDockerConfig,
}

impl View for DockerMirrorRule {
    type V = RuleView;

    open spec fn view(&self) -> RuleView {
        RuleView {
            name: self.name@,
            match_regex: self.match_regex@,
            replace_template: self.replace_template@,
        }
    }
}

impl View for DockerMirrorRuleset {
    type V = RulesetView;

    open spec fn view(&self) -> RulesetView {
        RulesetView {
            name: self.name@,
            mirror_host: self.mirror_host@,
            mirror_namespace: self.mirror_namespace@,
            rules: self.rules@.map_values(|r: DockerMirrorRule| r@),
        }
    }
}

impl View for GithubMirror {
    type V = GithubMirrorView;

    open spec fn view(&self) -> GithubMirrorView {
        GithubMirrorView { name: self.name@, replace_template: self.replace_template@ }
    }
}

impl View for RushGetConfig {
    type V = ConfigView;

    open spec fn view(&self) -> ConfigView {
        ConfigView {
            name: self.name@,
            version: self.version@,
            description: self.description@,
            github: GithubConfigView {
                mirrors: self.github.mirrors@.map_values(|m: GithubMirror| m@),
            },
            docker: DockerConfigView {
                ruleset: self.docker.ruleset@.map_values(|g: DockerMirrorRuleset| g@),
            },
        }
    }
}

impl Clone for DockerMirrorRule {
    fn clone(&self) -> (r: Self)
        ensures
            r == *self,
    {
        DockerMirrorRule {
            name: self.name.clone(),
            match_regex: self.match_regex.clone(),
            replace_template: self.replace_template.clone(),
        }
    }
}

impl Clone for GithubMirror {
    fn clone(&self) -> (r: Self)
        ensures
            r == *self,
    {
        GithubMirror { name: self.name.clone(), replace_template: self.replace_template.clone() }
    }
}

fn clone_rules(v: &Vec<DockerMirrorRule>) -> (r: Vec<DockerMirrorRule>)
    ensures
        r@ == v@,
{
    let mut r: Vec<DockerMirrorRule> = Vec::new();
    let mut i: usize = 0;
    while i < v.len()
        invariant
            i <= v.len(),
            r@ == v@.subrange(0, i as int),
        decreases v.len() - i,
    {
        r.push(v[i].clone());
        proof {
            assert(v@.subrange(0, i as int).push(v@[i as int]) =~= v@.subrange(0, i + 1));
        }
        i = i + 1;
    }
    proof {
        assert(v@.subrange(0, v@.len() as int) =~= v@);
    }
    r
}

fn clone_mirrors(v: &Vec<GithubMirror>) -> (r: Vec<GithubMirror>)
    ensures
        r@ == v@,
{
    let mut r: Vec<GithubMirror> = Vec::new();
    let mut i: usize = 0;
    while i < v.len()
        invariant
            i <= v.len(),
            r@ == v@.subrange(0, i as int),
        decreases v.len() - i,
    {
        r.push(v[i].clone());
        proof {
            assert(v@.subrange(0, i as int).push(v@[i as int]) =~= v@.subrange(0, i + 1));
        }
        i = i + 1;
    }
    proof {
        assert(v@.subrange(0, v@.len() as int) =~= v@);
    }
    r
}

impl Clone for DockerMirrorRuleset {
    fn clone(&self) -> (r: Self)
        ensures
            r@ == self@,
    {
        DockerMirrorRuleset {
            name: self.name.clone(),
            mirror_host: self.mirror_host.clone(),
            mirror_namespace: self.mirror_namespace.clone(),
            rules: clone_rules(&self.rules),
        }
    }
}

fn clone_rulesets(v: &Vec<DockerMirrorRuleset>) -> (r: Vec<DockerMirrorRuleset>)
    ensures
        r@.map_values(|g: DockerMirrorRuleset| g@) == v@.map_values(
            |g: DockerMirrorRuleset| g@,
        ),
{
    let mut r: Vec<DockerMirrorRuleset> = Vec::new();
    let mut i: usize = 0;
    while i < v.len()
        invariant
            i <= v.len(),
            r@.len() == i,
            forall|k: int| 0 <= k < i ==> (#[trigger] r@[k])@ == v@[k]@,
        decreases v.len() - i,
    {
        r.push(v[i].clone());
        i = i + 1;
    }
    proof {
        assert(r@.map_values(|g: DockerMirrorRuleset| g@) =~= v@.map_values(
            |g: DockerMirrorRuleset| g@,
        ));
    }
    r
}

impl Clone for RushGetConfig {
    fn clone(&self) -> (r: Self)
        ensures
            r@ == self@,
    {
        RushGetConfig {
            name: self.name.clone(),
            version: self.version.clone(),
            description: self.description.clone(),
            github: RushGetGithubConfig { mirrors: clone_mirrors(&self.github.mirrors) },
            docker: RushGetDockerConfig { ruleset: clone_rulesets(&self.docker.ruleset) },
        }
    }
}

/// Where the configuration may come from: an optional remote URL and an
/// optional local file path; either or both may be absent.
#[derive(Debug)]
pub struct LoadConfigOptions {
    pub remote_config_url: Option<String>,
    pub local_config_path: Option<String>,
}

#[verifier::ext_equal]
pub struct OptionsView {
    pub remote_config_url: Option<Seq<char>>,
    pub local_config_path: Option<Seq<char>>,
}

impl View for LoadConfigOptions {
    type V = OptionsView;

    open spec fn view(&self) -> OptionsView {
        OptionsView {
            remote_config_url: match self.remote_config_url {
                Option::Some(u) => Option::Some(u@),
                Option::None => Option::None,
            },
            local_config_path: match self.local_config_path {
                Option::Some(p) => Option::Some(p@),
                Option::None => Option::None,
            },
        }
    }
}

impl Default for LoadConfigOptions {
    /// Neither a remote URL nor a local path: the load goes straight to the
    /// default local file and then the embedded document.
    fn default() -> (r: Self)
        ensures
            r@.remote_config_url is None,
            r@.local_config_path is None,
    {
        LoadConfigOptions { remote_config_url: Option::None, local_config_path: Option::None }
    }
}

fn mk_rule(name: &str, match_regex: &str, replace_template: &str) -> (r: DockerMirrorRule)
    ensures
        r@ == (RuleView { name: name@, match_regex: match_regex@, replace_template: replace_template@ }),
{
    DockerMirrorRule {
        name: String::from_str(name),
        match_regex: String::from_str(match_regex),
        replace_template: String::from_str(replace_template),
    }
}

fn mk_github_mirror(name: &str, replace_template: &str) -> (r: GithubMirror)
    ensures
        r@ == (GithubMirrorView { name: name@, replace_template: replace_template@ }),
{
    GithubMirror {
        name: String::from_str(name),
        replace_template: String::from_str(replace_template),
    }
}

/// The embedded default document: one group of image-mirror rules and the
/// ordered release mirrors. This is the infallible last resort of the load.
pub open spec fn default_config() -> ConfigView {
    ConfigView {
        name: "rushget"@,
        version: "1"@,
        description: "default mirror rules"@,
        github: GithubConfigView {
            mirrors: seq![
                GithubMirrorView {
                    name: "ghproxy"@,
                    replace_template: "https://ghproxy.com/${release_url}"@,
                },
                GithubMirrorView { name: "origin"@, replace_template: "${release_url}"@ },
            ],
        },
        docker: DockerConfigView {
            ruleset: seq![
                RulesetView {
                    name: "mcr"@,
                    mirror_host: "registry.cn-hangzhou.aliyuncs.com"@,
                    mirror_namespace: "newbe36524"@,
                    rules: seq![
                        RuleView {
                            name: "mcr-dotnet"@,
                            match_regex: "^mcr\\.microsoft\\.com/dotnet/([^:/]+):(.+)$"@,
                            replace_template: "${mirror_host}/${mirror_namespace}/${1}:${2}"@,
                        },
                        RuleView {
                            name: "mcr-mssql"@,
                            match_regex: "^mcr\\.microsoft\\.com/mssql/([^:/]+):(.+)$"@,
                            replace_template: "${mirror_host}/${mirror_namespace}/${1}:${2}"@,
                        },
                        RuleView {
                            name: "mcr-java"@,
                            match_regex: "^mcr\\.microsoft\\.com/java/([^:/]+):(.+)$"@,
                            replace_template: "${mirror_host}/${mirror_namespace}/${1}:${2}"@,
                        },
                        RuleView {
                            name: "mcr-windows"@,
                            match_regex: "^mcr\\.microsoft\\.com/(windows[^:/]*):(.+)$"@,
                            replace_template: "${mirror_host}/${mirror_namespace}/${1}:${2}"@,
                        },
                        RuleView {
                            name: "mcr-vscode-devcontainers"@,
                            match_regex: "^mcr\\.microsoft\\.com/vscode/devcontainers/([^:/]+):(.+)$"@,
                            replace_template: "${mirror_host}/${mirror_namespace}/vscode_${1}:${2}"@,
                        },
                    ],
                },
            ],
        },
    }
}

/// Loads and drives the acquisition of a rule document.
pub struct ConfigLoader {}

impl Default for ConfigLoader {
    fn default() -> (r: Self) {
        ConfigLoader {  }
    }
}

impl ConfigLoader {
    /// Builds the embedded default document; this tier cannot fail.
    pub fn load_default_config(&self) -> (r: RushGetConfig)
        ensures
            r@ == default_config(),
    {
        let mut rules: Vec<DockerMirrorRule> = Vec::new();
        rules.push(
            mk_rule(
                "mcr-dotnet",
                "^mcr\\.microsoft\\.com/dotnet/([^:/]+):(.+)$",
                "${mirror_host}/${mirror_namespace}/${1}:${2}",
            ),
        );
        rules.push(
            mk_rule(
                "mcr-mssql",
                "^mcr\\.microsoft\\.com/mssql/([^:/]+):(.+)$",
                "${mirror_host}/${mirror_namespace}/${1}:${2}",
            ),
        );
        rules.push(
            mk_rule(
                "mcr-java",
                "^mcr\\.microsoft\\.com/java/([^:/]+):(.+)$",
                "${mirror_host}/${mirror_namespace}/${1}:${2}",
            ),
        );
        rules.push(
            mk_rule(
                "mcr-windows",
                "^mcr\\.microsoft\\.com/(windows[^:/]*):(.+)$",
                "${mirror_host}/${mirror_namespace}/${1}:${2}",
            ),
        );
        rules.push(
            mk_rule(
                "mcr-vscode-devcontainers",
                "^mcr\\.microsoft\\.com/vscode/devcontainers/([^:/]+):(.+)$",
                "${mirror_host}/${mirror_namespace}/vscode_${1}:${2}",
            ),
        );
        let group = DockerMirrorRuleset {
            name: String::from_str("mcr"),
            mirror_host: String::from_str("registry.cn-hangzhou.aliyuncs.com"),
            mirror_namespace: String::from_str("newbe36524"),
            rules,
        };
        let mut ruleset: Vec<DockerMirrorRuleset> = Vec::new();
        ruleset.push(group);
        let mut mirrors: Vec<GithubMirror> = Vec::new();
        mirrors.push(mk_github_mirror("ghproxy", "https://ghproxy.com/${release_url}"));
        mirrors.push(mk_github_mirror("origin", "${release_url}"));
        let r = RushGetConfig {
            name: String::from_str("rushget"),
            version: String::from_str("1"),
            description: String::from_str("default mirror rules"),
            github: RushGetGithubConfig { mirrors },
            docker: RushGetDockerConfig { ruleset },
        };
        proof {
            assert(r@.docker.ruleset[0].rules =~= default_config().docker.ruleset[0].rules);
            assert(r@.docker.ruleset =~= default_config().docker.ruleset);
            assert(r@.github.mirrors =~= default_config().github.mirrors);
            assert(r@ =~= default_config());
        }
        r
    }

    /// Begins a load: the first tier awaited is the remote URL when one is
    /// given, else the local file tier.
    pub fn begin_load(&self, options: LoadConfigOptions) -> (m: ConfigLoad)
        ensures
            m@.options == options@,
            m@.phase == initial_phase(options@),
            m.wf(),
    {
        let phase = if options.remote_config_url.is_some() {
            LoadPhase::AwaitRemote
        } else if options.local_config_path.is_some() {
            LoadPhase::AwaitRequestedFile
        } else {
            LoadPhase::AwaitFallbackFile
        };
        ConfigLoad { options, phase }
    }
}

/// What the driver is asked to do next during a load.
pub enum LoadAction {
    /// Fetch this URL over HTTP and parse any successful body as a document.
    FetchRemote { url: String },
    /// Read this file, if it exists, and parse it as a document.
    ReadLocal { path: String },
    /// Parse the embedded default document.
    ParseEmbedded,
}

#[verifier::ext_equal]
pub enum LoadActionView {
    FetchRemote { url: Seq<char> },
    ReadLocal { path: Seq<char> },
    ParseEmbedded,
}

impl View for LoadAction {
    type V = LoadActionView;

    open spec fn view(&self) -> LoadActionView {
        match self {
            LoadAction::FetchRemote { url } => LoadActionView::FetchRemote { url: url@ },
            LoadAction::ReadLocal { path } => LoadActionView::ReadLocal { path: path@ },
            LoadAction::ParseEmbedded => LoadActionView::ParseEmbedded,
        }
    }
}

/// What the driver reports back about the action it performed.
pub enum LoadEvent {
    /// The remote fetch returned a success status and the body parsed.
    RemoteDocument(RushGetConfig),
    /// The remote fetch failed in any way: transport, status, or parse.
    RemoteFailed,
    /// The file existed and parsed.
    LocalDocument(RushGetConfig),
    /// The file does not exist.
    LocalMissing,
    /// The file exists but did not parse.
    LocalUnparsable,
    /// The embedded default parsed.
    EmbeddedDocument(RushGetConfig),
    /// The embedded default did not parse: a packaging defect.
    EmbeddedUnparsable,
}

#[verifier::ext_equal]
pub enum LoadEventView {
    RemoteDocument(ConfigView),
    RemoteFailed,
    LocalDocument(ConfigView),
    LocalMissing,
    LocalUnparsable,
    EmbeddedDocument(ConfigView),
    EmbeddedUnparsable,
}

impl View for LoadEvent {
    type V = LoadEventView;

    open spec fn view(&self) -> LoadEventView {
        match self {
            LoadEvent::RemoteDocument(d) => LoadEventView::RemoteDocument(d@),
            LoadEvent::RemoteFailed => LoadEventView::RemoteFailed,
            LoadEvent::LocalDocument(d) => LoadEventView::LocalDocument(d@),
            LoadEvent::LocalMissing => LoadEventView::LocalMissing,
            LoadEvent::LocalUnparsable => LoadEventView::LocalUnparsable,
            LoadEvent::EmbeddedDocument(d) => LoadEventView::EmbeddedDocument(d@),
            LoadEvent::EmbeddedUnparsable => LoadEventView::EmbeddedUnparsable,
        }
    }
}

/// Which tier a load is waiting on, or how it ended.
pub enum LoadPhase {
    AwaitRemote,
    AwaitRequestedFile,
    AwaitFallbackFile,
    AwaitEmbedded,
    Loaded(RushGetConfig),
    Corrupt,
}

#[verifier::ext_equal]
pub enum LoadPhaseView {
    AwaitRemote,
    AwaitRequestedFile,
    AwaitFallbackFile,
    AwaitEmbedded,
    Loaded(ConfigView),
    Corrupt,
}

impl View for LoadPhase {
    type V = LoadPhaseView;

    open spec fn view(&self) -> LoadPhaseView {
        match self {
            LoadPhase::AwaitRemote => LoadPhaseView::AwaitRemote,
            LoadPhase::AwaitRequestedFile => LoadPhaseView::AwaitRequestedFile,
            LoadPhase::AwaitFallbackFile => LoadPhaseView::AwaitFallbackFile,
            LoadPhase::AwaitEmbedded => LoadPhaseView::AwaitEmbedded,
            LoadPhase::Loaded(d) => LoadPhaseView::Loaded(d@),
            LoadPhase::Corrupt => LoadPhaseView::Corrupt,
        }
    }
}

/// The phase at which the local tier starts: the caller's path when one was
/// given, else the fixed default path.
pub open spec fn local_entry_phase(opts: OptionsView) -> LoadPhaseView {
    if opts.local_config_path is Some {
        LoadPhaseView::AwaitRequestedFile
    } else {
        LoadPhaseView::AwaitFallbackFile
    }
}

/// The phase a load starts in: the remote tier when a URL was given, else
/// the local tier.
pub open spec fn initial_phase(opts: OptionsView) -> LoadPhaseView {
    if opts.remote_config_url is Some {
        LoadPhaseView::AwaitRemote
    } else {
        local_entry_phase(opts)
    }
}

/// The transition relation of the load: a tier that yields a document ends
/// the load with it; a failed remote falls to the local tier; a missing
/// requested file falls to the fixed default path; anything else falls to
/// the embedded default, which fails only if that default does not parse.
/// An event that does not belong to the phase changes nothing.
pub open spec fn load_step(opts: OptionsView, phase: LoadPhaseView, ev: LoadEventView) -> LoadPhaseView {
    match (phase, ev) {
        (LoadPhaseView::AwaitRemote, LoadEventView::RemoteDocument(d)) => LoadPhaseView::Loaded(d),
        (LoadPhaseView::AwaitRemote, LoadEventView::RemoteFailed) => local_entry_phase(opts),
        (LoadPhaseView::AwaitRequestedFile, LoadEventView::LocalDocument(d)) => LoadPhaseView::Loaded(d),
        (LoadPhaseView::AwaitRequestedFile, LoadEventView::LocalMissing) => LoadPhaseView::AwaitFallbackFile,
        (LoadPhaseView::AwaitRequestedFile, LoadEventView::LocalUnparsable) => LoadPhaseView::AwaitEmbedded,
        (LoadPhaseView::AwaitFallbackFile, LoadEventView::LocalDocument(d)) => LoadPhaseView::Loaded(d),
        (LoadPhaseView::AwaitFallbackFile, LoadEventView::LocalMissing) => LoadPhaseView::AwaitEmbedded,
        (LoadPhaseView::AwaitFallbackFile, LoadEventView::LocalUnparsable) => LoadPhaseView::AwaitEmbedded,
        (LoadPhaseView::AwaitEmbedded, LoadEventView::EmbeddedDocument(d)) => LoadPhaseView::Loaded(d),
        (LoadPhaseView::AwaitEmbedded, LoadEventView::EmbeddedUnparsable) => LoadPhaseView::Corrupt,
        (_, _) => phase,
    }
}

/// The action each waiting phase asks of the driver; a finished load asks
/// nothing.
pub open spec fn spec_pending_action(opts: OptionsView, phase: LoadPhaseView) -> Option<
    LoadActionView,
> {
    match phase {
        LoadPhaseView::AwaitRemote => match opts.remote_config_url {
            Option::Some(u) => Option::Some(LoadActionView::FetchRemote { url: u }),
            Option::None => Option::None,
        },
        LoadPhaseView::AwaitRequestedFile => match opts.local_config_path {
            Option::Some(p) => Option::Some(LoadActionView::ReadLocal { path: p }),
            Option::None => Option::None,
        },
        LoadPhaseView::AwaitFallbackFile => Option::Some(
            LoadActionView::ReadLocal { path: "rushget.yaml"@ },
        ),
        LoadPhaseView::AwaitEmbedded => Option::Some(LoadActionView::ParseEmbedded),
        LoadPhaseView::Loaded(_) => Option::None,
        LoadPhaseView::Corrupt => Option::None,
    }
}

/// A configuration load in progress: the options it was started with and the
/// tier it currently waits on.
pub struct ConfigLoad {
    options: LoadConfigOptions,
    phase: LoadPhase,
}

#[verifier::ext_equal]
pub struct ConfigLoadView {
    pub options: OptionsView,
    pub phase: LoadPhaseView,
}

impl View for ConfigLoad {
    type V = ConfigLoadView;

    closed spec fn view(&self) -> ConfigLoadView {
        ConfigLoadView { options: self.options@, phase: self.phase@ }
    }
}

impl ConfigLoad {
    /// A phase that waits on a caller-supplied URL or path exists only when
    /// that URL or path was supplied.
    pub open spec fn wf(&self) -> bool {
        &&& (self@.phase is AwaitRemote ==> self@.options.remote_config_url is Some)
        &&& (self@.phase is AwaitRequestedFile ==> self@.options.local_config_path is Some)
    }

    /// True once the load has a result.
    pub fn finished(&self) -> (b: bool)
        ensures
            b == (self@.phase is Loaded || self@.phase is Corrupt),
    {
        match self.phase {
            LoadPhase::Loaded(_) => true,
            LoadPhase::Corrupt => true,
            _ => false,
        }
    }

    /// What the driver should do next, or nothing once finished.
    pub fn pending_action(&self) -> (a: Option<LoadAction>)
        requires
            self.wf(),
        ensures
            match a {
                Option::Some(act) => spec_pending_action(self@.options, self@.phase)
                    == Option::Some(act@),
                Option::None => spec_pending_action(self@.options, self@.phase) is None,
            },
    {
        match &self.phase {
            LoadPhase::AwaitRemote => match &self.options.remote_config_url {
                Option::Some(u) => Option::Some(LoadAction::FetchRemote { url: u.clone() }),
                Option::None => Option::None,
            },
            LoadPhase::AwaitRequestedFile => match &self.options.local_config_path {
                Option::Some(p) => Option::Some(LoadAction::ReadLocal { path: p.clone() }),
                Option::None => Option::None,
            },
            LoadPhase::AwaitFallbackFile => Option::Some(
                LoadAction::ReadLocal { path: String::from_str("rushget.yaml") },
            ),
            LoadPhase::AwaitEmbedded => Option::Some(LoadAction::ParseEmbedded),
            LoadPhase::Loaded(_) => Option::None,
            LoadPhase::Corrupt => Option::None,
        }
    }

    /// Feeds the outcome of the pending action back into the load.
    pub fn step(&mut self, event: LoadEvent)
        requires
            old(self).wf(),
        ensures
            final(self).wf(),
            final(self)@.options == old(self)@.options,
            final(self)@.phase == load_step(old(self)@.options, old(self)@.phase, event@),
    {
        match event {
            LoadEvent::RemoteDocument(d) => {
                if let LoadPhase::AwaitRemote = self.phase {
                    self.phase = LoadPhase::Loaded(d);
                }
            },
            LoadEvent::RemoteFailed => {
                if let LoadPhase::AwaitRemote = self.phase {
                    self.phase = if self.options.local_config_path.is_some() {
                        LoadPhase::AwaitRequestedFile
                    } else {
                        LoadPhase::AwaitFallbackFile
                    };
                }
            },
            LoadEvent::LocalDocument(d) => {
                match self.phase {
                    LoadPhase::AwaitRequestedFile | LoadPhase::AwaitFallbackFile => {
                        self.phase = LoadPhase::Loaded(d);
                    },
                    _ => {},
                }
            },
            LoadEvent::LocalMissing => {
                match self.phase {
                    LoadPhase::AwaitRequestedFile => {
                        self.phase = LoadPhase::AwaitFallbackFile;
                    },
                    LoadPhase::AwaitFallbackFile => {
                        self.phase = LoadPhase::AwaitEmbedded;
                    },
                    _ => {},
                }
            },
            LoadEvent::LocalUnparsable => {
                match self.phase {
                    LoadPhase::AwaitRequestedFile | LoadPhase::AwaitFallbackFile => {
                        self.phase = LoadPhase::AwaitEmbedded;
                    },
                    _ => {},
                }
            },
            LoadEvent::EmbeddedDocument(d) => {
                if let LoadPhase::AwaitEmbedded = self.phase {
                    self.phase = LoadPhase::Loaded(d);
                }
            },
            LoadEvent::EmbeddedUnparsable => {
                if let LoadPhase::AwaitEmbedded = self.phase {
                    self.phase = LoadPhase::Corrupt;
                }
            },
        }
    }

    /// The result of a finished load: the document, or the one hard failure.
    pub fn into_result(self) -> (r: Result<RushGetConfig, DockermirError>)
        requires
            self@.phase is Loaded || self@.phase is Corrupt,
        ensures
            match r {
                Result::Ok(d) => self@.phase == LoadPhaseView::Loaded(d@),
                Result::Err(e) => self@.phase is Corrupt && e@ == ErrorView::DefaultCorrupt,
            },
    {
        match self.phase {
            LoadPhase::Loaded(d) => Result::Ok(d),
            LoadPhase::Corrupt => Result::Err(DockermirError::DefaultCorrupt),
            _ => vstd::pervasive::unreached(),
        }
    }
}

/// Each tier that yields a document ends the load with exactly that
/// document: remote before local, local before the default path, and the
/// embedded default last.
pub proof fn lemma_tier_preference(opts: OptionsView, d: ConfigView)
    ensures
        load_step(opts, LoadPhaseView::AwaitRemote, LoadEventView::RemoteDocument(d))
            == LoadPhaseView::Loaded(d),
        load_step(opts, LoadPhaseView::AwaitRequestedFile, LoadEventView::LocalDocument(d))
            == LoadPhaseView::Loaded(d),
        load_step(opts, LoadPhaseView::AwaitFallbackFile, LoadEventView::LocalDocument(d))
            == LoadPhaseView::Loaded(d),
        load_step(opts, LoadPhaseView::AwaitEmbedded, LoadEventView::EmbeddedDocument(d))
            == LoadPhaseView::Loaded(d),
        load_step(opts, LoadPhaseView::AwaitRemote, LoadEventView::RemoteFailed)
            == local_entry_phase(opts),
{
}

/// A load errs only on a corrupt embedded default: as long as the embedded
/// document parses, no single tier outcome reaches `Corrupt`.
pub proof fn lemma_default_tier_infallible(
    opts: OptionsView,
    phase: LoadPhaseView,
    ev: LoadEventView,
)
    requires
        !(phase is Corrupt),
        !(ev is EmbeddedUnparsable),
    ensures
        !(load_step(opts, phase, ev) is Corrupt),
{
}

/// The phase after a whole sequence of tier outcomes.
pub open spec fn load_run(
    opts: OptionsView,
    phase: LoadPhaseView,
    events: Seq<LoadEventView>,
) -> LoadPhaseView
    decreases events.len(),
{
    if events.len() == 0 {
        phase
    } else {
        load_run(opts, load_step(opts, phase, events[0]), events.skip(1))
    }
}

/// Over any whole sequence of tier outcomes in which the embedded default
/// parses, a load never ends in an error.
pub proof fn lemma_load_never_errs(
    opts: OptionsView,
    phase: LoadPhaseView,
    events: Seq<LoadEventView>,
)
    requires
        !(phase is Corrupt),
        forall|i: int| 0 <= i < events.len() ==> !(#[trigger] events[i] is EmbeddedUnparsable),
    ensures
        !(load_run(opts, phase, events) is Corrupt),
    decreases events.len(),
{
    if events.len() > 0 {
        lemma_default_tier_infallible(opts, phase, events[0]);
        lemma_load_never_errs(opts, load_step(opts, phase, events[0]), events.skip(1));
    }
}

} // verus!
