//! Zero-configuration server discovery: an environment-provided config file,
//! then conventional config file locations, then localhost port probing, and
//! a wizard as the last resort.
//!
//! The engine decides; the caller performs the reads and pings it asks for
//! and feeds the outcomes back in.

use vstd::prelude::*;

use crate::numfmt::{i64_to_string, int_str};
use crate::text::{trim_trailing_slashes, trimmed_slashes};

verus! {

/// Source of the discovered configuration.
#[derive(Debug, Clone, PartialEq)]
pub enum DiscoverySource {
    /// Found via the home-directory environment override.
    EnvVar,
    /// Found in a default config location.
    ConfigFile(String),
    /// Found by probing localhost.
    LocalhostProbe(u16),
    /// No server found; the wizard is needed.
    NeedsWizard,
}

impl DiscoverySource {
    /// An equal copy of the source.
    pub fn duplicate(&self) -> (r: DiscoverySource)
        ensures
            r == *self,
    {
        match self {
            DiscoverySource::EnvVar => DiscoverySource::EnvVar,
            DiscoverySource::ConfigFile(p) => DiscoverySource::ConfigFile(p.clone()),
            DiscoverySource::LocalhostProbe(p) => DiscoverySource::LocalhostProbe(*p),
            DiscoverySource::NeedsWizard => DiscoverySource::NeedsWizard,
        }
    }
}

/// Outcome of a single step in the discovery process.
#[derive(Debug, Clone, PartialEq)]
pub enum DiscoveryStepStatus {
    Checking,
    Found(String),
    NotFound,
    Failed(String),
}

impl DiscoveryStepStatus {
    /// An equal copy of the status.
    pub fn duplicate(&self) -> (r: DiscoveryStepStatus)
        ensures
            r == *self,
    {
        match self {
            DiscoveryStepStatus::Checking => DiscoveryStepStatus::Checking,
            DiscoveryStepStatus::Found(s) => DiscoveryStepStatus::Found(s.clone()),
            DiscoveryStepStatus::NotFound => DiscoveryStepStatus::NotFound,
            DiscoveryStepStatus::Failed(s) => DiscoveryStepStatus::Failed(s.clone()),
        }
    }
}

/// A single step in the discovery process, recorded for display.
#[derive(Debug, Clone, PartialEq)]
pub struct DiscoveryStep {
    pub name: String,
    pub status: DiscoveryStepStatus,
}

impl DiscoveryStep {
    /// An equal copy of the step.
    pub fn duplicate(&self) -> (r: DiscoveryStep)
        ensures
            r == *self,
    {
        DiscoveryStep { name: self.name.clone(), status: self.status.duplicate() }
    }
}

/// Result of server discovery.
#[derive(Debug, Clone, PartialEq)]
pub struct DiscoveryResult {
    /// Discovered server URL, if one was found.
    pub server_url: Option<String>,
    /// API key, if the config file held one.
    pub api_key: Option<String>,
    /// How the server was discovered.
    pub source: DiscoverySource,
    /// The steps that were tried, in order.
    pub steps: Vec<DiscoveryStep>,
}

impl DiscoveryResult {
    /// Check if discovery found a server.
    pub fn found_server(&self) -> (r: bool)
        ensures
            r == (self.server_url matches Option::Some(_)),
    {
        matches!(self.server_url, Some(_))
    }

    /// Check if the wizard is needed.
    pub fn needs_wizard(&self) -> (r: bool)
        ensures
            r == (self.source matches DiscoverySource::NeedsWizard),
    {
        matches!(self.source, DiscoverySource::NeedsWizard)
    }

    /// A copy of the result: equal fields, the steps equal element by
    /// element.
    pub fn duplicate(&self) -> (r: DiscoveryResult)
        ensures
            r.server_url == self.server_url,
            r.api_key == self.api_key,
            r.source == self.source,
            r.steps@ == self.steps@,
    {
        let server_url = match &self.server_url {
            Some(u) => Some(u.clone()),
            None => None,
        };
        let api_key = match &self.api_key {
            Some(k) => Some(k.clone()),
            None => None,
        };
        let mut steps: Vec<DiscoveryStep> = Vec::new();
        let mut i: usize = 0;
        #[verifier::loop_isolation(false)]
        while i < self.steps.len()
            invariant
                i <= self.steps@.len(),
                steps@ =~= self.steps@.take(i as int),
            decreases self.steps@.len() - i,
        {
            steps.push(self.steps[i].duplicate());
            i = i + 1;
        }
        proof {
            assert(steps@ =~= self.steps@);
        }
        DiscoveryResult { server_url, api_key, source: self.source.duplicate(), steps }
    }
}

/// What the parser hands back for a config file's text: the `server_url` and
/// `api_key` string entries of the parsed table, `server_url` empty when
/// missing; nothing when the text is not well-formed TOML.
pub uninterp spec fn toml_server_config(s: Seq<char>) -> Option<(Seq<char>, Option<Seq<char>>)>;

/// Whether an extraction result agrees with the parser model.
pub open spec fn config_matches(
    r: Option<(String, Option<String>)>,
    m: Option<(Seq<char>, Option<Seq<char>>)>,
) -> bool {
    match (r, m) {
        (Option::None, Option::None) => true,
        (Option::Some((u, k)), Option::Some((mu, mk))) => u@ == mu && (match (k, mk) {
            (Option::None, Option::None) => true,
            (Option::Some(a), Option::Some(b)) => a@ == b,
            _ => false,
        }),
        _ => false,
    }
}

/// Relies on toml's table parser: the `server_url` and `api_key` string keys
/// of the parsed table, with a missing or non-string `server_url` read as
/// empty, and a parse failure as nothing.
#[verifier::external_body]
fn parse_server_config(s: &str) -> (r: Option<(String, Option<String>)>)
    ensures
        config_matches(r, toml_server_config(s@)),
{
    let table: toml::Table = match s.parse::<toml::Table>() {
        Ok(t) => t,
        Err(_) => return None,
    };
    let server_url = match table.get("server_url") {
        Some(toml::Value::String(u)) => u.clone(),
        _ => String::new(),
    };
    let api_key = match table.get("api_key") {
        Some(toml::Value::String(k)) => Some(k.clone()),
        _ => None,
    };
    Some((server_url, api_key))
}

/// A usable candidate from extracted config values: the URL must be
/// non-empty; anything else is no candidate.
pub fn config_candidate(server_url: String, api_key: Option<String>) -> (r: Option<
    (String, Option<String>),
>)
    ensures
        server_url@.len() > 0 ==> (r matches Some((u, k)) && u == server_url && k == api_key),
        server_url@.len() == 0 ==> r matches Option::None,
{
    if server_url.as_str().is_empty() {
        None
    } else {
        Some((server_url, api_key))
    }
}

/// The health endpoint probed to check that a server is reachable: the URL
/// without trailing slashes, then the health path.
pub fn health_ping_url(url: &str) -> (r: String)
    ensures
        r@ == trimmed_slashes(url@) + "/api/v1/health"@,
{
    trim_trailing_slashes(url).concat("/api/v1/health")
}

/// The localhost ports probed, in order.
pub open spec fn probe_port(i: int) -> u16 {
    if i == 0 {
        8080
    } else if i == 1 {
        8081
    } else if i == 2 {
        3000
    } else {
        9000
    }
}

fn probe_port_at(i: usize) -> (r: u16)
    requires
        i < 4,
    ensures
        r == probe_port(i as int),
{
    if i == 0 {
        8080
    } else if i == 1 {
        8081
    } else if i == 2 {
        3000
    } else {
        9000
    }
}

/// The URL probed for one localhost port.
pub open spec fn probe_url(port: u16) -> Seq<char> {
    "http://localhost:"@ + int_str(port as int)
}

fn probe_url_at(port: u16) -> (r: String)
    ensures
        r@ == probe_url(port),
{
    "http://localhost:".to_owned().concat(i64_to_string(port as i64).as_str())
}

/// An element-wise copy of a step list.
pub fn clone_steps(v: &Vec<DiscoveryStep>) -> (r: Vec<DiscoveryStep>)
    ensures
        r@ == v@,
{
    let mut steps: Vec<DiscoveryStep> = Vec::new();
    let mut i: usize = 0;
    #[verifier::loop_isolation(false)]
    while i < v.len()
        invariant
            i <= v@.len(),
            steps@ =~= v@.take(i as int),
        decreases v@.len() - i,
    {
        steps.push(v[i].duplicate());
        i = i + 1;
    }
    proof {
        assert(steps@ =~= v@);
    }
    steps
}

/// Where the discovery chain stands.
#[derive(Debug, Clone, PartialEq)]
pub enum Phase {
    /// Waiting for the environment-provided config file.
    EnvRead,
    /// Waiting for a ping of the URL from the environment-provided config.
    EnvPing { url: String, api_key: Option<String> },
    /// Waiting for the contents of the config file at this index.
    FileRead { idx: usize },
    /// Waiting for a ping of the URL from the config file at this index.
    FilePing { idx: usize, url: String, api_key: Option<String> },
    /// Waiting for a ping of the localhost port at this index.
    PortPing { idx: usize },
    /// Discovery is over.
    Finished,
}

/// What the engine asks its caller to do next.
#[derive(Debug, Clone, PartialEq)]
pub enum DiscoveryRequest {
    /// Read the config file named by the home-directory environment
    /// override, if the override is set and the file exists.
    ReadEnvConfig,
    /// Read the config file at this path, if it exists.
    ReadFile { path: String },
    /// Check whether the server behind this URL answers its health endpoint.
    Ping { url: String },
    /// Discovery is over; this is its result.
    Done { result: DiscoveryResult },
}

/// What the caller hands back.
#[derive(Debug, Clone, PartialEq)]
pub enum DiscoveryInput {
    /// The environment-provided config file's text, or nothing.
    EnvConfig { contents: Option<String> },
    /// A config file's text, or nothing.
    FileContents { contents: Option<String> },
    /// Whether the pinged server answered.
    PingOutcome { reachable: bool },
}

/// The contents view of an optional string.
pub open spec fn opt_str_view(o: Option<String>) -> Option<Seq<char>> {
    match o {
        Option::Some(s) => Option::Some(s@),
        Option::None => Option::None,
    }
}

/// The phase that follows a failed candidate: the config file at `k`, or the
/// first localhost port when the files are exhausted.
pub open spec fn files_phase_from(paths: Seq<String>, k: int, phase: Phase) -> bool {
    if k < paths.len() {
        phase matches Phase::FileRead { idx } && idx == k
    } else {
        phase matches Phase::PortPing { idx } && idx == 0
    }
}

/// Whether a phase is the ping of a parsed candidate, with the given URL and
/// key.
pub open spec fn candidate_ping(
    phase: Phase,
    env: bool,
    k: int,
    url: Seq<char>,
    key: Option<Seq<char>>,
) -> bool {
    if env {
        phase matches Phase::EnvPing { url: u, api_key } && u@ == url && opt_str_view(api_key)
            == key
    } else {
        phase matches Phase::FilePing { idx, url: u, api_key } && idx == k && u@ == url
            && opt_str_view(api_key) == key
    }
}

/// A candidate that did not pan out: one not-found step recorded under the
/// given name, and the chain moves to the config file at `k` or onward to
/// the localhost ports.
pub open spec fn advance_not_found(
    pre: DiscoveryEngine,
    post: DiscoveryEngine,
    name: Seq<char>,
    k: int,
) -> bool {
    &&& post.steps@.len() == pre.steps@.len() + 1
    &&& post.steps@.take(pre.steps@.len() as int) == pre.steps@
    &&& post.steps@.last().name@ == name
    &&& post.steps@.last().status == DiscoveryStepStatus::NotFound
    &&& files_phase_from(pre.paths@, k, post.phase)
    &&& post.outcome == pre.outcome
}

/// Discovery succeeded: a found step recorded under the given name, and the
/// outcome carries the URL, the key, the source, and every step.
pub open spec fn finished_with(
    pre: DiscoveryEngine,
    post: DiscoveryEngine,
    name: Seq<char>,
    url: Seq<char>,
    key: Option<Seq<char>>,
    source: DiscoverySource,
) -> bool {
    &&& post.steps@.len() == pre.steps@.len() + 1
    &&& post.steps@.take(pre.steps@.len() as int) == pre.steps@
    &&& post.steps@.last().name@ == name
    &&& (post.steps@.last().status matches DiscoveryStepStatus::Found(u) && u@ == url)
    &&& post.phase matches Phase::Finished
    &&& (post.outcome matches Some(res) && (res.server_url matches Some(u2) && u2@ == url)
        && opt_str_view(res.api_key) == key && res.source == source && res.steps@ == post.steps@)
}

/// The name under which a config file's step is recorded.
pub open spec fn config_step_name(path: String) -> Seq<char> {
    "Config: "@ + path@
}

/// The name under which a localhost probe's step is recorded.
pub open spec fn probe_step_name(port: u16) -> Seq<char> {
    "Probe: localhost:"@ + int_str(port as int)
}

/// What one engine step does, for every phase and input. An input that does
/// not answer the current phase changes nothing.
pub open spec fn engine_step_post(
    pre: DiscoveryEngine,
    input: DiscoveryInput,
    post: DiscoveryEngine,
) -> bool {
    &&& post.paths == pre.paths
    &&& match (pre.phase, input) {
        (Phase::EnvRead, DiscoveryInput::EnvConfig { contents }) => {
            match contents {
                Option::Some(c) => {
                    match toml_server_config(c@) {
                        Option::Some((u, k)) => {
                            if u.len() > 0 {
                                &&& post.steps@ == pre.steps@
                                &&& candidate_ping(post.phase, true, 0, u, k)
                                &&& post.outcome == pre.outcome
                            } else {
                                advance_not_found(pre, post, "MSGVAULT_HOME"@, 0)
                            }
                        },
                        Option::None => advance_not_found(pre, post, "MSGVAULT_HOME"@, 0),
                    }
                },
                Option::None => advance_not_found(pre, post, "MSGVAULT_HOME"@, 0),
            }
        },
        (Phase::EnvPing { url, api_key }, DiscoveryInput::PingOutcome { reachable }) => {
            if reachable {
                finished_with(
                    pre,
                    post,
                    "MSGVAULT_HOME"@,
                    url@,
                    opt_str_view(api_key),
                    DiscoverySource::EnvVar,
                )
            } else {
                advance_not_found(pre, post, "MSGVAULT_HOME"@, 0)
            }
        },
        (Phase::FileRead { idx }, DiscoveryInput::FileContents { contents }) => {
            let name = config_step_name(pre.paths@[idx as int]);
            match contents {
                Option::Some(c) => {
                    match toml_server_config(c@) {
                        Option::Some((u, k)) => {
                            if u.len() > 0 {
                                &&& post.steps@ == pre.steps@
                                &&& candidate_ping(post.phase, false, idx as int, u, k)
                                &&& post.outcome == pre.outcome
                            } else {
                                advance_not_found(pre, post, name, idx + 1)
                            }
                        },
                        Option::None => advance_not_found(pre, post, name, idx + 1),
                    }
                },
                Option::None => advance_not_found(pre, post, name, idx + 1),
            }
        },
        (Phase::FilePing { idx, url, api_key }, DiscoveryInput::PingOutcome { reachable }) => {
            let name = config_step_name(pre.paths@[idx as int]);
            if reachable {
                finished_with(
                    pre,
                    post,
                    name,
                    url@,
                    opt_str_view(api_key),
                    DiscoverySource::ConfigFile(pre.paths@[idx as int]),
                )
            } else {
                advance_not_found(pre, post, name, idx + 1)
            }
        },
        (Phase::PortPing { idx }, DiscoveryInput::PingOutcome { reachable }) => {
            let port = probe_port(idx as int);
            if reachable {
                finished_with(
                    pre,
                    post,
                    probe_step_name(port),
                    probe_url(port),
                    Option::None,
                    DiscoverySource::LocalhostProbe(port),
                )
            } else {
                if idx + 1 < 4 {
                    &&& post.steps@.len() == pre.steps@.len() + 1
                    &&& post.steps@.take(pre.steps@.len() as int) == pre.steps@
                    &&& post.steps@.last().name@ == probe_step_name(port)
                    &&& post.steps@.last().status == DiscoveryStepStatus::NotFound
                    &&& (post.phase matches Phase::PortPing { idx: j } && j == idx + 1)
                    &&& post.outcome == pre.outcome
                } else {
                    &&& post.steps@.len() == pre.steps@.len() + 2
                    &&& post.steps@.take(pre.steps@.len() as int) == pre.steps@
                    &&& post.steps@[pre.steps@.len() as int].name@ == probe_step_name(port)
                    &&& post.steps@[pre.steps@.len() as int].status
                        == DiscoveryStepStatus::NotFound
                    &&& post.steps@.last().name@ == "No server found"@
                    &&& post.steps@.last().status == DiscoveryStepStatus::NotFound
                    &&& post.phase matches Phase::Finished
                    &&& (post.outcome matches Some(res) && res.server_url matches Option::None
                        && res.api_key matches Option::None && res.source
                        == DiscoverySource::NeedsWizard && res.steps@ == post.steps@)
                }
            }
        },
        _ => {
            &&& post.steps@ == pre.steps@
            &&& post.phase == pre.phase
            &&& post.outcome == pre.outcome
        },
    }
}

/// The discovery chain as an explicit state machine: the caller asks for the
/// next request, performs it, and reports the outcome.
#[derive(Debug, Clone)]
pub struct DiscoveryEngine {
    /// The config file paths to try, in order.
    pub paths: Vec<String>,
    /// Every step tried so far, in order.
    pub steps: Vec<DiscoveryStep>,
    /// Where the chain stands.
    pub phase: Phase,
    /// The result, once the chain is finished.
    pub outcome: Option<DiscoveryResult>,
}

impl DiscoveryEngine {
    /// A well-formed engine: indexes in range, an outcome exactly when
    /// finished.
    pub open spec fn wf(self) -> bool {
        &&& (self.phase matches Phase::FileRead { idx } ==> idx < self.paths@.len())
        &&& (self.phase matches Phase::FilePing { idx, .. } ==> idx < self.paths@.len())
        &&& (self.phase matches Phase::PortPing { idx } ==> idx < 4)
        &&& ((self.phase matches Phase::Finished) <==> (self.outcome matches Some(_)))
    }

    /// A fresh engine over the given candidate config paths, about to try
    /// the environment override.
    pub fn new(paths: Vec<String>) -> (r: Self)
        ensures
            r.wf(),
            r.paths == paths,
            r.steps@.len() == 0,
            r.phase matches Phase::EnvRead,
            r.outcome matches Option::None,
    {
        DiscoveryEngine { paths, steps: Vec::new(), phase: Phase::EnvRead, outcome: None }
    }

    /// What the caller should do next.
    pub fn next_request(&self) -> (r: DiscoveryRequest)
        requires
            self.wf(),
        ensures
            match self.phase {
                Phase::EnvRead => r matches DiscoveryRequest::ReadEnvConfig,
                Phase::EnvPing { url, .. } => r matches DiscoveryRequest::Ping { url: u } && u@
                    == url@,
                Phase::FileRead { idx } => r matches DiscoveryRequest::ReadFile { path } && path@
                    == self.paths@[idx as int]@,
                Phase::FilePing { url, .. } => r matches DiscoveryRequest::Ping { url: u } && u@
                    == url@,
                Phase::PortPing { idx } => r matches DiscoveryRequest::Ping { url: u } && u@
                    == probe_url(probe_port(idx as int)),
                Phase::Finished => r matches DiscoveryRequest::Done { result } && (
                self.outcome matches Some(res) && result.server_url == res.server_url
                    && result.api_key == res.api_key && result.source == res.source
                    && result.steps@ == res.steps@),
            },
    {
        match &self.phase {
            Phase::EnvRead => DiscoveryRequest::ReadEnvConfig,
            Phase::EnvPing { url, .. } => DiscoveryRequest::Ping { url: url.clone() },
            Phase::FileRead { idx } => DiscoveryRequest::ReadFile {
                path: self.paths[*idx].clone(),
            },
            Phase::FilePing { url, .. } => DiscoveryRequest::Ping { url: url.clone() },
            Phase::PortPing { idx } => DiscoveryRequest::Ping {
                url: probe_url_at(probe_port_at(*idx)),
            },
            Phase::Finished => {
                match &self.outcome {
                    Some(res) => DiscoveryRequest::Done { result: res.duplicate() },
                    None => {
                        proof {
                            assert(false);
                        }
                        DiscoveryRequest::ReadEnvConfig
                    },
                }
            },
        }
    }

    fn advance(&mut self, name: String, k: usize)
        requires
            k <= old(self).paths@.len(),
            old(self).outcome matches Option::None,
        ensures
            advance_not_found(*old(self), *final(self), name@, k as int),
            final(self).phase matches Phase::FileRead { .. } || final(self).phase
                matches Phase::PortPing { .. },
            final(self).wf(),
            final(self).paths == old(self).paths,
            final(self).outcome == old(self).outcome,
    {
        self.steps.push(DiscoveryStep { name, status: DiscoveryStepStatus::NotFound });
        if k < self.paths.len() {
            self.phase = Phase::FileRead { idx: k };
        } else {
            self.phase = Phase::PortPing { idx: 0 };
        }
        proof {
            assert(self.steps@.take(old(self).steps@.len() as int) =~= old(self).steps@);
        }
    }

    fn finish(
        &mut self,
        name: String,
        url: String,
        api_key: Option<String>,
        source: DiscoverySource,
    )
        ensures
            finished_with(*old(self), *final(self), name@, url@, opt_str_view(api_key), source),
            final(self).wf(),
            final(self).paths == old(self).paths,
    {
        self.steps.push(DiscoveryStep { name, status: DiscoveryStepStatus::Found(url.clone()) });
        let steps = clone_steps(&self.steps);
        self.outcome = Some(DiscoveryResult { server_url: Some(url), api_key, source, steps });
        self.phase = Phase::Finished;
        proof {
            assert(self.steps@.take(old(self).steps@.len() as int) =~= old(self).steps@);
        }
    }

    /// Feed the outcome of the last request back in and move the chain
    /// forward.
    pub fn step(&mut self, input: DiscoveryInput)
        requires
            old(self).wf(),
        ensures
            final(self).wf(),
            engine_step_post(*old(self), input, *final(self)),
    {
        let mut ph = Phase::EnvRead;
        core::mem::swap(&mut self.phase, &mut ph);
        match ph {
            Phase::EnvRead => {
                match input {
                    DiscoveryInput::EnvConfig { contents: Some(c) } => {
                        match parse_server_config(c.as_str()) {
                            Some((url, api_key)) => {
                                match config_candidate(url, api_key) {
                                    Some((url, api_key)) => {
                                        self.phase = Phase::EnvPing { url, api_key };
                                    },
                                    None => {
                                        self.advance("MSGVAULT_HOME".to_owned(), 0);
                                    },
                                }
                            },
                            None => {
                                self.advance("MSGVAULT_HOME".to_owned(), 0);
                            },
                        }
                    },
                    DiscoveryInput::EnvConfig { contents: None } => {
                        self.advance("MSGVAULT_HOME".to_owned(), 0);
                    },
                    _ => {
                        self.phase = Phase::EnvRead;
                    },
                }
            },
            Phase::EnvPing { url, api_key } => {
                match input {
                    DiscoveryInput::PingOutcome { reachable: true } => {
                        self.finish("MSGVAULT_HOME".to_owned(), url, api_key, DiscoverySource::EnvVar);
                    },
                    DiscoveryInput::PingOutcome { reachable: false } => {
                        self.advance("MSGVAULT_HOME".to_owned(), 0);
                    },
                    _ => {
                        self.phase = Phase::EnvPing { url, api_key };
                    },
                }
            },
            Phase::FileRead { idx } => {
                let path_count = self.paths.len();
                proof {
                    assert(idx < path_count);
                }
                match input {
                    DiscoveryInput::FileContents { contents: Some(c) } => {
                        match parse_server_config(c.as_str()) {
                            Some((url, api_key)) => {
                                match config_candidate(url, api_key) {
                                    Some((url, api_key)) => {
                                        self.phase = Phase::FilePing { idx, url, api_key };
                                    },
                                    None => {
                                        let name = "Config: ".to_owned().concat(
                                            self.paths[idx].as_str(),
                                        );
                                        self.advance(name, idx + 1);
                                    },
                                }
                            },
                            None => {
                                let name = "Config: ".to_owned().concat(self.paths[idx].as_str());
                                self.advance(name, idx + 1);
                            },
                        }
                    },
                    DiscoveryInput::FileContents { contents: None } => {
                        let name = "Config: ".to_owned().concat(self.paths[idx].as_str());
                        self.advance(name, idx + 1);
                    },
                    _ => {
                        self.phase = Phase::FileRead { idx };
                    },
                }
            },
            Phase::FilePing { idx, url, api_key } => {
                let path_count = self.paths.len();
                proof {
                    assert(idx < path_count);
                }
                match input {
                    DiscoveryInput::PingOutcome { reachable: true } => {
                        let name = "Config: ".to_owned().concat(self.paths[idx].as_str());
                        let source = DiscoverySource::ConfigFile(self.paths[idx].clone());
                        self.finish(name, url, api_key, source);
                    },
                    DiscoveryInput::PingOutcome { reachable: false } => {
                        let name = "Config: ".to_owned().concat(self.paths[idx].as_str());
                        self.advance(name, idx + 1);
                    },
                    _ => {
                        self.phase = Phase::FilePing { idx, url, api_key };
                    },
                }
            },
            Phase::PortPing { idx } => {
                let port = probe_port_at(idx);
                let name = "Probe: localhost:".to_owned().concat(i64_to_string(port as i64).as_str());
                match input {
                    DiscoveryInput::PingOutcome { reachable: true } => {
                        self.finish(name, probe_url_at(port), None, DiscoverySource::LocalhostProbe(port));
                    },
                    DiscoveryInput::PingOutcome { reachable: false } => {
                        self.steps.push(DiscoveryStep { name, status: DiscoveryStepStatus::NotFound });
                        if idx + 1 < 4 {
                            self.phase = Phase::PortPing { idx: idx + 1 };
                            proof {
                                assert(self.steps@.take(old(self).steps@.len() as int) =~= old(
                                    self,
                                ).steps@);
                            }
                        } else {
                            self.steps.push(
                                DiscoveryStep {
                                    name: "No server found".to_owned(),
                                    status: DiscoveryStepStatus::NotFound,
                                },
                            );
                            let steps = clone_steps(&self.steps);
                            self.outcome = Some(
                                DiscoveryResult {
                                    server_url: None,
                                    api_key: None,
                                    source: DiscoverySource::NeedsWizard,
                                    steps,
                                },
                            );
                            self.phase = Phase::Finished;
                            proof {
                                assert(self.steps@.take(old(self).steps@.len() as int) =~= old(
                                    self,
                                ).steps@);
                            }
                        }
                    },
                    _ => {
                        self.phase = Phase::PortPing { idx };
                    },
                }
            },
            Phase::Finished => {
                self.phase = Phase::Finished;
            },
        }
    }
}

} // verus!