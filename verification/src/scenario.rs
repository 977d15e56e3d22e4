//! What the simulated clients of a campaign do.
//!
//! A scenario is a declarative value: how each client's HTTP transport is set up
//! once, and which named groups of GET requests it then repeats. Building one
//! sends nothing.

use crate::decimal::{decimal, decimal_string};
use vstd::prelude::*;
use vstd::string::StringExecFns;

verus! {

/// Seconds after which a simulated client gives up on a request.
pub const REQUEST_TIMEOUT_SECS: u64 = 10;

/// How many times the letter `a` is repeated in the long name parameter.
pub const LONG_NAME_LEN: usize = 499;

/// How many lines the line generator is asked for.
pub const LINES_COUNT: usize = 10000;

/// Input size of the computation that is cheap for the target.
pub const EASY_SIZE: usize = 1000;

/// Input size of the computation that is expensive for the target.
pub const HARD_SIZE: usize = 10000000;

/// How the HTTP transport of one simulated client is set up.
#[derive(Clone, Debug, PartialEq, Eq)]
pub struct ClientSettings {
    /// The text by which the client identifies itself.
    pub user_agent: String,
    /// Whether cookies are kept between requests.
    pub cookie_store: bool,
    /// Whether gzip-encoded responses are accepted.
    pub gzip: bool,
    /// Whether brotli-encoded responses are accepted.
    pub brotli: bool,
    /// Seconds after which a request is given up.
    pub timeout_secs: u64,
}

/// One GET request of a workload.
#[derive(Clone, Debug, PartialEq, Eq)]
pub struct GetRequest {
    /// Path and query below the target host.
    pub path: String,
    /// The name under which the request appears in the metrics.
    pub name: String,
}

/// A named group of requests that a client sends one after the other.
#[derive(Clone, Debug, PartialEq, Eq)]
pub struct Behavior {
    /// The name of the group.
    pub name: String,
    /// Its requests, in the order in which they are sent.
    pub requests: Vec<GetRequest>,
}

/// All that a simulated client does in one campaign.
#[derive(Clone, Debug, PartialEq, Eq)]
pub struct ScenarioDefinition {
    /// The name of the scenario.
    pub name: String,
    /// The transport setup, applied once per client before any workload.
    pub setup: ClientSettings,
    /// The workloads that each client repeats.
    pub workloads: Vec<Behavior>,
}

/// The mathematical value of a [`ClientSettings`].
pub struct ClientSettingsView {
    pub user_agent: Seq<char>,
    pub cookie_store: bool,
    pub gzip: bool,
    pub brotli: bool,
    pub timeout_secs: nat,
}

/// The mathematical value of a [`GetRequest`].
pub struct GetRequestView {
    pub path: Seq<char>,
    pub name: Seq<char>,
}

/// The mathematical value of a [`Behavior`].
pub struct BehaviorView {
    pub name: Seq<char>,
    pub requests: Seq<GetRequestView>,
}

/// The mathematical value of a [`ScenarioDefinition`].
pub struct ScenarioView {
    pub name: Seq<char>,
    pub setup: ClientSettingsView,
    pub workloads: Seq<BehaviorView>,
}

impl View for ClientSettings {
    type V = ClientSettingsView;

    open spec fn view(&self) -> ClientSettingsView {
        ClientSettingsView {
            user_agent: self.user_agent@,
            cookie_store: self.cookie_store,
            gzip: self.gzip,
            brotli: self.brotli,
            timeout_secs: self.timeout_secs as nat,
        }
    }
}

impl View for GetRequest {
    type V = GetRequestView;

    open spec fn view(&self) -> GetRequestView {
        GetRequestView { path: self.path@, name: self.name@ }
    }
}

impl DeepView for GetRequest {
    type V = GetRequestView;

    open spec fn deep_view(&self) -> GetRequestView {
        self@
    }
}

impl View for Behavior {
    type V = BehaviorView;

    open spec fn view(&self) -> BehaviorView {
        BehaviorView { name: self.name@, requests: self.requests.deep_view() }
    }
}

impl DeepView for Behavior {
    type V = BehaviorView;

    open spec fn deep_view(&self) -> BehaviorView {
        self@
    }
}

impl View for ScenarioDefinition {
    type V = ScenarioView;

    open spec fn view(&self) -> ScenarioView {
        ScenarioView {
            name: self.name@,
            setup: self.setup@,
            workloads: self.workloads.deep_view(),
        }
    }
}

/// The transport setup for a compression mode: a fixed user agent, cookies kept,
/// a ten-second timeout, and both encodings accepted or both refused.
pub open spec fn client_settings_of(compressed: bool) -> ClientSettingsView {
    ClientSettingsView {
        user_agent: "http-load-tester/0.0.1"@,
        cookie_store: true,
        gzip: compressed,
        brotli: compressed,
        timeout_secs: REQUEST_TIMEOUT_SECS as nat,
    }
}

/// A request for `path`, reported as `name`.
pub open spec fn get(path: Seq<char>, name: Seq<char>) -> GetRequestView {
    GetRequestView { path, name }
}

/// The letter `a`, `n` times.
pub open spec fn letters(n: nat) -> Seq<char> {
    Seq::new(n, |i: int| 'a')
}

/// The greeting and line-generation endpoints.
pub open spec fn strings_behavior() -> BehaviorView {
    BehaviorView {
        name: "strings"@,
        requests: seq![
            get("/strings/hello"@, "hello"@),
            get("/strings/hello?name=cool%20gal"@, "hello-param"@),
            get("/strings/hello?name="@ + letters(LONG_NAME_LEN as nat), "hello-compressed"@),
            get("/strings/async-hello"@, "async-hello"@),
            get("/strings/lines?n="@ + decimal(LINES_COUNT as nat), "lines"@),
        ],
    }
}

/// The static assets: a page and an image.
pub open spec fn static_behavior() -> BehaviorView {
    BehaviorView {
        name: "static"@,
        requests: seq![
            get("/static/basic.html"@, "basic-html"@),
            get("/static/scout.webp"@, "scout-img"@),
        ],
    }
}

/// The computation endpoint, once with a small and once with a large input.
pub open spec fn math_behavior() -> BehaviorView {
    BehaviorView {
        name: "math"@,
        requests: seq![
            get("/math/power-reciprocals-alt?n="@ + decimal(EASY_SIZE as nat), "power-sum-easy"@),
            get("/math/power-reciprocals-alt?n="@ + decimal(HARD_SIZE as nat), "power-sum-hard"@),
        ],
    }
}

/// The workloads of every scenario, in the order in which they are registered.
pub open spec fn workloads() -> Seq<BehaviorView> {
    seq![strings_behavior(), static_behavior(), math_behavior()]
}

/// The name of the scenario for a compression mode.
pub open spec fn scenario_name_of(compressed: bool) -> Seq<char> {
    if compressed {
        "WithCompression"@
    } else {
        "NoCompression"@
    }
}

/// The scenario for a compression mode.
pub open spec fn scenario_of(compressed: bool) -> ScenarioView {
    ScenarioView {
        name: scenario_name_of(compressed),
        setup: client_settings_of(compressed),
        workloads: workloads(),
    }
}

/// With compression both encodings are accepted, without it both are refused,
/// and the workloads are the same either way.
pub proof fn lemma_modes_share_workloads()
    ensures
        scenario_of(true).setup.gzip && scenario_of(true).setup.brotli,
        !scenario_of(false).setup.gzip && !scenario_of(false).setup.brotli,
        scenario_of(true).workloads == scenario_of(false).workloads,
        scenario_of(true).setup == (ClientSettingsView {
            gzip: true,
            brotli: true,
            ..scenario_of(false).setup
        }),
{
}

/// Every request of every workload is reported under a name that is not its
/// path: each path starts at the root, and no name does.
pub proof fn lemma_names_differ_from_paths(workload: int, request: int)
    requires
        0 <= workload < workloads().len(),
        0 <= request < workloads()[workload].requests.len(),
    ensures
        workloads()[workload].requests[request].path.len() > 0,
        workloads()[workload].requests[request].path[0] == '/',
        workloads()[workload].requests[request].name.len() > 0,
        workloads()[workload].requests[request].name[0] != '/',
        workloads()[workload].requests[request].name != workloads()[workload].requests[request].path,
{
    reveal_strlit("/strings/hello");
    reveal_strlit("/strings/hello?name=cool%20gal");
    reveal_strlit("/strings/hello?name=");
    reveal_strlit("/strings/async-hello");
    reveal_strlit("/strings/lines?n=");
    reveal_strlit("/static/basic.html");
    reveal_strlit("/static/scout.webp");
    reveal_strlit("/math/power-reciprocals-alt?n=");
    reveal_strlit("hello");
    reveal_strlit("hello-param");
    reveal_strlit("hello-compressed");
    reveal_strlit("async-hello");
    reveal_strlit("lines");
    reveal_strlit("basic-html");
    reveal_strlit("scout-img");
    reveal_strlit("power-sum-easy");
    reveal_strlit("power-sum-hard");
}

/// The transport setup of the clients of a campaign.
pub fn client_settings(compressed: bool) -> (settings: ClientSettings)
    ensures
        settings@ == client_settings_of(compressed),
{
    ClientSettings {
        user_agent: String::from_str("http-load-tester/0.0.1"),
        cookie_store: true,
        gzip: compressed,
        brotli: compressed,
        timeout_secs: REQUEST_TIMEOUT_SECS,
    }
}

/// A request for `path`, reported as `name`.
fn named_get(path: String, name: &str) -> (request: GetRequest)
    ensures
        request@ == get(path@, name@),
{
    GetRequest { path, name: String::from_str(name) }
}

/// `prefix` followed by the decimal numeral of `n`.
fn with_number(prefix: &str, n: usize) -> (text: String)
    ensures
        text@ == prefix@ + decimal(n as nat),
{
    let mut text = String::from_str(prefix);
    let digits = decimal_string(n);
    text.append(digits.as_str());
    text
}

/// `prefix` followed by the letter `a`, `n` times.
fn with_letters(prefix: &str, n: usize) -> (text: String)
    ensures
        text@ == prefix@ + letters(n as nat),
{
    let mut text = String::from_str(prefix);
    let mut i: usize = 0;
    proof {
        reveal_strlit("a");
        assert(text@ =~= prefix@ + letters(0));
    }
    while i < n
        invariant
            i <= n,
            text@ == prefix@ + letters(i as nat),
            "a"@ == seq!['a'],
        decreases n - i,
    {
        text.append("a");
        i += 1;
        assert(text@ =~= prefix@ + letters(i as nat));
    }
    text
}

/// The `strings` workload.
pub fn strings_workload() -> (behavior: Behavior)
    ensures
        behavior@ == strings_behavior(),
{
    let mut requests: Vec<GetRequest> = Vec::new();
    requests.push(named_get(String::from_str("/strings/hello"), "hello"));
    requests.push(named_get(String::from_str("/strings/hello?name=cool%20gal"), "hello-param"));
    requests.push(
        named_get(with_letters("/strings/hello?name=", LONG_NAME_LEN), "hello-compressed"),
    );
    requests.push(named_get(String::from_str("/strings/async-hello"), "async-hello"));
    requests.push(named_get(with_number("/strings/lines?n=", LINES_COUNT), "lines"));
    assert(requests.deep_view() =~= strings_behavior().requests);
    Behavior { name: String::from_str("strings"), requests }
}

/// The `static` workload.
pub fn static_workload() -> (behavior: Behavior)
    ensures
        behavior@ == static_behavior(),
{
    let mut requests: Vec<GetRequest> = Vec::new();
    requests.push(named_get(String::from_str("/static/basic.html"), "basic-html"));
    requests.push(named_get(String::from_str("/static/scout.webp"), "scout-img"));
    assert(requests.deep_view() =~= static_behavior().requests);
    Behavior { name: String::from_str("static"), requests }
}

/// The `math` workload.
pub fn math_workload() -> (behavior: Behavior)
    ensures
        behavior@ == math_behavior(),
{
    let mut requests: Vec<GetRequest> = Vec::new();
    requests.push(
        named_get(with_number("/math/power-reciprocals-alt?n=", EASY_SIZE), "power-sum-easy"),
    );
    requests.push(
        named_get(with_number("/math/power-reciprocals-alt?n=", HARD_SIZE), "power-sum-hard"),
    );
    assert(requests.deep_view() =~= math_behavior().requests);
    Behavior { name: String::from_str("math"), requests }
}

/// The scenario that a campaign attaches for its compression mode.
pub fn build_scenario(compressed: bool) -> (scenario: ScenarioDefinition)
    ensures
        scenario@ == scenario_of(compressed),
{
    let name = if compressed {
        String::from_str("WithCompression")
    } else {
        String::from_str("NoCompression")
    };
    let mut behaviors: Vec<Behavior> = Vec::new();
    behaviors.push(strings_workload());
    behaviors.push(static_workload());
    behaviors.push(math_workload());
    assert(behaviors.deep_view() =~= workloads());
    ScenarioDefinition { name, setup: client_settings(compressed), workloads: behaviors }
}

} // verus!
