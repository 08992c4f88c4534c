//! The decisions of launching a browser and opening pages in it.
use vstd::prelude::*;
use crate::commands::{add_script_to_evaluate_on_new_document, attach_to_target, create_target, is_command, navigate, page_enable};
use crate::connection::client::CdpRequest;
use crate::error::XcelerateError;
use crate::json::Json;
use crate::reply::{is_serde_error, string_field, string_member};
use crate::text::{decimal, push_decimal, push_text};

verus! {

/// How a browser is launched.
pub struct BrowserConfig {
    /// Whether the browser runs without a window.
    pub headless: bool,
    /// Whether the executable is patched and pages get the stealth script.
    pub stealth: bool,
    /// Whether the browser process outlives the launcher.
    pub detached: bool,
    /// The executable to run; when absent, the usual install locations are
    /// searched.
    pub executable_path: Option<String>,
}

impl Default for BrowserConfig {
    /// Headless, stealthy, detached, with the executable searched for.
    fn default() -> (r: BrowserConfig)
        ensures
            r.headless,
            r.stealth,
            r.detached,
            r.executable_path is None,
    {
        BrowserConfig { headless: true, stealth: true, detached: true, executable_path: None }
    }
}

/// The install locations searched for a browser, in order: Chrome, Chrome
/// (32-bit), then Edge.
pub open spec fn chrome_candidates() -> Seq<Seq<char>> {
    seq![
        "C:\\Program Files\\Google\\Chrome\\Application\\chrome.exe"@,
        "C:\\Program Files (x86)\\Google\\Chrome\\Application\\chrome.exe"@,
        "C:\\Program Files (x86)\\Microsoft\\Edge\\Application\\msedge.exe"@,
    ]
}

fn candidate_paths() -> (r: Vec<&'static str>)
    ensures
        r@.len() == chrome_candidates().len(),
        forall|i: int| 0 <= i < r@.len() ==> #[trigger] r@[i]@ == chrome_candidates()[i],
{
    let mut r: Vec<&'static str> = Vec::new();
    r.push("C:\\Program Files\\Google\\Chrome\\Application\\chrome.exe");
    r.push("C:\\Program Files (x86)\\Google\\Chrome\\Application\\chrome.exe");
    r.push("C:\\Program Files (x86)\\Microsoft\\Edge\\Application\\msedge.exe");
    r
}

/// Whether something exists at `path` (std's `Path::exists`). The answer
/// depends on the disk, so nothing is claimed of it.
#[verifier::external_body]
fn path_exists(path: &str) -> bool {
    std::path::Path::new(path).exists()
}

/// A record of a search over the install locations: `probes[i]` tells
/// whether the `i`-th location holds an executable. The locations are
/// probed in order, every probe before the last found nothing, and the
/// search stopped either at a location that holds one or after probing
/// them all.
pub open spec fn is_search_record(probes: Seq<bool>) -> bool {
    &&& 1 <= probes.len() <= chrome_candidates().len()
    &&& forall|j: int| 0 <= j < probes.len() - 1 ==> !#[trigger] probes[j]
    &&& (probes.len() == chrome_candidates().len() || probes[probes.len() - 1])
}

/// The location that a search with these probes chooses.
pub open spec fn chosen_location(probes: Seq<bool>) -> Option<Seq<char>> {
    match first_probe_found(probes, 0) {
        Some(k) => Some(chrome_candidates()[k as int]),
        None => None,
    }
}

/// The first install location at which a browser executable exists, found
/// by probing the locations in order (Chrome, Chrome x86, Edge) and
/// stopping at the first one that holds one. What the probes find depends
/// on the disk, so the contract states the result over the record of the
/// probes made: the location that `chosen_location` picks from a search
/// record, which is one of the install locations.
pub fn find_chrome_executable() -> (r: Option<String>)
    ensures
        r matches Some(p) ==> chrome_candidates().contains(p@),
        exists|probes: Seq<bool>|
            #[trigger] is_search_record(probes) && chosen_location(probes) == match r {
                Some(p) => Some(p@),
                None => None::<Seq<char>>,
            },
{
    let paths = candidate_paths();
    let mut present: Vec<bool> = Vec::new();
    let mut found = false;
    let mut i: usize = 0;
    while i < paths.len() && !found
        invariant
            paths@.len() == chrome_candidates().len(),
            i <= paths@.len(),
            present@.len() == i,
            found ==> i >= 1 && present@[i - 1],
            forall|j: int| 0 <= j < i && !(found && j == i - 1) ==> !#[trigger] present@[j],
        decreases paths.len() - i,
    {
        let here = path_exists(paths[i]);
        present.push(here);
        found = here;
        i = i + 1;
    }
    let r = first_existing_candidate(&present);
    proof {
        assert(is_search_record(present@));
        lemma_first_probe_in_range(present@, 0);
        if let Some(k) = first_probe_found(present@, 0) {
            assert(chrome_candidates().contains(chrome_candidates()[k as int]));
        }
    }
    r
}

/// A search chooses the location of its first probe that found an
/// executable; it finds nothing only when it probed every install
/// location and found nothing at any. So a search where Chrome is absent
/// and Edge is present chooses Edge.
pub proof fn lemma_search_choice(probes: Seq<bool>)
    requires
        is_search_record(probes),
    ensures
        chosen_location(probes) is None <==> (probes.len() == chrome_candidates().len() && forall|
            j: int,
        |
            0 <= j < chrome_candidates().len() ==> !#[trigger] probes[j]),
        chosen_location(probes) is Some ==> probes[probes.len() - 1] && chosen_location(probes)
            == Some(chrome_candidates()[probes.len() - 1]),
{
    lemma_first_probe_found_is_first(probes);
}

/// The first probe found is the first `true` among the searched locations,
/// and there is none only when no searched location holds an executable.
pub proof fn lemma_first_probe_found_is_first(probes: Seq<bool>)
    ensures
        match first_probe_found(probes, 0) {
            Some(k) => k < probes.len() && k < chrome_candidates().len() && probes[k as int]
                && forall|j: int| 0 <= j < k ==> !#[trigger] probes[j],
            None => forall|j: int|
                0 <= j < probes.len() && j < chrome_candidates().len() ==> !#[trigger] probes[j],
        },
{
    lemma_first_probe_from(probes, 0);
}

proof fn lemma_first_probe_from(probes: Seq<bool>, from: nat)
    ensures
        match first_probe_found(probes, from) {
            Some(k) => from <= k < probes.len() && k < chrome_candidates().len() && probes[k as int]
                && forall|j: int| from <= j < k ==> !#[trigger] probes[j],
            None => forall|j: int|
                from <= j < probes.len() && j < chrome_candidates().len() ==> !#[trigger] probes[j],
        },
    decreases probes.len() - from,
{
    if from < probes.len() && from < chrome_candidates().len() && !probes[from as int] {
        lemma_first_probe_from(probes, from + 1);
    }
}

/// The index of the first probe, from `from` on and among the searched
/// locations, that found an executable.
pub open spec fn first_probe_found(present: Seq<bool>, from: nat) -> Option<nat>
    decreases present.len() - from,
{
    if from >= present.len() || from >= chrome_candidates().len() {
        None
    } else if present[from as int] {
        Some(from)
    } else {
        first_probe_found(present, from + 1)
    }
}

/// A found index names one of the searched locations.
proof fn lemma_first_probe_in_range(present: Seq<bool>, from: nat)
    ensures
        first_probe_found(present, from) matches Some(k) ==> from <= k < chrome_candidates().len()
            && k < present.len() && present[k as int],
    decreases present.len() - from,
{
    if from < present.len() && from < chrome_candidates().len() && !present[from as int] {
        lemma_first_probe_in_range(present, from + 1);
    }
}

/// The location that a search chooses, given the probes of the searched
/// locations in order (`present[i]` tells whether the `i`-th holds an
/// executable): the first location whose probe found one, or none.
pub fn first_existing_candidate(present: &Vec<bool>) -> (r: Option<String>)
    ensures
        match first_probe_found(present@, 0) {
            Some(k) => r matches Some(p) && p@ == chrome_candidates()[k as int],
            None => r is None,
        },
{
    let paths = candidate_paths();
    let n = if present.len() < paths.len() {
        present.len()
    } else {
        paths.len()
    };
    let mut i: usize = 0;
    while i < n
        invariant
            paths@.len() == chrome_candidates().len(),
            forall|j: int| 0 <= j < paths@.len() ==> #[trigger] paths@[j]@ == chrome_candidates()[j],
            n <= present@.len(),
            n <= paths@.len(),
            n == present@.len() || n == paths@.len(),
            i <= n,
            first_probe_found(present@, 0) == first_probe_found(present@, i as nat),
        decreases n - i,
    {
        if present[i] {
            let found = paths[i].to_owned();
            return Some(found);
        }
        i = i + 1;
    }
    None
}

/// The message of a launch without an executable.
pub open spec fn no_executable_text() -> Seq<char> {
    "Chrome executable not found. Please specify executable_path."@
}

/// The executable that a launch runs, given the configured one and the
/// outcome of a search: the configured one when there is one, else the
/// found one, else `NotFound`.
pub fn choose_executable(configured: Option<String>, found: Option<String>) -> (r: Result<String, XcelerateError>)
    ensures
        match configured {
            Some(p) => r == Ok::<String, XcelerateError>(p),
            None => match found {
                Some(p) => r == Ok::<String, XcelerateError>(p),
                None => r matches Err(XcelerateError::NotFound(m)) && m@ == no_executable_text(),
            },
        },
{
    match configured {
        Some(p) => Ok(p),
        None => match found {
            Some(p) => Ok(p),
            None => Err(
                XcelerateError::NotFound(
                    "Chrome executable not found. Please specify executable_path.".to_owned(),
                ),
            ),
        },
    }
}

/// The executable that a launch runs: the configured one, or else the first
/// install location at which one exists (searched only when none is
/// configured), or else `NotFound`.
pub fn executable_for(config: &BrowserConfig) -> (r: Result<String, XcelerateError>)
    ensures
        match config.executable_path {
            Some(p) => r matches Ok(e) && e@ == p@,
            None => match r {
                Ok(e) => chrome_candidates().contains(e@),
                Err(e) => e matches XcelerateError::NotFound(m) && m@ == no_executable_text(),
            },
        },
{
    match &config.executable_path {
        Some(p) => Ok(p.clone()),
        None => choose_executable(None, find_chrome_executable()),
    }
}

/// The port of the browser's debugging endpoint.
pub const DEBUG_PORT: u16 = 9222;

/// The user agent of a headless browser: that of a desktop Chrome, so that
/// pages do not see "Headless".
pub open spec fn desktop_user_agent_flag() -> Seq<char> {
    "--user-agent=Mozilla/5.0 (Windows NT 10.0; Win64; x64) AppleWebKit/537.36 (KHTML, like Gecko) Chrome/124.0.0.0 Safari/537.36"@
}

/// The command-line arguments of a browser launch.
pub open spec fn launch_argument_texts(headless: bool, port: u16, user_data_dir: Seq<char>) -> Seq<Seq<char>> {
    let common = seq![
        "--remote-debugging-port="@ + decimal(port as nat),
        "--remote-debugging-address=127.0.0.1"@,
        "--user-data-dir="@ + user_data_dir,
        "--no-first-run"@,
        "--no-default-browser-check"@,
        "--remote-allow-origins=*"@,
    ];
    if headless {
        common + seq!["--headless=new"@, desktop_user_agent_flag()]
    } else {
        common
    }
}

fn flag_with(prefix: &str, value: &str) -> (r: String)
    ensures
        r@ == prefix@ + value@,
{
    let mut s = prefix.to_owned();
    push_text(&mut s, value);
    s
}

/// The command-line arguments of a browser launch: the debugging endpoint
/// on `port` of the loopback interface, a fresh profile in
/// `user_data_dir`, no first-run or default-browser prompts, connections
/// from any origin, and, when headless, the new headless mode with a
/// desktop user agent.
pub fn launch_arguments(headless: bool, port: u16, user_data_dir: &str) -> (r: Vec<String>)
    ensures
        r@.len() == launch_argument_texts(headless, port, user_data_dir@).len(),
        forall|i: int| 0 <= i < r@.len() ==> #[trigger] r@[i]@ == launch_argument_texts(
            headless,
            port,
            user_data_dir@,
        )[i],
{
    let mut args: Vec<String> = Vec::new();
    let mut port_flag = "--remote-debugging-port=".to_owned();
    push_decimal(&mut port_flag, port as u64);
    args.push(port_flag);
    args.push("--remote-debugging-address=127.0.0.1".to_owned());
    args.push(flag_with("--user-data-dir=", user_data_dir));
    args.push("--no-first-run".to_owned());
    args.push("--no-default-browser-check".to_owned());
    args.push("--remote-allow-origins=*".to_owned());
    if headless {
        args.push("--headless=new".to_owned());
        args.push(
            "--user-agent=Mozilla/5.0 (Windows NT 10.0; Win64; x64) AppleWebKit/537.36 (KHTML, like Gecko) Chrome/124.0.0.0 Safari/537.36".to_owned(),
        );
    }
    let ghost expected = launch_argument_texts(headless, port, user_data_dir@);
    assert forall|i: int| 0 <= i < args@.len() implies #[trigger] args@[i]@ == expected[i] by {}
    args
}

/// The address at which the browser describes its debugging endpoint.
pub open spec fn version_url_text(port: u16) -> Seq<char> {
    "http://127.0.0.1:"@ + decimal(port as nat) + "/json/version"@
}

/// The address at which the browser describes its debugging endpoint.
pub fn version_url(port: u16) -> (r: String)
    ensures
        r@ == version_url_text(port),
{
    let mut s = "http://127.0.0.1:".to_owned();
    push_decimal(&mut s, port as u64);
    push_text(&mut s, "/json/version");
    s
}

/// How many failed probes of the debugging endpoint a launch tolerates.
pub const MAX_PROBE_FAILURES: u32 = 100;

/// The pause after a failed probe, in milliseconds.
pub const PROBE_PAUSE_MS: u64 = 150;

/// What a probe of the debugging endpoint observed.
pub enum ProbeOutcome {
    /// The endpoint answered with this description.
    Answered(Json),
    /// The endpoint answered with a body that is not JSON.
    Unreadable,
    /// The endpoint did not answer.
    Unreachable,
}

/// What the launcher does next.
#[derive(Debug)]
pub enum ProbeAction {
    /// Connect to this WebSocket address.
    Connect(String),
    /// Probe again at once.
    ProbeAgain,
    /// Pause, then probe again.
    PauseThenProbe,
    /// Give up the launch with this error.
    Fail(XcelerateError),
}

/// The state of the wait for the debugging endpoint: how many probes in a
/// row failed to reach it.
pub struct EndpointProbe {
    failures: u32,
}

impl View for EndpointProbe {
    type V = u32;

    closed spec fn view(&self) -> u32 {
        self.failures
    }
}

/// The message of a launch whose endpoint never answered.
pub open spec fn probe_timeout_text() -> Seq<char> {
    "Timed out waiting for Chrome HTTP server"@
}

impl EndpointProbe {
    /// A wait with no failed probe yet.
    pub fn new() -> (r: EndpointProbe)
        ensures
            r@ == 0,
    {
        EndpointProbe { failures: 0 }
    }

    /// Whether the wait reached its end.
    pub open spec fn exhausted(&self) -> bool {
        self@ > MAX_PROBE_FAILURES
    }

    /// Whether the wait reached its end.
    pub fn is_exhausted(&self) -> (r: bool)
        ensures
            r == self.exhausted(),
    {
        self.failures > MAX_PROBE_FAILURES
    }

    /// Takes in what a probe observed and decides what follows, together
    /// with the count of failures to report, on every tenth failure.
    ///
    /// An answer that names the WebSocket address leads to the connection;
    /// another answer, to an immediate new probe; an unreadable body, to an
    /// internal error. A failed probe counts: the hundred-and-first in a row
    /// ends the launch, any other leads to a pause and a new probe.
    pub fn observe(&mut self, outcome: ProbeOutcome) -> (r: (Option<u32>, ProbeAction))
        requires
            !old(self).exhausted(),
        ensures
            match outcome {
                ProbeOutcome::Answered(description) => final(self)@ == old(self)@ && r.0 is None
                    && match description.at("webSocketDebuggerUrl"@).str_value() {
                    Some(url) => r.1 matches ProbeAction::Connect(u) && u@ == url,
                    None => r.1 is ProbeAgain,
                },
                ProbeOutcome::Unreadable => final(self)@ == old(self)@ && r.0 is None
                    && r.1 matches ProbeAction::Fail(XcelerateError::InternalError),
                ProbeOutcome::Unreachable => {
                    &&& final(self)@ == old(self)@ + 1
                    &&& r.0 == (if final(self)@ % 10 == 0 {
                        Some(final(self)@)
                    } else {
                        None::<u32>
                    })
                    &&& if final(self)@ > MAX_PROBE_FAILURES {
                        r.1 matches ProbeAction::Fail(XcelerateError::NotFound(m)) && m@
                            == probe_timeout_text()
                    } else {
                        r.1 is PauseThenProbe
                    }
                },
            },
    {
        match outcome {
            ProbeOutcome::Answered(description) => {
                let url = match description.lookup("webSocketDebuggerUrl") {
                    Some(u) => u.as_str(),
                    None => None,
                };
                match url {
                    Some(u) => (None, ProbeAction::Connect(u.to_owned())),
                    None => (None, ProbeAction::ProbeAgain),
                }
            },
            ProbeOutcome::Unreadable => (None, ProbeAction::Fail(XcelerateError::InternalError)),
            ProbeOutcome::Unreachable => {
                self.failures = self.failures + 1;
                let report = if self.failures % 10 == 0 {
                    Some(self.failures)
                } else {
                    None
                };
                if self.failures > MAX_PROBE_FAILURES {
                    (
                        report,
                        ProbeAction::Fail(
                            XcelerateError::NotFound(
                                "Timed out waiting for Chrome HTTP server".to_owned(),
                            ),
                        ),
                    )
                } else {
                    (report, ProbeAction::PauseThenProbe)
                }
            },
        }
    }
}

/// The browser's description of itself, read from a `Browser.getVersion`
/// reply: the product followed by the protocol version.
pub open spec fn version_description(product: Seq<char>, protocol: Seq<char>) -> Seq<char> {
    product + " (Protocol "@ + protocol + ")"@
}

/// The browser's description starts with the product exactly as the
/// browser names it, unaltered, followed by ` (Protocol `, the protocol
/// version and a closing parenthesis.
pub proof fn lemma_version_description_parts(product: Seq<char>, protocol: Seq<char>)
    ensures
        version_description(product, protocol).len() == product.len() + protocol.len() + 12,
        version_description(product, protocol).take(product.len() as int) == product,
        version_description(product, protocol).subrange(
            product.len() as int,
            product.len() + 11int,
        ) == " (Protocol "@,
        version_description(product, protocol).subrange(
            product.len() + 11int,
            product.len() + 11 + protocol.len() as int,
        ) == protocol,
        version_description(product, protocol).last() == ')',
{
    reveal_strlit(" (Protocol ");
    reveal_strlit(")");
    let t = version_description(product, protocol);
    assert(t.take(product.len() as int) =~= product);
    assert(t.subrange(product.len() as int, product.len() + 11int) =~= " (Protocol "@);
    assert(t.subrange(product.len() + 11int, product.len() + 11 + protocol.len() as int) =~= protocol);
}

/// Two browsers with different products are described differently.
pub proof fn lemma_version_description_keeps_product(p1: Seq<char>, p2: Seq<char>, protocol: Seq<char>)
    requires
        version_description(p1, protocol) == version_description(p2, protocol),
    ensures
        p1 == p2,
{
    lemma_version_description_parts(p1, protocol);
    lemma_version_description_parts(p2, protocol);
}

/// The browser's description of itself, read from a `Browser.getVersion`
/// reply; a reply whose members `product` and `protocolVersion` are not
/// both strings is a JSON error.
pub fn version_text(reply: &Json) -> (r: Result<String, XcelerateError>)
    ensures
        match (string_member(*reply, "product"@), string_member(*reply, "protocolVersion"@)) {
            (Ok(p), Ok(v)) => r matches Ok(s) && s@ == version_description(p, v),
            (Err(m), _) => r matches Err(e) && is_serde_error(e, m),
            (Ok(_), Err(m)) => r matches Err(e) && is_serde_error(e, m),
        },
{
    let product = string_field(reply, "product")?;
    let protocol = string_field(reply, "protocolVersion")?;
    let mut s = product;
    push_text(&mut s, " (Protocol ");
    push_text(&mut s, protocol.as_str());
    push_text(&mut s, ")");
    Ok(s)
}

/// The stage of opening a page.
#[derive(Debug, Clone, Copy, PartialEq, Eq, Structural)]
pub enum PageSetupStage {
    /// A blank tab is being created.
    Creating,
    /// The session on the new tab is being opened.
    Attaching,
    /// The stealth script is being registered for every new document.
    Injecting,
    /// The page domain is being enabled.
    Enabling,
    /// The tab is being sent to the requested address.
    Navigating,
    /// The page is open.
    Ready,
}

/// The characters of an optional session id.
pub open spec fn session_view(s: Option<String>) -> Option<Seq<char>> {
    match s {
        Some(s) => Some(s@),
        None => None,
    }
}

fn copy_session(s: &Option<String>) -> (r: Option<String>)
    ensures
        session_view(r) == session_view(*s),
{
    match s {
        Some(s) => Some(s.clone()),
        None => None,
    }
}

/// A command of the page opening, with the session it is addressed to.
pub struct SetupCommand {
    pub request: CdpRequest,
    pub session_id: Option<String>,
}

/// Opening a page: a blank tab is created and attached to first, so that
/// the stealth script, when there is one, is in place before the requested
/// address loads.
pub struct PageSetup {
    stage: PageSetupStage,
    url: String,
    stealth_script: Option<String>,
    session_id: Option<String>,
}

impl PageSetup {
    pub closed spec fn stage(&self) -> PageSetupStage {
        self.stage
    }

    pub closed spec fn url(&self) -> Seq<char> {
        self.url@
    }

    /// The stealth script, when pages get one.
    pub closed spec fn script(&self) -> Option<Seq<char>> {
        match self.stealth_script {
            Some(s) => Some(s@),
            None => None,
        }
    }

    /// The session of the new page, once attached.
    pub closed spec fn session(&self) -> Option<Seq<char>> {
        match self.session_id {
            Some(s) => Some(s@),
            None => None,
        }
    }

    /// Starts opening a page at `url`, with `stealth_script` run in every
    /// document when given. The first command creates a blank tab.
    pub fn start(url: &str, stealth_script: Option<&str>) -> (r: (PageSetup, SetupCommand))
        ensures
            r.0.stage() == PageSetupStage::Creating,
            r.0.url() == url@,
            r.0.script() == match stealth_script {
                Some(s) => Some(s@),
                None => None::<Seq<char>>,
            },
            r.0.session() is None,
            is_command(r.1.request, "Target.createTarget"@, seq!["url"@]),
            r.1.request.params.at("url"@).str_value() == Some("about:blank"@),
            r.1.session_id is None,
    {
        let setup = PageSetup {
            stage: PageSetupStage::Creating,
            url: url.to_owned(),
            stealth_script: match stealth_script {
                Some(s) => Some(s.to_owned()),
                None => None,
            },
            session_id: None,
        };
        (setup, SetupCommand { request: create_target("about:blank"), session_id: None })
    }

    /// The session of the page, once attached.
    pub fn session_id(&self) -> (r: Option<String>)
        ensures
            session_view(r) == self.session(),
    {
        copy_session(&self.session_id)
    }

    /// Takes in the reply to the last command and gives the next one, or
    /// `None` once the page is open. A reply whose member that the next
    /// command needs is missing or not a string is a JSON error.
    ///
    /// After the tab is created, the next command attaches to its
    /// `targetId`; after attaching, the page lives in the reply's
    /// `sessionId`, and the next command registers the stealth script when
    /// there is one, or else navigates; a registered script (the reply names
    /// its `identifier`) is followed by enabling the page domain, which is
    /// followed by the navigation; the navigation's reply ends the opening.
    pub fn advance(&mut self, reply: &Json) -> (r: Result<Option<SetupCommand>, XcelerateError>)
        requires
            old(self).stage() != PageSetupStage::Ready,
        ensures
            final(self).url() == old(self).url(),
            final(self).script() == old(self).script(),
            match old(self).stage() {
                PageSetupStage::Creating => match string_member(*reply, "targetId"@) {
                    Ok(t) => final(self).stage() == PageSetupStage::Attaching
                        && final(self).session() == old(self).session()
                        && (r matches Ok(Some(c)) && c.session_id is None
                        && is_command(c.request, "Target.attachToTarget"@, seq!["targetId"@, "flatten"@])
                        && c.request.params.at("targetId"@).str_value() == Some(t)
                        && c.request.params.at("flatten"@) == Json::Bool(true)),
                    Err(m) => *final(self) == *old(self) && (r matches Err(e) && is_serde_error(e, m)),
                },
                PageSetupStage::Attaching => match string_member(*reply, "sessionId"@) {
                    Ok(sid) => final(self).session() == Some(sid) && match old(self).script() {
                        Some(script) => final(self).stage() == PageSetupStage::Injecting
                            && (r matches Ok(Some(c)) && c.session_id matches Some(cs) && cs@ == sid
                            && is_command(c.request, "Page.addScriptToEvaluateOnNewDocument"@, seq!["source"@])
                            && c.request.params.at("source"@).str_value() == Some(script)),
                        None => final(self).stage() == PageSetupStage::Navigating
                            && (r matches Ok(Some(c)) && c.session_id matches Some(cs) && cs@ == sid
                            && is_command(c.request, "Page.navigate"@, seq!["url"@])
                            && c.request.params.at("url"@).str_value() == Some(old(self).url())),
                    },
                    Err(m) => *final(self) == *old(self) && (r matches Err(e) && is_serde_error(e, m)),
                },
                PageSetupStage::Injecting => match string_member(*reply, "identifier"@) {
                    Ok(_) => final(self).stage() == PageSetupStage::Enabling
                        && final(self).session() == old(self).session()
                        && (r matches Ok(Some(c)) && session_view(c.session_id) == old(self).session()
                        && is_command(c.request, "Page.enable"@, seq![])),
                    Err(m) => *final(self) == *old(self) && (r matches Err(e) && is_serde_error(e, m)),
                },
                PageSetupStage::Enabling => final(self).stage() == PageSetupStage::Navigating
                    && final(self).session() == old(self).session()
                    && (r matches Ok(Some(c)) && session_view(c.session_id) == old(self).session()
                    && is_command(c.request, "Page.navigate"@, seq!["url"@])
                    && c.request.params.at("url"@).str_value() == Some(old(self).url())),
                PageSetupStage::Navigating => final(self).stage() == PageSetupStage::Ready
                    && final(self).session() == old(self).session()
                    && r matches Ok(None),
                PageSetupStage::Ready => false,
            },
    {
        match self.stage {
            PageSetupStage::Creating => {
                let target = string_field(reply, "targetId")?;
                self.stage = PageSetupStage::Attaching;
                Ok(Some(SetupCommand { request: attach_to_target(target.as_str()), session_id: None }))
            },
            PageSetupStage::Attaching => {
                let session = string_field(reply, "sessionId")?;
                self.session_id = Some(session.clone());
                match &self.stealth_script {
                    Some(script) => {
                        self.stage = PageSetupStage::Injecting;
                        Ok(Some(SetupCommand {
                            request: add_script_to_evaluate_on_new_document(script.as_str()),
                            session_id: Some(session),
                        }))
                    },
                    None => {
                        self.stage = PageSetupStage::Navigating;
                        Ok(Some(SetupCommand { request: navigate(self.url.as_str()), session_id: Some(session) }))
                    },
                }
            },
            PageSetupStage::Injecting => {
                let _identifier = string_field(reply, "identifier")?;
                self.stage = PageSetupStage::Enabling;
                Ok(Some(SetupCommand { request: page_enable(), session_id: copy_session(&self.session_id) }))
            },
            PageSetupStage::Enabling => {
                self.stage = PageSetupStage::Navigating;
                Ok(Some(SetupCommand { request: navigate(self.url.as_str()), session_id: copy_session(&self.session_id) }))
            },
            PageSetupStage::Navigating => {
                self.stage = PageSetupStage::Ready;
                Ok(None)
            },
            PageSetupStage::Ready => Ok(None),
        }
    }
}

} // verus!
