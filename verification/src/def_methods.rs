//! The data shapes of the polling API.
//!
//! Every successful response carries a [`Header`] holding the text form of
//! the owning category's version stamp, so pollers can short-circuit
//! unchanged payloads (see [`crate::conditional`]). The transport that
//! serializes these shapes and serves them lives outside this crate; here
//! stand the records themselves and their constructors.

use std::collections::HashMap;
use vstd::prelude::*;

verus! {

/// The versioning header attached to every successful response: the text
/// form of the category's current stamp, plus the method and key the
/// response answers.
#[derive(Clone, Debug, PartialEq, Eq)]
pub struct Header {
    /// Name of the method this response answers.
    pub method: String,
    /// Instance id of the category's stamp, in text form.
    pub method_uuid: Option<String>,
    /// Sequence id of the category's stamp, in text form.
    pub data_uuid: Option<String>,
    /// The key (e.g. the workdir) the response is about.
    pub key: Option<String>,
}

impl Default for Header {
    /// An empty header: no method, no stamp, no key.
    fn default() -> (r: Self)
        ensures
            r.method@ == Seq::<char>::empty(),
            r.method_uuid is None,
            r.data_uuid is None,
            r.key is None,
    {
        Header { method: String::new(), method_uuid: None, data_uuid: None, key: None }
    }
}

/// Health statistics of one RPC/websocket link.
#[derive(Clone, Debug, PartialEq, Eq)]
pub struct LinkStats {
    /// The alias of the link, as specified in the config file.
    pub alias: String,
    /// Empty string, "OK" or "DOWN".
    pub status: String,
    pub health_pct: String,
    pub load_pct: String,
    pub resp_time: String,
    pub success_pct: String,
    /// Sometimes more info when DOWN.
    pub error_info: String,
}

impl LinkStats {
    /// Fresh statistics for the link called `alias`: every other field
    /// starts empty.
    pub fn new(alias: String) -> (r: Self)
        ensures
            r.alias == alias,
            r.status@ == Seq::<char>::empty(),
            r.health_pct@ == Seq::<char>::empty(),
            r.load_pct@ == Seq::<char>::empty(),
            r.resp_time@ == Seq::<char>::empty(),
            r.success_pct@ == Seq::<char>::empty(),
            r.error_info@ == Seq::<char>::empty(),
    {
        LinkStats {
            alias,
            status: String::new(),
            health_pct: String::new(),
            load_pct: String::new(),
            resp_time: String::new(),
            success_pct: String::new(),
            error_info: String::new(),
        }
    }
}

impl Default for LinkStats {
    /// Statistics with every field empty.
    fn default() -> (r: Self)
        ensures
            r.alias@ == Seq::<char>::empty(),
            r.status@ == Seq::<char>::empty(),
            r.health_pct@ == Seq::<char>::empty(),
            r.load_pct@ == Seq::<char>::empty(),
            r.resp_time@ == Seq::<char>::empty(),
            r.success_pct@ == Seq::<char>::empty(),
            r.error_info@ == Seq::<char>::empty(),
    {
        LinkStats::new(String::new())
    }
}

/// Counters over all requests of a workdir; each request is counted only
/// once, even when retried.
#[derive(Clone, Debug, PartialEq, Eq)]
pub struct LinksSummary {
    pub success_on_first_attempt: u64,
    pub success_on_retry: u64,
    pub fail_network_down: u64,
    pub fail_bad_request: u64,
    pub fail_others: u64,
}

impl LinksSummary {
    /// All counters at zero.
    pub fn new() -> (r: Self)
        ensures
            r.success_on_first_attempt == 0,
            r.success_on_retry == 0,
            r.fail_network_down == 0,
            r.fail_bad_request == 0,
            r.fail_others == 0,
    {
        LinksSummary {
            success_on_first_attempt: 0,
            success_on_retry: 0,
            fail_network_down: 0,
            fail_bad_request: 0,
            fail_others: 0,
        }
    }
}

impl Default for LinksSummary {
    /// All counters at zero, as `new` builds it.
    fn default() -> (r: Self)
        ensures
            r.success_on_first_attempt == 0,
            r.success_on_retry == 0,
            r.fail_network_down == 0,
            r.fail_bad_request == 0,
            r.fail_others == 0,
    {
        LinksSummary::new()
    }
}

/// Response to a links query: combined status plus optional detail.
#[derive(Clone, Debug, PartialEq, Eq)]
pub struct LinksResponse {
    pub header: Header,
    /// Single word combined multi-link status: "OK" or "DOWN".
    pub status: String,
    /// More details about the status.
    pub info: String,
    pub summary: Option<LinksSummary>,
    pub links: Option<Vec<LinkStats>>,
    /// The output when the option 'display' is true.
    pub display: Option<String>,
    /// The output when the option 'debug' is true.
    pub debug: Option<String>,
}

impl LinksResponse {
    /// The placeholder answered before any link data exists.
    pub fn new() -> (r: Self)
        ensures
            r.header.method_uuid is None,
            r.header.data_uuid is None,
            r.status@ == "DISABLED"@,
            r.info@ == "INITIALIZING"@,
            r.summary is None,
            r.links is None,
            r.display is None,
            r.debug is None,
    {
        LinksResponse {
            header: Header::default(),
            status: "DISABLED".to_owned(),
            info: "INITIALIZING".to_owned(),
            summary: None,
            links: None,
            display: None,
            debug: None,
        }
    }
}

/// Response to a notification: a header plus one line of information.
#[derive(Clone, Debug, PartialEq, Eq)]
pub struct InfoResponse {
    pub header: Header,
    /// "Success" or info on failure.
    pub info: String,
}

impl InfoResponse {
    /// The placeholder answered before a real outcome is known.
    pub fn new() -> (r: Self)
        ensures
            r.header.method_uuid is None,
            r.header.data_uuid is None,
            r.info@ == "Unknown Error"@,
    {
        InfoResponse { header: Header::default(), info: "Unknown Error".to_owned() }
    }
}

/// Finer-grained status of one process/feature/service.
#[derive(Clone, Debug, PartialEq, Eq)]
pub struct StatusService {
    /// "localnet process", "proxy server", "multi-link RPC" and the like.
    pub label: String,
    /// OK, DOWN, DEGRADED.
    pub status: Option<String>,
    /// Info related to status.
    pub status_info: Option<String>,
    /// Short help info (e.g. the faucet URL).
    pub help_info: Option<String>,
    pub pid: Option<u64>,
}

impl StatusService {
    /// A service entry with only its label known.
    pub fn new(label: String) -> (r: Self)
        ensures
            r.label == label,
            r.status is None,
            r.status_info is None,
            r.help_info is None,
            r.pid is None,
    {
        StatusService { label, status: None, status_info: None, help_info: None, pid: None }
    }
}

/// Response to a status query.
#[derive(Clone, Debug, PartialEq, Eq)]
pub struct StatusResponse {
    pub header: Header,
    /// Single word combined multi-link status: "OK" or "DOWN".
    pub status: Option<String>,
    /// More details about the status.
    pub status_info: Option<String>,
    pub client_version: Option<String>,
    pub network_version: Option<String>,
    pub asui_selection: Option<String>,
    /// Finer grain status for each process/feature/service.
    pub services: Option<Vec<StatusService>>,
    /// The output when the option 'display' is true.
    pub display: Option<String>,
    /// The output when the option 'debug' is true.
    pub debug: Option<String>,
}

impl StatusResponse {
    /// An empty status response: everything still unknown.
    pub fn new() -> (r: Self)
        ensures
            r.header.method_uuid is None,
            r.header.data_uuid is None,
            r.status is None,
            r.status_info is None,
            r.client_version is None,
            r.network_version is None,
            r.asui_selection is None,
            r.services is None,
            r.display is None,
            r.debug is None,
    {
        StatusResponse {
            header: Header::default(),
            status: None,
            status_info: None,
            client_version: None,
            network_version: None,
            asui_selection: None,
            services: None,
            display: None,
            debug: None,
        }
    }
}

impl Default for StatusResponse {
    /// An empty status response, as `new` builds it.
    fn default() -> (r: Self)
        ensures
            r.status is None,
            r.services is None,
    {
        StatusResponse::new()
    }
}

/// One event of a package, as the daemon recorded it.
#[derive(Clone, Debug, PartialEq, Eq)]
pub struct SuiEvents {
    pub message: String,
    pub timestamp: String,
}

/// Response to an events query.
#[derive(Clone, Debug, PartialEq, Eq)]
pub struct SuiEventsResponse {
    pub header: Header,
    pub events: Option<Vec<SuiEvents>>,
}

impl SuiEventsResponse {
    /// An empty events response.
    pub fn new() -> (r: Self)
        ensures
            r.header.method_uuid is None,
            r.header.data_uuid is None,
            r.events is None,
    {
        SuiEventsResponse { header: Header::default(), events: None }
    }
}

impl Default for SuiEventsResponse {
    /// An empty events response, as `new` builds it.
    fn default() -> (r: Self)
        ensures
            r.events is None,
    {
        SuiEventsResponse::new()
    }
}

/// Response to a mutating request: whether it succeeded, with optional
/// detail.
#[derive(Clone, Debug, PartialEq, Eq)]
pub struct SuccessResponse {
    pub header: Header,
    pub result: bool,
    pub info: Option<String>,
}

impl SuccessResponse {
    /// A response that does not report success yet.
    pub fn new() -> (r: Self)
        ensures
            r.header.method_uuid is None,
            r.header.data_uuid is None,
            r.result == false,
            r.info is None,
    {
        SuccessResponse { header: Header::default(), result: false, info: None }
    }
}

impl Default for SuccessResponse {
    /// A response that does not report success, as `new` builds it.
    fn default() -> (r: Self)
        ensures
            r.result == false,
            r.info is None,
    {
        SuccessResponse::new()
    }
}

/// One object created on package initialization.
#[derive(Clone, Debug, PartialEq, Eq)]
pub struct SuiObjectInstance {
    object_id: String,
}

impl SuiObjectInstance {
    /// The object's identifier, as specifications see it.
    pub closed spec fn spec_object_id(&self) -> Seq<char> {
        self.object_id@
    }

    /// An instance naming the object `object_id`.
    pub fn new(object_id: String) -> (r: Self)
        ensures
            r.spec_object_id() == object_id@,
    {
        SuiObjectInstance { object_id }
    }

    /// Read the object's identifier.
    pub fn object_id(&self) -> (r: &str)
        ensures
            r@ == self.spec_object_id(),
    {
        self.object_id.as_str()
    }
}

/// One publish instance of a package.
#[derive(Clone, Debug, PartialEq, Eq)]
pub struct PackageInstance {
    pub package_id: String,
    pub package_name: String,
    pub package_timestamp: String,
    pub init_objects: Option<Vec<SuiObjectInstance>>,
}

impl PackageInstance {
    /// A publish instance before its created objects are known.
    pub fn new(package_id: String, package_name: String, package_timestamp: String) -> (r: Self)
        ensures
            r.package_id == package_id,
            r.package_name == package_name,
            r.package_timestamp == package_timestamp,
            r.init_objects is None,
    {
        PackageInstance { package_id, package_name, package_timestamp, init_objects: None }
    }
}

/// Publish bookkeeping for one Move.toml: its location, its latest
/// publish, and the instances published before that.
#[derive(Clone, Debug, PartialEq, Eq)]
pub struct MoveConfig {
    /// Last reported location of the .toml files.
    pub path: Option<String>,
    /// Last publish instance of the package.
    pub latest_package: Option<PackageInstance>,
    /// Packages previously published (does not include the current).
    pub older_packages: Vec<PackageInstance>,
}

impl MoveConfig {
    /// Bookkeeping with nothing published or located yet.
    pub fn new() -> (r: Self)
        ensures
            r.path is None,
            r.latest_package is None,
            r.older_packages@ == Seq::<PackageInstance>::empty(),
    {
        MoveConfig { path: None, latest_package: None, older_packages: Vec::new() }
    }
}

impl Default for MoveConfig {
    /// Empty bookkeeping, as `new` builds it.
    fn default() -> (r: Self)
        ensures
            r.path is None,
            r.latest_package is None,
            r.older_packages@ == Seq::<PackageInstance>::empty(),
    {
        MoveConfig::new()
    }
}

/// Response to a package-configuration query: one entry per distinct
/// Move.toml published, keyed by the digest of the uuid defined beside it.
/// The `MoveConfig` paths must all be distinct.
#[derive(Clone, Debug, PartialEq, Eq)]
pub struct PackagesConfigResponse {
    pub header: Header,
    pub move_configs: Option<HashMap<String, MoveConfig>>,
    /// The output when the option 'display' is true.
    pub display: Option<String>,
    /// The output when the option 'debug' is true.
    pub debug: Option<String>,
}

impl PackagesConfigResponse {
    /// An empty package-configuration response.
    pub fn new() -> (r: Self)
        ensures
            r.header.method_uuid is None,
            r.header.data_uuid is None,
            r.move_configs is None,
            r.display is None,
            r.debug is None,
    {
        PackagesConfigResponse { header: Header::default(), move_configs: None, display: None, debug: None }
    }
}

impl Default for PackagesConfigResponse {
    /// An empty package-configuration response, as `new` builds it.
    fn default() -> (r: Self)
        ensures
            r.move_configs is None,
    {
        PackagesConfigResponse::new()
    }
}

} // verus!
