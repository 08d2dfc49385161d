//! The response document model: the six endpoint document shapes and their
//! shared substructures.
//!
//! All structures are plain value data, created fresh by the decoders in
//! [`crate::decode`] and never mutated. Fields that are optional on the wire
//! are `Option`s; absence is `None`, never a default sentinel. Numbers that
//! the protocol leaves fractional (scaling factors, probabilities,
//! coordinates) are carried as [`JsonNumber`], their exact decimal text.

use vstd::prelude::*;

verus! {

/// A JSON number carried as its decimal text, exactly as serde_json prints
/// it: integers as plain digits, floats in shortest round-trip form.
#[derive(Debug, Clone, PartialEq, Eq)]
pub struct JsonNumber(pub String);

impl View for JsonNumber {
    type V = Seq<char>;

    open spec fn view(&self) -> Seq<char> {
        self.0@
    }
}

impl DeepView for JsonNumber {
    type V = Seq<char>;

    open spec fn deep_view(&self) -> Seq<char> {
        self.0@
    }
}

impl JsonNumber {
    /// The number's decimal text.
    pub fn as_text(&self) -> (r: &str)
        ensures
            r@ == self@,
    {
        self.0.as_str()
    }
}

/// Top-level response structure shared by all six endpoints. `T` is the
/// relay entry type and `U` the bridge entry type; for Weights responses
/// `U` is `()` and for Clients responses `T` is `()`.
#[derive(Debug)]
pub struct OnionooResponse<T, U> {
    /// Protocol version of the service.
    pub version: String,
    /// When the next protocol major version becomes mandatory, if scheduled.
    pub next_major_version_scheduled: Option<String>,
    /// Build revision of the service software, if reported.
    pub build_revision: Option<String>,
    /// Publication time of the relay network status the snapshot is from.
    pub relays_published: String,
    /// Number of relays skipped by the `offset` parameter, if any.
    pub relays_skipped: Option<u64>,
    /// The relay entries, in service order.
    pub relays: Vec<T>,
    /// Number of relays truncated by the `limit` parameter, if any.
    pub relays_truncated: Option<u64>,
    /// Publication time of the bridge network status the snapshot is from.
    pub bridges_published: String,
    /// Number of bridges skipped by the `offset` parameter, if any.
    pub bridges_skipped: Option<u64>,
    /// The bridge entries, in service order.
    pub bridges: Vec<U>,
    /// Number of bridges truncated by the `limit` parameter, if any.
    pub bridges_truncated: Option<u64>,
}

/// Summary document response.
pub type SummaryResponse = OnionooResponse<RelaySummary, BridgeSummary>;

/// Details document response.
pub type DetailsResponse = OnionooResponse<RelayDetails, BridgeDetails>;

/// Bandwidth document response.
pub type BandwidthResponse = OnionooResponse<RelayBandwidth, BridgeBandwidth>;

/// Weights document response; the bridge entries are always empty.
pub type WeightsResponse = OnionooResponse<RelayWeights, ()>;

/// Clients document response; the relay entries are always empty.
pub type ClientsResponse = OnionooResponse<(), BridgeClients>;

/// Uptime document response.
pub type UptimeResponse = OnionooResponse<RelayUptime, BridgeUptime>;

/// Relay entry of a summary document.
#[derive(Debug)]
pub struct RelaySummary {
    /// Relay nickname.
    pub n: String,
    /// Relay fingerprint: 40 upper-case hexadecimal characters.
    pub f: String,
    /// Addresses where the relay accepts onion-routing connections.
    pub a: Vec<String>,
    /// Whether the relay was listed as running in the last consensus.
    pub r: bool,
}

/// Bridge entry of a summary document.
#[derive(Debug)]
pub struct BridgeSummary {
    /// Bridge nickname.
    pub n: String,
    /// SHA-1 hash of the bridge fingerprint.
    pub h: String,
    /// Whether the bridge was successfully tested as running.
    pub r: bool,
}

/// Relay entry of a details document. Identity fields are mandatory; the
/// rest is individually optional.
#[derive(Debug)]
pub struct RelayDetails {
    /// Relay nickname.
    pub nickname: String,
    /// Relay fingerprint: 40 upper-case hexadecimal characters.
    pub fingerprint: String,
    /// Addresses and ports where the relay accepts onion-routing connections.
    pub or_addresses: Vec<String>,
    /// IPv4 addresses the relay used to exit in the past day.
    pub exit_addresses: Option<Vec<String>>,
    /// Address and port where the relay accepts directory connections.
    pub dir_address: Option<String>,
    /// When the relay was last seen in a consensus.
    pub last_seen: String,
    /// When the relay last changed an announced address or port.
    pub last_changed_address_or_port: String,
    /// When the relay was first seen in a consensus.
    pub first_seen: String,
    /// Whether the relay was listed as running in the last consensus.
    pub running: bool,
    /// Whether the relay indicated it is hibernating.
    pub hibernating: Option<bool>,
    /// Relay flags assigned by the directory authorities.
    pub flags: Option<Vec<String>>,
    /// Two-letter lower-case country code.
    pub country: Option<String>,
    /// Country name.
    pub country_name: Option<String>,
    /// Region name.
    pub region_name: Option<String>,
    /// City name.
    pub city_name: Option<String>,
    /// Latitude; fractional, carried as decimal text.
    pub latitude: Option<JsonNumber>,
    /// Longitude; fractional, carried as decimal text.
    pub longitude: Option<JsonNumber>,
    /// AS number, from the wire field `as`.
    pub as_number: Option<String>,
    /// AS name.
    pub as_name: Option<String>,
    /// Weight assigned by the directory authorities.
    pub consensus_weight: u64,
    /// Host names with verified A records.
    pub verified_host_names: Option<Vec<String>>,
    /// Host names without verified A records.
    pub unverified_host_names: Option<Vec<String>>,
    /// When the relay was last restarted.
    pub last_restarted: Option<String>,
    /// Sustained bandwidth in bytes per second.
    pub bandwidth_rate: Option<u64>,
    /// Burst bandwidth in bytes per second.
    pub bandwidth_burst: Option<u64>,
    /// Observed bandwidth capacity in bytes per second.
    pub observed_bandwidth: Option<u64>,
    /// Advertised bandwidth in bytes per second.
    pub advertised_bandwidth: Option<u64>,
    /// When the relay reached an overloaded state, if it did.
    pub overload_general_timestamp: Option<u64>,
    /// Exit-policy lines.
    pub exit_policy: Option<Vec<String>>,
    /// Summary of the exit policy.
    pub exit_policy_summary: Option<ExitPolicySummary>,
    /// Summary of the IPv6 exit policy.
    pub exit_policy_v6_summary: Option<ExitPolicySummary>,
    /// Contact address of the operator.
    pub contact: Option<String>,
    /// Platform string: operating system and Tor version.
    pub platform: Option<String>,
    /// Tor software version, without the leading "Tor".
    pub version: Option<String>,
    /// Whether the running version is recommended.
    pub recommended_version: Option<bool>,
    /// Status of the running version.
    pub version_status: Option<String>,
    /// Fingerprints in an effective, mutual family relationship.
    pub effective_family: Option<Vec<String>>,
    /// Fingerprints in an alleged, one-sided family relationship.
    pub alleged_family: Option<Vec<String>>,
    /// Fingerprints reachable through effective family relationships.
    pub indirect_family: Option<Vec<String>>,
    /// Fraction of the total consensus weight; carried as decimal text.
    pub consensus_weight_fraction: Option<JsonNumber>,
    /// Probability of selection for the guard position; decimal text.
    pub guard_probability: Option<JsonNumber>,
    /// Probability of selection for the middle position; decimal text.
    pub middle_probability: Option<JsonNumber>,
    /// Probability of selection for the exit position; decimal text.
    pub exit_probability: Option<JsonNumber>,
    /// Whether the consensus weight is based on measurements.
    pub measured: Option<bool>,
    /// Announced addresses that are unreachable.
    pub unreachable_or_addresses: Option<Vec<String>>,
}

/// Bridge entry of a details document.
#[derive(Debug)]
pub struct BridgeDetails {
    /// Bridge nickname.
    pub nickname: String,
    /// SHA-1 hash of the bridge fingerprint.
    pub hashed_fingerprint: String,
    /// Sanitized addresses and ports where the bridge accepts connections.
    pub or_addresses: Vec<String>,
    /// When the bridge was last seen in a bridge network status.
    pub last_seen: String,
    /// When the bridge was first seen in a bridge network status.
    pub first_seen: String,
    /// Whether the bridge was successfully tested as running.
    pub running: bool,
    /// Relay flags assigned by the bridge authority.
    pub flags: Option<Vec<String>>,
    /// When the bridge was last restarted.
    pub last_restarted: Option<String>,
    /// Advertised bandwidth in bytes per second.
    pub advertised_bandwidth: Option<u64>,
    /// When the bridge reached an overloaded state, if it did.
    pub overload_general_timestamp: Option<u64>,
    /// Platform string: operating system and Tor version.
    pub platform: Option<String>,
    /// Tor software version, without the leading "Tor".
    pub version: Option<String>,
    /// Whether the running version is recommended.
    pub recommended_version: Option<bool>,
    /// Status of the running version.
    pub version_status: Option<String>,
    /// Pluggable transport names the bridge supports.
    pub transports: Option<Vec<String>>,
    /// Country codes where the bridge is believed blocked.
    pub blocklist: Option<Vec<String>>,
    /// BridgeDB distributor the bridge is assigned to.
    pub bridgedb_distributor: Option<String>,
    /// Contact address of the operator.
    pub contact: Option<String>,
}

/// Summary version of an exit policy.
#[derive(Debug)]
pub struct ExitPolicySummary {
    /// Accepted port ranges.
    pub accept: Option<Vec<String>>,
    /// Rejected port ranges.
    pub reject: Option<Vec<String>>,
}

/// Relay entry of a bandwidth document.
#[derive(Debug)]
pub struct RelayBandwidth {
    /// Relay fingerprint.
    pub fingerprint: String,
    /// Written-bytes history by retention window.
    pub write_history: Option<BandwidthHistory>,
    /// Read-bytes history by retention window.
    pub read_history: Option<BandwidthHistory>,
    /// Overload rate-limit indicators.
    pub overload_ratelimits: Option<OverloadRatelimits>,
    /// Overload file-descriptor-exhaustion indicators.
    pub overload_fd_exhausted: Option<OverloadFdExhausted>,
}

/// Bridge entry of a bandwidth document.
#[derive(Debug)]
pub struct BridgeBandwidth {
    /// SHA-1 hash of the bridge fingerprint.
    pub fingerprint: String,
    /// Written-bytes history by retention window.
    pub write_history: Option<BandwidthHistory>,
    /// Read-bytes history by retention window.
    pub read_history: Option<BandwidthHistory>,
    /// Overload rate-limit indicators.
    pub overload_ratelimits: Option<OverloadRatelimits>,
    /// Overload file-descriptor-exhaustion indicators.
    pub overload_fd_exhausted: Option<OverloadFdExhausted>,
}

/// Bandwidth history, one optional series per retention window.
#[derive(Debug)]
pub struct BandwidthHistory {
    /// History over one month, from the wire field `1_month`.
    pub one_month: Option<GraphHistory>,
    /// History over six months, from the wire field `6_months`.
    pub six_months: Option<GraphHistory>,
    /// History over one year, from the wire field `1_year`.
    pub one_year: Option<GraphHistory>,
    /// History over five years, from the wire field `5_years`.
    pub five_years: Option<GraphHistory>,
}

/// Overload rate-limit indicators.
#[derive(Debug)]
pub struct OverloadRatelimits {
    /// When the overload state was reached.
    pub timestamp: Option<u64>,
    /// Configured rate limit, from the wire field `rate-limit`.
    pub rate_limit: Option<u64>,
    /// Configured burst limit, from the wire field `burst-limit`.
    pub burst_limit: Option<u64>,
    /// Read overload count, from the wire field `read-overload-count`.
    pub read_overload_count: Option<u64>,
    /// Write overload count, from the wire field `write-overload-count`.
    pub write_overload_count: Option<u64>,
}

/// Overload file-descriptor-exhaustion indicator.
#[derive(Debug)]
pub struct OverloadFdExhausted {
    /// When the exhaustion was observed.
    pub timestamp: Option<u64>,
}

/// Relay entry of a weights document.
#[derive(Debug)]
pub struct RelayWeights {
    /// Relay fingerprint.
    pub fingerprint: String,
    /// History of the relay's fraction of the total consensus weight.
    pub consensus_weight_fraction: Option<WeightHistory>,
    /// History of the guard-position selection probability.
    pub guard_probability: Option<WeightHistory>,
    /// History of the middle-position selection probability.
    pub middle_probability: Option<WeightHistory>,
    /// History of the exit-position selection probability.
    pub exit_probability: Option<WeightHistory>,
    /// History of the absolute consensus weight.
    pub consensus_weight: Option<WeightHistory>,
}

/// Weight history, one optional series per retention window.
#[derive(Debug)]
pub struct WeightHistory {
    /// History over one month, from the wire field `1_month`.
    pub one_month: Option<GraphHistory>,
    /// History over six months, from the wire field `6_months`.
    pub six_months: Option<GraphHistory>,
    /// History over one year, from the wire field `1_year`.
    pub one_year: Option<GraphHistory>,
    /// History over five years, from the wire field `5_years`.
    pub five_years: Option<GraphHistory>,
}

/// Bridge entry of a clients document.
#[derive(Debug)]
pub struct BridgeClients {
    /// SHA-1 hash of the bridge fingerprint.
    pub fingerprint: String,
    /// History of the average number of connecting clients.
    pub average_clients: Option<ClientsHistory>,
}

/// Clients history, one optional series per retention window.
#[derive(Debug)]
pub struct ClientsHistory {
    /// History over one month, from the wire field `1_month`.
    pub one_month: Option<GraphHistory>,
    /// History over six months, from the wire field `6_months`.
    pub six_months: Option<GraphHistory>,
    /// History over one year, from the wire field `1_year`.
    pub one_year: Option<GraphHistory>,
    /// History over five years, from the wire field `5_years`.
    pub five_years: Option<GraphHistory>,
}

/// Relay entry of an uptime document.
#[derive(Debug)]
pub struct RelayUptime {
    /// Relay fingerprint.
    pub fingerprint: String,
    /// Fractional-uptime history.
    pub uptime: Option<UptimeHistory>,
    /// Per-flag fractional-time history; the flag name set is open-ended.
    pub flags: Option<FlagHistory>,
}

/// Bridge entry of an uptime document.
#[derive(Debug)]
pub struct BridgeUptime {
    /// SHA-1 hash of the bridge fingerprint.
    pub fingerprint: String,
    /// Fractional-uptime history.
    pub uptime: Option<UptimeHistory>,
}

/// Uptime history, one optional series per retention window.
#[derive(Debug)]
pub struct UptimeHistory {
    /// History over one month, from the wire field `1_month`.
    pub one_month: Option<GraphHistory>,
    /// History over six months, from the wire field `6_months`.
    pub six_months: Option<GraphHistory>,
    /// History over one year, from the wire field `1_year`.
    pub one_year: Option<GraphHistory>,
    /// History over five years, from the wire field `5_years`.
    pub five_years: Option<GraphHistory>,
}

/// Per-flag uptime history: a mapping from flag name to history, in the
/// order the wire object lists the flags.
#[derive(Debug)]
pub struct FlagHistory {
    /// One entry per flag name.
    pub flags: Vec<(String, UptimeHistory)>,
}

/// A normalized, factor-scaled time series. To recover the real-world
/// magnitude of a sample, multiply its raw value by `factor`; an absent
/// sample means no data for that slot, never zero.
#[derive(Debug)]
pub struct GraphHistory {
    /// UTC timestamp of the first data point, passed through verbatim.
    pub first: String,
    /// UTC timestamp of the last data point, passed through verbatim.
    pub last: String,
    /// Seconds between two data points.
    pub interval: u64,
    /// Multiplicative scaling factor; fractional, carried as decimal text.
    pub factor: JsonNumber,
    /// Declared number of provided data points, if stated.
    pub count: Option<u64>,
    /// Normalized samples in [0, 999]; `None` is a slot without data.
    pub values: Vec<Option<JsonNumber>>,
}

} // verus!
