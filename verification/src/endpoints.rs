//! The endpoint catalog: the six fixed Onionoo endpoints, their paths and
//! canonical names, and their relay/bridge applicability groupings.

use vstd::prelude::*;

verus! {

/// Base URL of the public Onionoo service.
pub const BASE_URL: &'static str = "https://onionoo.torproject.org";

/// The six endpoints of the protocol. The catalog is closed: no other
/// endpoint exists.
#[derive(Debug, Clone, Copy, PartialEq, Eq, Structural)]
pub enum Endpoint {
    /// Short summaries of relays and bridges.
    Summary,
    /// The full attribute set of relays and bridges.
    Details,
    /// Bandwidth time series of relays and bridges.
    Bandwidth,
    /// Path-selection probability time series; relays only.
    Weights,
    /// Average-clients time series; bridges only.
    Clients,
    /// Fractional-uptime time series of relays and bridges.
    Uptime,
}

/// The response document shape each endpoint returns.
#[derive(Debug, Clone, Copy, PartialEq, Eq, Structural)]
pub enum ResponseType {
    Summary,
    Details,
    Bandwidth,
    Weights,
    Clients,
    Uptime,
}

pub open spec fn spec_path(e: Endpoint) -> Seq<char> {
    match e {
        Endpoint::Summary => "/summary"@,
        Endpoint::Details => "/details"@,
        Endpoint::Bandwidth => "/bandwidth"@,
        Endpoint::Weights => "/weights"@,
        Endpoint::Clients => "/clients"@,
        Endpoint::Uptime => "/uptime"@,
    }
}

pub open spec fn spec_name(e: Endpoint) -> Seq<char> {
    match e {
        Endpoint::Summary => "summary"@,
        Endpoint::Details => "details"@,
        Endpoint::Bandwidth => "bandwidth"@,
        Endpoint::Weights => "weights"@,
        Endpoint::Clients => "clients"@,
        Endpoint::Uptime => "uptime"@,
    }
}

impl Endpoint {
    /// Every endpoint is queried with HTTP GET.
    pub fn method(&self) -> (r: &'static str)
        ensures
            r@ == "GET"@,
    {
        match self {
            Endpoint::Summary => "GET",
            Endpoint::Details => "GET",
            Endpoint::Bandwidth => "GET",
            Endpoint::Weights => "GET",
            Endpoint::Clients => "GET",
            Endpoint::Uptime => "GET",
        }
    }

    /// The fixed URL path of the endpoint.
    pub fn path(&self) -> (r: &'static str)
        ensures
            r@ == spec_path(*self),
    {
        match self {
            Endpoint::Summary => "/summary",
            Endpoint::Details => "/details",
            Endpoint::Bandwidth => "/bandwidth",
            Endpoint::Weights => "/weights",
            Endpoint::Clients => "/clients",
            Endpoint::Uptime => "/uptime",
        }
    }

    /// The endpoint's URL on the public service.
    pub fn url(&self) -> (r: String)
        ensures
            r@ == BASE_URL@ + spec_path(*self),
    {
        let mut r = BASE_URL.to_owned();
        r.append(self.path());
        r
    }

    /// The canonical lower-case name of the endpoint.
    pub fn name(&self) -> (r: &'static str)
        ensures
            r@ == spec_name(*self),
    {
        match self {
            Endpoint::Summary => "summary",
            Endpoint::Details => "details",
            Endpoint::Bandwidth => "bandwidth",
            Endpoint::Weights => "weights",
            Endpoint::Clients => "clients",
            Endpoint::Uptime => "uptime",
        }
    }

    /// The document shape this endpoint's responses take.
    pub fn response_type(&self) -> (r: ResponseType)
        ensures
            r == spec_response_type(*self),
    {
        match self {
            Endpoint::Summary => ResponseType::Summary,
            Endpoint::Details => ResponseType::Details,
            Endpoint::Bandwidth => ResponseType::Bandwidth,
            Endpoint::Weights => ResponseType::Weights,
            Endpoint::Clients => ResponseType::Clients,
            Endpoint::Uptime => ResponseType::Uptime,
        }
    }
}

pub open spec fn spec_response_type(e: Endpoint) -> ResponseType {
    match e {
        Endpoint::Summary => ResponseType::Summary,
        Endpoint::Details => ResponseType::Details,
        Endpoint::Bandwidth => ResponseType::Bandwidth,
        Endpoint::Weights => ResponseType::Weights,
        Endpoint::Clients => ResponseType::Clients,
        Endpoint::Uptime => ResponseType::Uptime,
    }
}

/// All six endpoints, in catalog order.
pub fn all_endpoints() -> (r: Vec<Endpoint>)
    ensures
        r@ == seq![
            Endpoint::Summary,
            Endpoint::Details,
            Endpoint::Bandwidth,
            Endpoint::Weights,
            Endpoint::Clients,
            Endpoint::Uptime,
        ],
{
    let mut r: Vec<Endpoint> = Vec::new();
    r.push(Endpoint::Summary);
    r.push(Endpoint::Details);
    r.push(Endpoint::Bandwidth);
    r.push(Endpoint::Weights);
    r.push(Endpoint::Clients);
    r.push(Endpoint::Uptime);
    proof {
        assert(r@ =~= seq![
            Endpoint::Summary,
            Endpoint::Details,
            Endpoint::Bandwidth,
            Endpoint::Weights,
            Endpoint::Clients,
            Endpoint::Uptime,
        ]);
    }
    r
}

/// The four endpoints that apply to relays and bridges alike.
pub fn relay_bridge_endpoints() -> (r: Vec<Endpoint>)
    ensures
        r@ == seq![Endpoint::Summary, Endpoint::Details, Endpoint::Bandwidth, Endpoint::Uptime],
{
    let mut r: Vec<Endpoint> = Vec::new();
    r.push(Endpoint::Summary);
    r.push(Endpoint::Details);
    r.push(Endpoint::Bandwidth);
    r.push(Endpoint::Uptime);
    proof {
        assert(r@ =~= seq![
            Endpoint::Summary,
            Endpoint::Details,
            Endpoint::Bandwidth,
            Endpoint::Uptime,
        ]);
    }
    r
}

/// The one endpoint that applies to relays only.
pub fn relay_only_endpoints() -> (r: Vec<Endpoint>)
    ensures
        r@ == seq![Endpoint::Weights],
{
    let mut r: Vec<Endpoint> = Vec::new();
    r.push(Endpoint::Weights);
    proof {
        assert(r@ =~= seq![Endpoint::Weights]);
    }
    r
}

/// The one endpoint that applies to bridges only.
pub fn bridge_only_endpoints() -> (r: Vec<Endpoint>)
    ensures
        r@ == seq![Endpoint::Clients],
{
    let mut r: Vec<Endpoint> = Vec::new();
    r.push(Endpoint::Clients);
    proof {
        assert(r@ =~= seq![Endpoint::Clients]);
    }
    r
}

/// What a name, once folded to lower case, selects from the catalog.
pub open spec fn spec_find_by_name(lowered: Seq<char>) -> Option<Endpoint> {
    if lowered == "summary"@ {
        Some(Endpoint::Summary)
    } else if lowered == "details"@ {
        Some(Endpoint::Details)
    } else if lowered == "bandwidth"@ {
        Some(Endpoint::Bandwidth)
    } else if lowered == "weights"@ {
        Some(Endpoint::Weights)
    } else if lowered == "clients"@ {
        Some(Endpoint::Clients)
    } else if lowered == "uptime"@ {
        Some(Endpoint::Uptime)
    } else {
        None
    }
}

/// The lower-case folding of a string, as `str::to_lowercase` computes it.
pub uninterp spec fn lower_of(s: Seq<char>) -> Seq<char>;

/// Relies on `str::to_lowercase`: the result is the Unicode lower-case
/// folding of the input and depends on the input characters alone.
#[verifier::external_body]
fn lowercase(s: &str) -> (r: String)
    ensures
        r@ == lower_of(s@),
{
    s.to_lowercase()
}

/// Case-insensitive lookup of an endpoint by its canonical name.
pub fn find_by_name(name: &str) -> (r: Option<Endpoint>)
    ensures
        r == spec_find_by_name(lower_of(name@)),
{
    let lowered = lowercase(name);
    if lowered == "summary".to_owned() {
        Some(Endpoint::Summary)
    } else if lowered == "details".to_owned() {
        Some(Endpoint::Details)
    } else if lowered == "bandwidth".to_owned() {
        Some(Endpoint::Bandwidth)
    } else if lowered == "weights".to_owned() {
        Some(Endpoint::Weights)
    } else if lowered == "clients".to_owned() {
        Some(Endpoint::Clients)
    } else if lowered == "uptime".to_owned() {
        Some(Endpoint::Uptime)
    } else {
        None
    }
}

} // verus!
