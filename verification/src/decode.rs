//! The response decoder: maps the JSON value tree into the document model.
//!
//! Every decoder is exact about both directions: it returns `Ok` precisely
//! when the tree has the document's shape — mandatory fields present with
//! the right type, optional fields absent, null, or well typed — and the
//! result's every field is pinned to the corresponding wire field. Unknown
//! keys are ignored; a missing optional field decodes to `None`.

use vstd::prelude::*;

verus! {

use crate::client::ClientError;
use crate::json::{Json, jfield, lookup, dec_u64_of, get, parse_u64, parse_json, json_of};
use crate::models::{JsonNumber, GraphHistory, BandwidthHistory, WeightHistory, ClientsHistory,
    UptimeHistory, FlagHistory, OverloadRatelimits, OverloadFdExhausted, ExitPolicySummary,
    RelaySummary, BridgeSummary, RelayBandwidth, BridgeBandwidth, RelayWeights, BridgeClients,
    RelayUptime, BridgeUptime, RelayDetails, BridgeDetails, OnionooResponse, SummaryResponse,
    DetailsResponse, BandwidthResponse, WeightsResponse, ClientsResponse, UptimeResponse};

// ---------------------------------------------------------------------------
// Field kinds: what a well-typed field is, and what it decodes to.
// ---------------------------------------------------------------------------

/// A required string field: present and a string.
pub open spec fn req_str_ok(j: Json, k: Seq<char>) -> bool {
    jfield(j, k) matches Some(Json::Str(_))
}

pub open spec fn req_str_val(j: Json, k: Seq<char>) -> Seq<char> {
    match jfield(j, k) {
        Some(Json::Str(s)) => s@,
        _ => Seq::empty(),
    }
}

/// An optional string field: absent, null, or a string.
pub open spec fn opt_str_ok(j: Json, k: Seq<char>) -> bool {
    match jfield(j, k) {
        None => true,
        Some(Json::Null) => true,
        Some(Json::Str(_)) => true,
        _ => false,
    }
}

pub open spec fn opt_str_val(j: Json, k: Seq<char>) -> Option<Seq<char>> {
    match jfield(j, k) {
        Some(Json::Str(s)) => Some(s@),
        _ => None,
    }
}

/// A required boolean field.
pub open spec fn req_bool_ok(j: Json, k: Seq<char>) -> bool {
    jfield(j, k) matches Some(Json::Bool(_))
}

pub open spec fn req_bool_val(j: Json, k: Seq<char>) -> bool {
    match jfield(j, k) {
        Some(Json::Bool(b)) => b,
        _ => false,
    }
}

/// An optional boolean field: absent, null, or a boolean.
pub open spec fn opt_bool_ok(j: Json, k: Seq<char>) -> bool {
    match jfield(j, k) {
        None => true,
        Some(Json::Null) => true,
        Some(Json::Bool(_)) => true,
        _ => false,
    }
}

pub open spec fn opt_bool_val(j: Json, k: Seq<char>) -> Option<bool> {
    match jfield(j, k) {
        Some(Json::Bool(b)) => Some(b),
        _ => None,
    }
}

/// A required unsigned integer field: a number whose text is a digit string
/// fitting in a `u64`.
pub open spec fn req_u64_ok(j: Json, k: Seq<char>) -> bool {
    match jfield(j, k) {
        Some(Json::Num(t)) => dec_u64_of(t@) is Some,
        _ => false,
    }
}

pub open spec fn req_u64_val(j: Json, k: Seq<char>) -> u64 {
    match jfield(j, k) {
        Some(Json::Num(t)) => match dec_u64_of(t@) {
            Some(n) => n,
            None => 0,
        },
        _ => 0,
    }
}

/// An optional unsigned integer field: absent, null, or a `u64` number.
pub open spec fn opt_u64_ok(j: Json, k: Seq<char>) -> bool {
    match jfield(j, k) {
        None => true,
        Some(Json::Null) => true,
        Some(Json::Num(t)) => dec_u64_of(t@) is Some,
        _ => false,
    }
}

pub open spec fn opt_u64_val(j: Json, k: Seq<char>) -> Option<u64> {
    match jfield(j, k) {
        Some(Json::Num(t)) => dec_u64_of(t@),
        _ => None,
    }
}

/// A required number field, carried as its decimal text.
pub open spec fn req_num_ok(j: Json, k: Seq<char>) -> bool {
    jfield(j, k) matches Some(Json::Num(_))
}

pub open spec fn req_num_val(j: Json, k: Seq<char>) -> Seq<char> {
    match jfield(j, k) {
        Some(Json::Num(t)) => t@,
        _ => Seq::empty(),
    }
}

/// An optional number field: absent, null, or a number.
pub open spec fn opt_num_ok(j: Json, k: Seq<char>) -> bool {
    match jfield(j, k) {
        None => true,
        Some(Json::Null) => true,
        Some(Json::Num(_)) => true,
        _ => false,
    }
}

pub open spec fn opt_num_val(j: Json, k: Seq<char>) -> Option<Seq<char>> {
    match jfield(j, k) {
        Some(Json::Num(t)) => Some(t@),
        _ => None,
    }
}

/// An array whose elements are all strings.
pub open spec fn str_arr_ok(x: Json) -> bool {
    match x {
        Json::Arr(a) => forall|i: int| 0 <= i < a@.len() ==> (#[trigger] a@[i]) is Str,
        _ => false,
    }
}

pub open spec fn str_of(e: Json) -> Seq<char> {
    match e {
        Json::Str(s) => s@,
        _ => Seq::empty(),
    }
}

pub open spec fn str_arr_val(x: Json) -> Seq<Seq<char>> {
    match x {
        Json::Arr(a) => Seq::new(a@.len(), |i: int| str_of(a@[i])),
        _ => Seq::empty(),
    }
}

/// A required string-array field.
pub open spec fn req_str_arr_ok(j: Json, k: Seq<char>) -> bool {
    match jfield(j, k) {
        Some(x) => str_arr_ok(x),
        None => false,
    }
}

pub open spec fn req_str_arr_val(j: Json, k: Seq<char>) -> Seq<Seq<char>> {
    match jfield(j, k) {
        Some(x) => str_arr_val(x),
        None => Seq::empty(),
    }
}

/// An optional string-array field: absent, null, or an array of strings.
pub open spec fn opt_str_arr_ok(j: Json, k: Seq<char>) -> bool {
    match jfield(j, k) {
        None => true,
        Some(Json::Null) => true,
        Some(x) => str_arr_ok(x),
    }
}

pub open spec fn opt_str_arr_val(j: Json, k: Seq<char>) -> Option<Seq<Seq<char>>> {
    match jfield(j, k) {
        None => None,
        Some(Json::Null) => None,
        Some(x) => Some(str_arr_val(x)),
    }
}

/// A sample slot: null for a missing sample, or a number.
pub open spec fn sample_ok(e: Json) -> bool {
    e is Null || e is Num
}

pub open spec fn sample_of(e: Json) -> Option<Seq<char>> {
    match e {
        Json::Num(t) => Some(t@),
        _ => None,
    }
}

/// A required array of optional samples, as a graph history's `values`.
pub open spec fn req_samples_ok(j: Json, k: Seq<char>) -> bool {
    match jfield(j, k) {
        Some(Json::Arr(a)) => forall|i: int| 0 <= i < a@.len() ==> sample_ok(#[trigger] a@[i]),
        _ => false,
    }
}

pub open spec fn req_samples_val(j: Json, k: Seq<char>) -> Seq<Option<Seq<char>>> {
    match jfield(j, k) {
        Some(Json::Arr(a)) => Seq::new(a@.len(), |i: int| sample_of(a@[i])),
        _ => Seq::empty(),
    }
}

// ---------------------------------------------------------------------------
// Executable field extractors.
// ---------------------------------------------------------------------------

fn field_err(key: &str) -> (e: ClientError)
    ensures
        e is Deserialization,
{
    let mut m = "missing or invalid field: ".to_owned();
    m.append(key);
    ClientError::Deserialization(m)
}

fn shape_err() -> (e: ClientError)
    ensures
        e is Deserialization,
{
    ClientError::Deserialization("expected a JSON object".to_owned())
}

/// Whether this value is a JSON object.
fn is_obj(j: &Json) -> (r: bool)
    ensures
        r == (*j is Obj),
{
    match j {
        Json::Obj(_) => true,
        _ => false,
    }
}

fn req_string(j: &Json, key: &str) -> (r: Result<String, ClientError>)
    ensures
        r matches Ok(s) ==> req_str_ok(*j, key@) && s@ == req_str_val(*j, key@),
        r matches Err(e) ==> !req_str_ok(*j, key@) && e is Deserialization,
{
    match get(j, key) {
        Some(Json::Str(s)) => Ok(s.clone()),
        _ => Err(field_err(key)),
    }
}

fn opt_string(j: &Json, key: &str) -> (r: Result<Option<String>, ClientError>)
    ensures
        r matches Ok(o) ==> opt_str_ok(*j, key@) && o.deep_view() == opt_str_val(*j, key@),
        r matches Err(e) ==> !opt_str_ok(*j, key@) && e is Deserialization,
{
    match get(j, key) {
        None => Ok(None),
        Some(Json::Null) => Ok(None),
        Some(Json::Str(s)) => Ok(Some(s.clone())),
        Some(_) => Err(field_err(key)),
    }
}

fn req_bool(j: &Json, key: &str) -> (r: Result<bool, ClientError>)
    ensures
        r matches Ok(b) ==> req_bool_ok(*j, key@) && b == req_bool_val(*j, key@),
        r matches Err(e) ==> !req_bool_ok(*j, key@) && e is Deserialization,
{
    match get(j, key) {
        Some(Json::Bool(b)) => Ok(*b),
        _ => Err(field_err(key)),
    }
}

fn opt_bool(j: &Json, key: &str) -> (r: Result<Option<bool>, ClientError>)
    ensures
        r matches Ok(o) ==> opt_bool_ok(*j, key@) && o == opt_bool_val(*j, key@),
        r matches Err(e) ==> !opt_bool_ok(*j, key@) && e is Deserialization,
{
    match get(j, key) {
        None => Ok(None),
        Some(Json::Null) => Ok(None),
        Some(Json::Bool(b)) => Ok(Some(*b)),
        Some(_) => Err(field_err(key)),
    }
}

fn req_u64(j: &Json, key: &str) -> (r: Result<u64, ClientError>)
    ensures
        r matches Ok(n) ==> req_u64_ok(*j, key@) && n == req_u64_val(*j, key@),
        r matches Err(e) ==> !req_u64_ok(*j, key@) && e is Deserialization,
{
    match get(j, key) {
        Some(Json::Num(t)) => match parse_u64(t.as_str()) {
            Some(n) => Ok(n),
            None => Err(field_err(key)),
        },
        _ => Err(field_err(key)),
    }
}

fn opt_u64(j: &Json, key: &str) -> (r: Result<Option<u64>, ClientError>)
    ensures
        r matches Ok(o) ==> opt_u64_ok(*j, key@) && o == opt_u64_val(*j, key@),
        r matches Err(e) ==> !opt_u64_ok(*j, key@) && e is Deserialization,
{
    match get(j, key) {
        None => Ok(None),
        Some(Json::Null) => Ok(None),
        Some(Json::Num(t)) => match parse_u64(t.as_str()) {
            Some(n) => Ok(Some(n)),
            None => Err(field_err(key)),
        },
        Some(_) => Err(field_err(key)),
    }
}

fn req_number(j: &Json, key: &str) -> (r: Result<JsonNumber, ClientError>)
    ensures
        r matches Ok(n) ==> req_num_ok(*j, key@) && n@ == req_num_val(*j, key@),
        r matches Err(e) ==> !req_num_ok(*j, key@) && e is Deserialization,
{
    match get(j, key) {
        Some(Json::Num(t)) => Ok(JsonNumber(t.clone())),
        _ => Err(field_err(key)),
    }
}

fn opt_number(j: &Json, key: &str) -> (r: Result<Option<JsonNumber>, ClientError>)
    ensures
        r matches Ok(o) ==> opt_num_ok(*j, key@) && o.deep_view() == opt_num_val(*j, key@),
        r matches Err(e) ==> !opt_num_ok(*j, key@) && e is Deserialization,
{
    match get(j, key) {
        None => Ok(None),
        Some(Json::Null) => Ok(None),
        Some(Json::Num(t)) => Ok(Some(JsonNumber(t.clone()))),
        Some(_) => Err(field_err(key)),
    }
}

/// Decodes an array of strings.
fn string_array(x: &Json, key: &str) -> (r: Result<Vec<String>, ClientError>)
    ensures
        r matches Ok(v) ==> str_arr_ok(*x) && v.deep_view() == str_arr_val(*x),
        r matches Err(e) ==> !str_arr_ok(*x) && e is Deserialization,
{
    match x {
        Json::Arr(items) => {
            proof {
                assert(*x == Json::Arr(*items));
            }
            let mut out: Vec<String> = Vec::new();
            let mut i: usize = 0;
            while i < items.len()
                invariant
                    *x == Json::Arr(*items),
                    0 <= i <= items@.len(),
                    out@.len() == i,
                    forall|k: int| 0 <= k < i ==> (#[trigger] items@[k]) is Str,
                    forall|k: int| 0 <= k < i ==> out.deep_view()[k] == str_of(items@[k]),
                decreases items@.len() - i,
            {
                let ghost out_before = out.deep_view();
                match &items[i] {
                    Json::Str(s) => out.push(s.clone()),
                    _ => {
                        proof {
                            assert(*x matches Json::Arr(a) && !((a@[i as int]) is Str));
                        }
                        return Err(field_err(key));
                    },
                }
                proof {
                    assert(out.deep_view() =~= out_before.push(str_of(items@[i as int])));
                }
                i = i + 1;
            }
            proof {
                assert(out.deep_view() =~= str_arr_val(*x));
            }
            Ok(out)
        },
        _ => Err(field_err(key)),
    }
}

fn req_string_array(j: &Json, key: &str) -> (r: Result<Vec<String>, ClientError>)
    ensures
        r matches Ok(v) ==> req_str_arr_ok(*j, key@) && v.deep_view() == req_str_arr_val(*j, key@),
        r matches Err(e) ==> !req_str_arr_ok(*j, key@) && e is Deserialization,
{
    match get(j, key) {
        Some(x) => string_array(x, key),
        None => Err(field_err(key)),
    }
}

fn opt_string_array(j: &Json, key: &str) -> (r: Result<Option<Vec<String>>, ClientError>)
    ensures
        r matches Ok(o) ==> opt_str_arr_ok(*j, key@) && o.deep_view() == opt_str_arr_val(*j, key@),
        r matches Err(e) ==> !opt_str_arr_ok(*j, key@) && e is Deserialization,
{
    match get(j, key) {
        None => Ok(None),
        Some(Json::Null) => Ok(None),
        Some(x) => match string_array(x, key) {
            Ok(v) => Ok(Some(v)),
            Err(e) => Err(e),
        },
    }
}

/// Decodes a graph history's `values` array: null slots to `None`, numbers
/// to their text.
fn req_samples(j: &Json, key: &str) -> (r: Result<Vec<Option<JsonNumber>>, ClientError>)
    ensures
        r matches Ok(v) ==> req_samples_ok(*j, key@) && v.deep_view() == req_samples_val(*j, key@),
        r matches Err(e) ==> !req_samples_ok(*j, key@) && e is Deserialization,
{
    match get(j, key) {
        Some(Json::Arr(items)) => {
            proof {
                assert(jfield(*j, key@) == Some(Json::Arr(*items)));
            }
            let mut out: Vec<Option<JsonNumber>> = Vec::new();
            let mut i: usize = 0;
            while i < items.len()
                invariant
                    jfield(*j, key@) == Some(Json::Arr(*items)),
                    0 <= i <= items@.len(),
                    out@.len() == i,
                    forall|k: int| 0 <= k < i ==> sample_ok(#[trigger] items@[k]),
                    forall|k: int| 0 <= k < i ==> out.deep_view()[k] == sample_of(items@[k]),
                decreases items@.len() - i,
            {
                let ghost out_before = out.deep_view();
                match &items[i] {
                    Json::Null => out.push(None),
                    Json::Num(t) => out.push(Some(JsonNumber(t.clone()))),
                    _ => {
                        proof {
                            assert(jfield(*j, key@) matches Some(Json::Arr(a)) && !sample_ok(
                                a@[i as int],
                            ));
                        }
                        return Err(field_err(key));
                    },
                }
                proof {
                    assert(out.deep_view() =~= out_before.push(sample_of(items@[i as int])));
                }
                i = i + 1;
            }
            proof {
                assert(out.deep_view() =~= req_samples_val(*j, key@));
            }
            Ok(out)
        },
        _ => Err(field_err(key)),
    }
}

// ---------------------------------------------------------------------------
// Graph histories.
// ---------------------------------------------------------------------------

/// The shape of a graph history object: `first`, `last`, `interval`,
/// `factor` and `values` are mandatory, `count` optional.
pub open spec fn graph_history_ok(x: Json) -> bool {
    &&& x is Obj
    &&& req_str_ok(x, "first"@)
    &&& req_str_ok(x, "last"@)
    &&& req_u64_ok(x, "interval"@)
    &&& req_num_ok(x, "factor"@)
    &&& opt_u64_ok(x, "count"@)
    &&& req_samples_ok(x, "values"@)
}

/// What a decoded graph history holds of its wire object.
pub open spec fn graph_history_rel(g: GraphHistory, x: Json) -> bool {
    &&& g.first@ == req_str_val(x, "first"@)
    &&& g.last@ == req_str_val(x, "last"@)
    &&& g.interval == req_u64_val(x, "interval"@)
    &&& g.factor@ == req_num_val(x, "factor"@)
    &&& g.count == opt_u64_val(x, "count"@)
    &&& g.values.deep_view() == req_samples_val(x, "values"@)
}

/// Decodes one graph history object.
pub fn decode_graph_history(x: &Json) -> (r: Result<GraphHistory, ClientError>)
    ensures
        r matches Ok(g) ==> graph_history_ok(*x) && graph_history_rel(g, *x),
        r matches Err(e) ==> !graph_history_ok(*x) && e is Deserialization,
{
    if !is_obj(x) {
        return Err(shape_err());
    }
    let first = req_string(x, "first")?;
    let last = req_string(x, "last")?;
    let interval = req_u64(x, "interval")?;
    let factor = req_number(x, "factor")?;
    let count = opt_u64(x, "count")?;
    let values = req_samples(x, "values")?;
    Ok(GraphHistory { first, last, interval, factor, count, values })
}

/// An optional graph-history field: absent, null, or a graph history.
pub open spec fn opt_graph_ok(j: Json, k: Seq<char>) -> bool {
    match jfield(j, k) {
        None => true,
        Some(Json::Null) => true,
        Some(x) => graph_history_ok(x),
    }
}

pub open spec fn opt_graph_rel(f: Option<GraphHistory>, j: Json, k: Seq<char>) -> bool {
    match jfield(j, k) {
        None => f is None,
        Some(Json::Null) => f is None,
        Some(x) => f matches Some(g) && graph_history_rel(g, x),
    }
}

fn opt_graph(j: &Json, key: &str) -> (r: Result<Option<GraphHistory>, ClientError>)
    ensures
        r matches Ok(o) ==> opt_graph_ok(*j, key@) && opt_graph_rel(o, *j, key@),
        r matches Err(e) ==> !opt_graph_ok(*j, key@) && e is Deserialization,
{
    match get(j, key) {
        None => Ok(None),
        Some(Json::Null) => Ok(None),
        Some(x) => match decode_graph_history(x) {
            Ok(g) => Ok(Some(g)),
            Err(e) => Err(e),
        },
    }
}

/// The shape shared by all period-history objects: an object whose four
/// retention-window fields are each absent, null, or a graph history.
pub open spec fn periods_ok(x: Json) -> bool {
    &&& x is Obj
    &&& opt_graph_ok(x, "1_month"@)
    &&& opt_graph_ok(x, "6_months"@)
    &&& opt_graph_ok(x, "1_year"@)
    &&& opt_graph_ok(x, "5_years"@)
}

pub open spec fn bandwidth_history_rel(h: BandwidthHistory, x: Json) -> bool {
    &&& opt_graph_rel(h.one_month, x, "1_month"@)
    &&& opt_graph_rel(h.six_months, x, "6_months"@)
    &&& opt_graph_rel(h.one_year, x, "1_year"@)
    &&& opt_graph_rel(h.five_years, x, "5_years"@)
}

pub fn decode_bandwidth_history(x: &Json) -> (r: Result<BandwidthHistory, ClientError>)
    ensures
        r matches Ok(h) ==> periods_ok(*x) && bandwidth_history_rel(h, *x),
        r matches Err(e) ==> !periods_ok(*x) && e is Deserialization,
{
    if !is_obj(x) {
        return Err(shape_err());
    }
    let one_month = opt_graph(x, "1_month")?;
    let six_months = opt_graph(x, "6_months")?;
    let one_year = opt_graph(x, "1_year")?;
    let five_years = opt_graph(x, "5_years")?;
    Ok(BandwidthHistory { one_month, six_months, one_year, five_years })
}

pub open spec fn weight_history_rel(h: WeightHistory, x: Json) -> bool {
    &&& opt_graph_rel(h.one_month, x, "1_month"@)
    &&& opt_graph_rel(h.six_months, x, "6_months"@)
    &&& opt_graph_rel(h.one_year, x, "1_year"@)
    &&& opt_graph_rel(h.five_years, x, "5_years"@)
}

pub fn decode_weight_history(x: &Json) -> (r: Result<WeightHistory, ClientError>)
    ensures
        r matches Ok(h) ==> periods_ok(*x) && weight_history_rel(h, *x),
        r matches Err(e) ==> !periods_ok(*x) && e is Deserialization,
{
    if !is_obj(x) {
        return Err(shape_err());
    }
    let one_month = opt_graph(x, "1_month")?;
    let six_months = opt_graph(x, "6_months")?;
    let one_year = opt_graph(x, "1_year")?;
    let five_years = opt_graph(x, "5_years")?;
    Ok(WeightHistory { one_month, six_months, one_year, five_years })
}

pub open spec fn clients_history_rel(h: ClientsHistory, x: Json) -> bool {
    &&& opt_graph_rel(h.one_month, x, "1_month"@)
    &&& opt_graph_rel(h.six_months, x, "6_months"@)
    &&& opt_graph_rel(h.one_year, x, "1_year"@)
    &&& opt_graph_rel(h.five_years, x, "5_years"@)
}

pub fn decode_clients_history(x: &Json) -> (r: Result<ClientsHistory, ClientError>)
    ensures
        r matches Ok(h) ==> periods_ok(*x) && clients_history_rel(h, *x),
        r matches Err(e) ==> !periods_ok(*x) && e is Deserialization,
{
    if !is_obj(x) {
        return Err(shape_err());
    }
    let one_month = opt_graph(x, "1_month")?;
    let six_months = opt_graph(x, "6_months")?;
    let one_year = opt_graph(x, "1_year")?;
    let five_years = opt_graph(x, "5_years")?;
    Ok(ClientsHistory { one_month, six_months, one_year, five_years })
}

pub open spec fn uptime_history_rel(h: UptimeHistory, x: Json) -> bool {
    &&& opt_graph_rel(h.one_month, x, "1_month"@)
    &&& opt_graph_rel(h.six_months, x, "6_months"@)
    &&& opt_graph_rel(h.one_year, x, "1_year"@)
    &&& opt_graph_rel(h.five_years, x, "5_years"@)
}

pub fn decode_uptime_history(x: &Json) -> (r: Result<UptimeHistory, ClientError>)
    ensures
        r matches Ok(h) ==> periods_ok(*x) && uptime_history_rel(h, *x),
        r matches Err(e) ==> !periods_ok(*x) && e is Deserialization,
{
    if !is_obj(x) {
        return Err(shape_err());
    }
    let one_month = opt_graph(x, "1_month")?;
    let six_months = opt_graph(x, "6_months")?;
    let one_year = opt_graph(x, "1_year")?;
    let five_years = opt_graph(x, "5_years")?;
    Ok(UptimeHistory { one_month, six_months, one_year, five_years })
}

/// An optional period-history field: absent, null, or a period-history
/// object.
pub open spec fn opt_periods_ok(j: Json, k: Seq<char>) -> bool {
    match jfield(j, k) {
        None => true,
        Some(Json::Null) => true,
        Some(x) => periods_ok(x),
    }
}

pub open spec fn opt_bandwidth_history_rel(f: Option<BandwidthHistory>, j: Json, k: Seq<char>) -> bool {
    match jfield(j, k) {
        None => f is None,
        Some(Json::Null) => f is None,
        Some(x) => f matches Some(h) && bandwidth_history_rel(h, x),
    }
}

fn opt_bandwidth_history(j: &Json, key: &str) -> (r: Result<Option<BandwidthHistory>, ClientError>)
    ensures
        r matches Ok(o) ==> opt_periods_ok(*j, key@) && opt_bandwidth_history_rel(o, *j, key@),
        r matches Err(e) ==> !opt_periods_ok(*j, key@) && e is Deserialization,
{
    match get(j, key) {
        None => Ok(None),
        Some(Json::Null) => Ok(None),
        Some(x) => match decode_bandwidth_history(x) {
            Ok(h) => Ok(Some(h)),
            Err(e) => Err(e),
        },
    }
}

pub open spec fn opt_weight_history_rel(f: Option<WeightHistory>, j: Json, k: Seq<char>) -> bool {
    match jfield(j, k) {
        None => f is None,
        Some(Json::Null) => f is None,
        Some(x) => f matches Some(h) && weight_history_rel(h, x),
    }
}

fn opt_weight_history(j: &Json, key: &str) -> (r: Result<Option<WeightHistory>, ClientError>)
    ensures
        r matches Ok(o) ==> opt_periods_ok(*j, key@) && opt_weight_history_rel(o, *j, key@),
        r matches Err(e) ==> !opt_periods_ok(*j, key@) && e is Deserialization,
{
    match get(j, key) {
        None => Ok(None),
        Some(Json::Null) => Ok(None),
        Some(x) => match decode_weight_history(x) {
            Ok(h) => Ok(Some(h)),
            Err(e) => Err(e),
        },
    }
}

pub open spec fn opt_clients_history_rel(f: Option<ClientsHistory>, j: Json, k: Seq<char>) -> bool {
    match jfield(j, k) {
        None => f is None,
        Some(Json::Null) => f is None,
        Some(x) => f matches Some(h) && clients_history_rel(h, x),
    }
}

fn opt_clients_history(j: &Json, key: &str) -> (r: Result<Option<ClientsHistory>, ClientError>)
    ensures
        r matches Ok(o) ==> opt_periods_ok(*j, key@) && opt_clients_history_rel(o, *j, key@),
        r matches Err(e) ==> !opt_periods_ok(*j, key@) && e is Deserialization,
{
    match get(j, key) {
        None => Ok(None),
        Some(Json::Null) => Ok(None),
        Some(x) => match decode_clients_history(x) {
            Ok(h) => Ok(Some(h)),
            Err(e) => Err(e),
        },
    }
}

pub open spec fn opt_uptime_history_rel(f: Option<UptimeHistory>, j: Json, k: Seq<char>) -> bool {
    match jfield(j, k) {
        None => f is None,
        Some(Json::Null) => f is None,
        Some(x) => f matches Some(h) && uptime_history_rel(h, x),
    }
}

fn opt_uptime_history(j: &Json, key: &str) -> (r: Result<Option<UptimeHistory>, ClientError>)
    ensures
        r matches Ok(o) ==> opt_periods_ok(*j, key@) && opt_uptime_history_rel(o, *j, key@),
        r matches Err(e) ==> !opt_periods_ok(*j, key@) && e is Deserialization,
{
    match get(j, key) {
        None => Ok(None),
        Some(Json::Null) => Ok(None),
        Some(x) => match decode_uptime_history(x) {
            Ok(h) => Ok(Some(h)),
            Err(e) => Err(e),
        },
    }
}

// ---------------------------------------------------------------------------
// Per-flag uptime history.
// ---------------------------------------------------------------------------

/// The shape of a per-flag history: an object every one of whose values is a
/// period-history object. The flag name set is open-ended.
pub open spec fn flag_history_ok(x: Json) -> bool {
    match x {
        Json::Obj(fs) => forall|i: int| 0 <= i < fs@.len() ==> periods_ok((#[trigger] fs@[i]).1),
        _ => false,
    }
}

/// What a decoded per-flag history holds: one entry per wire field, names
/// and histories in wire order.
pub open spec fn flag_history_rel(f: FlagHistory, x: Json) -> bool {
    match x {
        Json::Obj(fs) => {
            &&& f.flags@.len() == fs@.len()
            &&& forall|i: int|
                0 <= i < fs@.len() ==> (#[trigger] f.flags@[i]).0@ == fs@[i].0@
                    && uptime_history_rel(f.flags@[i].1, fs@[i].1)
        },
        _ => false,
    }
}

/// Decodes a per-flag uptime history.
pub fn decode_flag_history(x: &Json) -> (r: Result<FlagHistory, ClientError>)
    ensures
        r matches Ok(f) ==> flag_history_ok(*x) && flag_history_rel(f, *x),
        r matches Err(e) ==> !flag_history_ok(*x) && e is Deserialization,
{
    match x {
        Json::Obj(fields) => {
            proof {
                assert(*x == Json::Obj(*fields));
            }
            let mut out: Vec<(String, UptimeHistory)> = Vec::new();
            let mut i: usize = 0;
            while i < fields.len()
                invariant
                    *x == Json::Obj(*fields),
                    0 <= i <= fields@.len(),
                    out@.len() == i,
                    forall|k: int| 0 <= k < i ==> periods_ok((#[trigger] fields@[k]).1),
                    forall|k: int|
                        0 <= k < i ==> (#[trigger] out@[k]).0@ == fields@[k].0@
                            && uptime_history_rel(out@[k].1, fields@[k].1),
                decreases fields@.len() - i,
            {
                let name = fields[i].0.clone();
                match decode_uptime_history(&fields[i].1) {
                    Ok(h) => out.push((name, h)),
                    Err(e) => {
                        proof {
                            assert(!periods_ok(fields@[i as int].1));
                            assert(!flag_history_ok(*x)) by {
                                if flag_history_ok(*x) {
                                    let fs = (*x)->Obj_0;
                                    assert(fs@ == fields@);
                                    assert(periods_ok((fs@[i as int]).1));
                                }
                            }
                        }
                        return Err(e);
                    },
                }
                i = i + 1;
            }
            Ok(FlagHistory { flags: out })
        },
        _ => Err(shape_err()),
    }
}

/// An optional per-flag history field: absent, null, or a per-flag history.
pub open spec fn opt_flag_history_ok(j: Json, k: Seq<char>) -> bool {
    match jfield(j, k) {
        None => true,
        Some(Json::Null) => true,
        Some(x) => flag_history_ok(x),
    }
}

pub open spec fn opt_flag_history_rel(f: Option<FlagHistory>, j: Json, k: Seq<char>) -> bool {
    match jfield(j, k) {
        None => f is None,
        Some(Json::Null) => f is None,
        Some(x) => f matches Some(h) && flag_history_rel(h, x),
    }
}

fn opt_flag_history(j: &Json, key: &str) -> (r: Result<Option<FlagHistory>, ClientError>)
    ensures
        r matches Ok(o) ==> opt_flag_history_ok(*j, key@) && opt_flag_history_rel(o, *j, key@),
        r matches Err(e) ==> !opt_flag_history_ok(*j, key@) && e is Deserialization,
{
    match get(j, key) {
        None => Ok(None),
        Some(Json::Null) => Ok(None),
        Some(x) => match decode_flag_history(x) {
            Ok(h) => Ok(Some(h)),
            Err(e) => Err(e),
        },
    }
}

// ---------------------------------------------------------------------------
// Overload indicators and exit-policy summaries.
// ---------------------------------------------------------------------------

/// The shape of an overload-ratelimits object: every field optional.
pub open spec fn overload_ratelimits_ok(x: Json) -> bool {
    &&& x is Obj
    &&& opt_u64_ok(x, "timestamp"@)
    &&& opt_u64_ok(x, "rate-limit"@)
    &&& opt_u64_ok(x, "burst-limit"@)
    &&& opt_u64_ok(x, "read-overload-count"@)
    &&& opt_u64_ok(x, "write-overload-count"@)
}

pub open spec fn overload_ratelimits_rel(o: OverloadRatelimits, x: Json) -> bool {
    &&& o.timestamp == opt_u64_val(x, "timestamp"@)
    &&& o.rate_limit == opt_u64_val(x, "rate-limit"@)
    &&& o.burst_limit == opt_u64_val(x, "burst-limit"@)
    &&& o.read_overload_count == opt_u64_val(x, "read-overload-count"@)
    &&& o.write_overload_count == opt_u64_val(x, "write-overload-count"@)
}

/// Decodes an overload-ratelimits object.
pub fn decode_overload_ratelimits(x: &Json) -> (r: Result<OverloadRatelimits, ClientError>)
    ensures
        r matches Ok(o) ==> overload_ratelimits_ok(*x) && overload_ratelimits_rel(o, *x),
        r matches Err(e) ==> !overload_ratelimits_ok(*x) && e is Deserialization,
{
    if !is_obj(x) {
        return Err(shape_err());
    }
    let timestamp = opt_u64(x, "timestamp")?;
    let rate_limit = opt_u64(x, "rate-limit")?;
    let burst_limit = opt_u64(x, "burst-limit")?;
    let read_overload_count = opt_u64(x, "read-overload-count")?;
    let write_overload_count = opt_u64(x, "write-overload-count")?;
    Ok(OverloadRatelimits {
        timestamp,
        rate_limit,
        burst_limit,
        read_overload_count,
        write_overload_count,
    })
}

pub open spec fn opt_overload_ratelimits_ok(j: Json, k: Seq<char>) -> bool {
    match jfield(j, k) {
        None => true,
        Some(Json::Null) => true,
        Some(x) => overload_ratelimits_ok(x),
    }
}

pub open spec fn opt_overload_ratelimits_rel(f: Option<OverloadRatelimits>, j: Json, k: Seq<char>) -> bool {
    match jfield(j, k) {
        None => f is None,
        Some(Json::Null) => f is None,
        Some(x) => f matches Some(o) && overload_ratelimits_rel(o, x),
    }
}

fn opt_overload_ratelimits(j: &Json, key: &str) -> (r: Result<
    Option<OverloadRatelimits>,
    ClientError,
>)
    ensures
        r matches Ok(o) ==> opt_overload_ratelimits_ok(*j, key@) && opt_overload_ratelimits_rel(
            o,
            *j,
            key@,
        ),
        r matches Err(e) ==> !opt_overload_ratelimits_ok(*j, key@) && e is Deserialization,
{
    match get(j, key) {
        None => Ok(None),
        Some(Json::Null) => Ok(None),
        Some(x) => match decode_overload_ratelimits(x) {
            Ok(o) => Ok(Some(o)),
            Err(e) => Err(e),
        },
    }
}

/// The shape of an overload-fd-exhausted object.
pub open spec fn overload_fd_ok(x: Json) -> bool {
    &&& x is Obj
    &&& opt_u64_ok(x, "timestamp"@)
}

pub open spec fn overload_fd_rel(o: OverloadFdExhausted, x: Json) -> bool {
    o.timestamp == opt_u64_val(x, "timestamp"@)
}

/// Decodes an overload-fd-exhausted object.
pub fn decode_overload_fd(x: &Json) -> (r: Result<OverloadFdExhausted, ClientError>)
    ensures
        r matches Ok(o) ==> overload_fd_ok(*x) && overload_fd_rel(o, *x),
        r matches Err(e) ==> !overload_fd_ok(*x) && e is Deserialization,
{
    if !is_obj(x) {
        return Err(shape_err());
    }
    let timestamp = opt_u64(x, "timestamp")?;
    Ok(OverloadFdExhausted { timestamp })
}

pub open spec fn opt_overload_fd_ok(j: Json, k: Seq<char>) -> bool {
    match jfield(j, k) {
        None => true,
        Some(Json::Null) => true,
        Some(x) => overload_fd_ok(x),
    }
}

pub open spec fn opt_overload_fd_rel(f: Option<OverloadFdExhausted>, j: Json, k: Seq<char>) -> bool {
    match jfield(j, k) {
        None => f is None,
        Some(Json::Null) => f is None,
        Some(x) => f matches Some(o) && overload_fd_rel(o, x),
    }
}

fn opt_overload_fd(j: &Json, key: &str) -> (r: Result<Option<OverloadFdExhausted>, ClientError>)
    ensures
        r matches Ok(o) ==> opt_overload_fd_ok(*j, key@) && opt_overload_fd_rel(o, *j, key@),
        r matches Err(e) ==> !opt_overload_fd_ok(*j, key@) && e is Deserialization,
{
    match get(j, key) {
        None => Ok(None),
        Some(Json::Null) => Ok(None),
        Some(x) => match decode_overload_fd(x) {
            Ok(o) => Ok(Some(o)),
            Err(e) => Err(e),
        },
    }
}

/// The shape of an exit-policy summary: `accept` and `reject` each absent,
/// null, or an array of strings.
pub open spec fn exit_policy_summary_ok(x: Json) -> bool {
    &&& x is Obj
    &&& opt_str_arr_ok(x, "accept"@)
    &&& opt_str_arr_ok(x, "reject"@)
}

pub open spec fn exit_policy_summary_rel(s: ExitPolicySummary, x: Json) -> bool {
    &&& s.accept.deep_view() == opt_str_arr_val(x, "accept"@)
    &&& s.reject.deep_view() == opt_str_arr_val(x, "reject"@)
}

/// Decodes an exit-policy summary.
pub fn decode_exit_policy_summary(x: &Json) -> (r: Result<ExitPolicySummary, ClientError>)
    ensures
        r matches Ok(s) ==> exit_policy_summary_ok(*x) && exit_policy_summary_rel(s, *x),
        r matches Err(e) ==> !exit_policy_summary_ok(*x) && e is Deserialization,
{
    if !is_obj(x) {
        return Err(shape_err());
    }
    let accept = opt_string_array(x, "accept")?;
    let reject = opt_string_array(x, "reject")?;
    Ok(ExitPolicySummary { accept, reject })
}

pub open spec fn opt_exit_policy_summary_ok(j: Json, k: Seq<char>) -> bool {
    match jfield(j, k) {
        None => true,
        Some(Json::Null) => true,
        Some(x) => exit_policy_summary_ok(x),
    }
}

pub open spec fn opt_exit_policy_summary_rel(f: Option<ExitPolicySummary>, j: Json, k: Seq<char>) -> bool {
    match jfield(j, k) {
        None => f is None,
        Some(Json::Null) => f is None,
        Some(x) => f matches Some(s) && exit_policy_summary_rel(s, x),
    }
}

fn opt_exit_policy_summary(j: &Json, key: &str) -> (r: Result<
    Option<ExitPolicySummary>,
    ClientError,
>)
    ensures
        r matches Ok(o) ==> opt_exit_policy_summary_ok(*j, key@) && opt_exit_policy_summary_rel(
            o,
            *j,
            key@,
        ),
        r matches Err(e) ==> !opt_exit_policy_summary_ok(*j, key@) && e is Deserialization,
{
    match get(j, key) {
        None => Ok(None),
        Some(Json::Null) => Ok(None),
        Some(x) => match decode_exit_policy_summary(x) {
            Ok(s) => Ok(Some(s)),
            Err(e) => Err(e),
        },
    }
}

// ---------------------------------------------------------------------------
// Summary entries.
// ---------------------------------------------------------------------------

/// The shape of a relay summary entry: all four fields mandatory.
pub open spec fn relay_summary_ok(x: Json) -> bool {
    &&& x is Obj
    &&& req_str_ok(x, "n"@)
    &&& req_str_ok(x, "f"@)
    &&& req_str_arr_ok(x, "a"@)
    &&& req_bool_ok(x, "r"@)
}

pub open spec fn relay_summary_rel(d: RelaySummary, x: Json) -> bool {
    &&& d.n@ == req_str_val(x, "n"@)
    &&& d.f@ == req_str_val(x, "f"@)
    &&& d.a.deep_view() == req_str_arr_val(x, "a"@)
    &&& d.r == req_bool_val(x, "r"@)
}

/// Decodes one relay summary entry.
pub fn decode_relay_summary(x: &Json) -> (r: Result<RelaySummary, ClientError>)
    ensures
        r matches Ok(d) ==> relay_summary_ok(*x) && relay_summary_rel(d, *x),
        r matches Err(e) ==> !relay_summary_ok(*x) && e is Deserialization,
{
    if !is_obj(x) {
        return Err(shape_err());
    }
    let n = req_string(x, "n")?;
    let f = req_string(x, "f")?;
    let a = req_string_array(x, "a")?;
    let r = req_bool(x, "r")?;
    Ok(RelaySummary { n, f, a, r })
}

/// The shape of a bridge summary entry: all three fields mandatory.
pub open spec fn bridge_summary_ok(x: Json) -> bool {
    &&& x is Obj
    &&& req_str_ok(x, "n"@)
    &&& req_str_ok(x, "h"@)
    &&& req_bool_ok(x, "r"@)
}

pub open spec fn bridge_summary_rel(d: BridgeSummary, x: Json) -> bool {
    &&& d.n@ == req_str_val(x, "n"@)
    &&& d.h@ == req_str_val(x, "h"@)
    &&& d.r == req_bool_val(x, "r"@)
}

/// Decodes one bridge summary entry.
pub fn decode_bridge_summary(x: &Json) -> (r: Result<BridgeSummary, ClientError>)
    ensures
        r matches Ok(d) ==> bridge_summary_ok(*x) && bridge_summary_rel(d, *x),
        r matches Err(e) ==> !bridge_summary_ok(*x) && e is Deserialization,
{
    if !is_obj(x) {
        return Err(shape_err());
    }
    let n = req_string(x, "n")?;
    let h = req_string(x, "h")?;
    let r = req_bool(x, "r")?;
    Ok(BridgeSummary { n, h, r })
}

// ---------------------------------------------------------------------------
// Bandwidth entries.
// ---------------------------------------------------------------------------

/// The shape of a relay or bridge bandwidth entry: the fingerprint is
/// mandatory, the histories and overload indicators optional.
pub open spec fn bandwidth_entry_ok(x: Json) -> bool {
    &&& x is Obj
    &&& req_str_ok(x, "fingerprint"@)
    &&& opt_periods_ok(x, "write_history"@)
    &&& opt_periods_ok(x, "read_history"@)
    &&& opt_overload_ratelimits_ok(x, "overload_ratelimits"@)
    &&& opt_overload_fd_ok(x, "overload_fd_exhausted"@)
}

pub open spec fn relay_bandwidth_rel(d: RelayBandwidth, x: Json) -> bool {
    &&& d.fingerprint@ == req_str_val(x, "fingerprint"@)
    &&& opt_bandwidth_history_rel(d.write_history, x, "write_history"@)
    &&& opt_bandwidth_history_rel(d.read_history, x, "read_history"@)
    &&& opt_overload_ratelimits_rel(d.overload_ratelimits, x, "overload_ratelimits"@)
    &&& opt_overload_fd_rel(d.overload_fd_exhausted, x, "overload_fd_exhausted"@)
}

/// Decodes one relay bandwidth entry.
pub fn decode_relay_bandwidth(x: &Json) -> (r: Result<RelayBandwidth, ClientError>)
    ensures
        r matches Ok(d) ==> bandwidth_entry_ok(*x) && relay_bandwidth_rel(d, *x),
        r matches Err(e) ==> !bandwidth_entry_ok(*x) && e is Deserialization,
{
    if !is_obj(x) {
        return Err(shape_err());
    }
    let fingerprint = req_string(x, "fingerprint")?;
    let write_history = opt_bandwidth_history(x, "write_history")?;
    let read_history = opt_bandwidth_history(x, "read_history")?;
    let overload_ratelimits = opt_overload_ratelimits(x, "overload_ratelimits")?;
    let overload_fd_exhausted = opt_overload_fd(x, "overload_fd_exhausted")?;
    Ok(RelayBandwidth {
        fingerprint,
        write_history,
        read_history,
        overload_ratelimits,
        overload_fd_exhausted,
    })
}

pub open spec fn bridge_bandwidth_rel(d: BridgeBandwidth, x: Json) -> bool {
    &&& d.fingerprint@ == req_str_val(x, "fingerprint"@)
    &&& opt_bandwidth_history_rel(d.write_history, x, "write_history"@)
    &&& opt_bandwidth_history_rel(d.read_history, x, "read_history"@)
    &&& opt_overload_ratelimits_rel(d.overload_ratelimits, x, "overload_ratelimits"@)
    &&& opt_overload_fd_rel(d.overload_fd_exhausted, x, "overload_fd_exhausted"@)
}

/// Decodes one bridge bandwidth entry.
pub fn decode_bridge_bandwidth(x: &Json) -> (r: Result<BridgeBandwidth, ClientError>)
    ensures
        r matches Ok(d) ==> bandwidth_entry_ok(*x) && bridge_bandwidth_rel(d, *x),
        r matches Err(e) ==> !bandwidth_entry_ok(*x) && e is Deserialization,
{
    if !is_obj(x) {
        return Err(shape_err());
    }
    let fingerprint = req_string(x, "fingerprint")?;
    let write_history = opt_bandwidth_history(x, "write_history")?;
    let read_history = opt_bandwidth_history(x, "read_history")?;
    let overload_ratelimits = opt_overload_ratelimits(x, "overload_ratelimits")?;
    let overload_fd_exhausted = opt_overload_fd(x, "overload_fd_exhausted")?;
    Ok(BridgeBandwidth {
        fingerprint,
        write_history,
        read_history,
        overload_ratelimits,
        overload_fd_exhausted,
    })
}

// ---------------------------------------------------------------------------
// Weights, clients and uptime entries.
// ---------------------------------------------------------------------------

/// The shape of a relay weights entry: the fingerprint is mandatory, the
/// five metric histories optional.
pub open spec fn relay_weights_ok(x: Json) -> bool {
    &&& x is Obj
    &&& req_str_ok(x, "fingerprint"@)
    &&& opt_periods_ok(x, "consensus_weight_fraction"@)
    &&& opt_periods_ok(x, "guard_probability"@)
    &&& opt_periods_ok(x, "middle_probability"@)
    &&& opt_periods_ok(x, "exit_probability"@)
    &&& opt_periods_ok(x, "consensus_weight"@)
}

pub open spec fn relay_weights_rel(d: RelayWeights, x: Json) -> bool {
    &&& d.fingerprint@ == req_str_val(x, "fingerprint"@)
    &&& opt_weight_history_rel(d.consensus_weight_fraction, x, "consensus_weight_fraction"@)
    &&& opt_weight_history_rel(d.guard_probability, x, "guard_probability"@)
    &&& opt_weight_history_rel(d.middle_probability, x, "middle_probability"@)
    &&& opt_weight_history_rel(d.exit_probability, x, "exit_probability"@)
    &&& opt_weight_history_rel(d.consensus_weight, x, "consensus_weight"@)
}

/// Decodes one relay weights entry.
pub fn decode_relay_weights(x: &Json) -> (r: Result<RelayWeights, ClientError>)
    ensures
        r matches Ok(d) ==> relay_weights_ok(*x) && relay_weights_rel(d, *x),
        r matches Err(e) ==> !relay_weights_ok(*x) && e is Deserialization,
{
    if !is_obj(x) {
        return Err(shape_err());
    }
    let fingerprint = req_string(x, "fingerprint")?;
    let consensus_weight_fraction = opt_weight_history(x, "consensus_weight_fraction")?;
    let guard_probability = opt_weight_history(x, "guard_probability")?;
    let middle_probability = opt_weight_history(x, "middle_probability")?;
    let exit_probability = opt_weight_history(x, "exit_probability")?;
    let consensus_weight = opt_weight_history(x, "consensus_weight")?;
    Ok(RelayWeights {
        fingerprint,
        consensus_weight_fraction,
        guard_probability,
        middle_probability,
        exit_probability,
        consensus_weight,
    })
}

/// The shape of a bridge clients entry.
pub open spec fn bridge_clients_ok(x: Json) -> bool {
    &&& x is Obj
    &&& req_str_ok(x, "fingerprint"@)
    &&& opt_periods_ok(x, "average_clients"@)
}

pub open spec fn bridge_clients_rel(d: BridgeClients, x: Json) -> bool {
    &&& d.fingerprint@ == req_str_val(x, "fingerprint"@)
    &&& opt_clients_history_rel(d.average_clients, x, "average_clients"@)
}

/// Decodes one bridge clients entry.
pub fn decode_bridge_clients(x: &Json) -> (r: Result<BridgeClients, ClientError>)
    ensures
        r matches Ok(d) ==> bridge_clients_ok(*x) && bridge_clients_rel(d, *x),
        r matches Err(e) ==> !bridge_clients_ok(*x) && e is Deserialization,
{
    if !is_obj(x) {
        return Err(shape_err());
    }
    let fingerprint = req_string(x, "fingerprint")?;
    let average_clients = opt_clients_history(x, "average_clients")?;
    Ok(BridgeClients { fingerprint, average_clients })
}

/// The shape of a relay uptime entry.
pub open spec fn relay_uptime_ok(x: Json) -> bool {
    &&& x is Obj
    &&& req_str_ok(x, "fingerprint"@)
    &&& opt_periods_ok(x, "uptime"@)
    &&& opt_flag_history_ok(x, "flags"@)
}

pub open spec fn relay_uptime_rel(d: RelayUptime, x: Json) -> bool {
    &&& d.fingerprint@ == req_str_val(x, "fingerprint"@)
    &&& opt_uptime_history_rel(d.uptime, x, "uptime"@)
    &&& opt_flag_history_rel(d.flags, x, "flags"@)
}

/// Decodes one relay uptime entry.
pub fn decode_relay_uptime(x: &Json) -> (r: Result<RelayUptime, ClientError>)
    ensures
        r matches Ok(d) ==> relay_uptime_ok(*x) && relay_uptime_rel(d, *x),
        r matches Err(e) ==> !relay_uptime_ok(*x) && e is Deserialization,
{
    if !is_obj(x) {
        return Err(shape_err());
    }
    let fingerprint = req_string(x, "fingerprint")?;
    let uptime = opt_uptime_history(x, "uptime")?;
    let flags = opt_flag_history(x, "flags")?;
    Ok(RelayUptime { fingerprint, uptime, flags })
}

/// The shape of a bridge uptime entry.
pub open spec fn bridge_uptime_ok(x: Json) -> bool {
    &&& x is Obj
    &&& req_str_ok(x, "fingerprint"@)
    &&& opt_periods_ok(x, "uptime"@)
}

pub open spec fn bridge_uptime_rel(d: BridgeUptime, x: Json) -> bool {
    &&& d.fingerprint@ == req_str_val(x, "fingerprint"@)
    &&& opt_uptime_history_rel(d.uptime, x, "uptime"@)
}

/// Decodes one bridge uptime entry.
pub fn decode_bridge_uptime(x: &Json) -> (r: Result<BridgeUptime, ClientError>)
    ensures
        r matches Ok(d) ==> bridge_uptime_ok(*x) && bridge_uptime_rel(d, *x),
        r matches Err(e) ==> !bridge_uptime_ok(*x) && e is Deserialization,
{
    if !is_obj(x) {
        return Err(shape_err());
    }
    let fingerprint = req_string(x, "fingerprint")?;
    let uptime = opt_uptime_history(x, "uptime")?;
    Ok(BridgeUptime { fingerprint, uptime })
}

// ---------------------------------------------------------------------------
// Details entries.
// ---------------------------------------------------------------------------

/// The identity, status and location half of a relay details entry:
/// identity and status fields are mandatory, the rest optional.
pub open spec fn relay_details_head_ok(x: Json) -> bool {
    &&& x is Obj
    &&& req_str_ok(x, "nickname"@)
    &&& req_str_ok(x, "fingerprint"@)
    &&& req_str_arr_ok(x, "or_addresses"@)
    &&& opt_str_arr_ok(x, "exit_addresses"@)
    &&& opt_str_ok(x, "dir_address"@)
    &&& req_str_ok(x, "last_seen"@)
    &&& req_str_ok(x, "last_changed_address_or_port"@)
    &&& req_str_ok(x, "first_seen"@)
    &&& req_bool_ok(x, "running"@)
    &&& opt_bool_ok(x, "hibernating"@)
    &&& opt_str_arr_ok(x, "flags"@)
    &&& opt_str_ok(x, "country"@)
    &&& opt_str_ok(x, "country_name"@)
    &&& opt_str_ok(x, "region_name"@)
    &&& opt_str_ok(x, "city_name"@)
    &&& opt_num_ok(x, "latitude"@)
    &&& opt_num_ok(x, "longitude"@)
    &&& opt_str_ok(x, "as"@)
    &&& opt_str_ok(x, "as_name"@)
    &&& req_u64_ok(x, "consensus_weight"@)
    &&& opt_str_arr_ok(x, "verified_host_names"@)
    &&& opt_str_arr_ok(x, "unverified_host_names"@)
}

/// The bandwidth, policy, software and family half of a relay details
/// entry: all fields optional.
pub open spec fn relay_details_tail_ok(x: Json) -> bool {
    &&& opt_str_ok(x, "last_restarted"@)
    &&& opt_u64_ok(x, "bandwidth_rate"@)
    &&& opt_u64_ok(x, "bandwidth_burst"@)
    &&& opt_u64_ok(x, "observed_bandwidth"@)
    &&& opt_u64_ok(x, "advertised_bandwidth"@)
    &&& opt_u64_ok(x, "overload_general_timestamp"@)
    &&& opt_str_arr_ok(x, "exit_policy"@)
    &&& opt_exit_policy_summary_ok(x, "exit_policy_summary"@)
    &&& opt_exit_policy_summary_ok(x, "exit_policy_v6_summary"@)
    &&& opt_str_ok(x, "contact"@)
    &&& opt_str_ok(x, "platform"@)
    &&& opt_str_ok(x, "version"@)
    &&& opt_bool_ok(x, "recommended_version"@)
    &&& opt_str_ok(x, "version_status"@)
    &&& opt_str_arr_ok(x, "effective_family"@)
    &&& opt_str_arr_ok(x, "alleged_family"@)
    &&& opt_str_arr_ok(x, "indirect_family"@)
    &&& opt_num_ok(x, "consensus_weight_fraction"@)
    &&& opt_num_ok(x, "guard_probability"@)
    &&& opt_num_ok(x, "middle_probability"@)
    &&& opt_num_ok(x, "exit_probability"@)
    &&& opt_bool_ok(x, "measured"@)
    &&& opt_str_arr_ok(x, "unreachable_or_addresses"@)
}

/// The shape of a relay details entry.
pub open spec fn relay_details_ok(x: Json) -> bool {
    relay_details_head_ok(x) && relay_details_tail_ok(x)
}

pub open spec fn relay_details_head_rel(d: RelayDetails, x: Json) -> bool {
    &&& d.nickname@ == req_str_val(x, "nickname"@)
    &&& d.fingerprint@ == req_str_val(x, "fingerprint"@)
    &&& d.or_addresses.deep_view() == req_str_arr_val(x, "or_addresses"@)
    &&& d.exit_addresses.deep_view() == opt_str_arr_val(x, "exit_addresses"@)
    &&& d.dir_address.deep_view() == opt_str_val(x, "dir_address"@)
    &&& d.last_seen@ == req_str_val(x, "last_seen"@)
    &&& d.last_changed_address_or_port@ == req_str_val(x, "last_changed_address_or_port"@)
    &&& d.first_seen@ == req_str_val(x, "first_seen"@)
    &&& d.running == req_bool_val(x, "running"@)
    &&& d.hibernating == opt_bool_val(x, "hibernating"@)
    &&& d.flags.deep_view() == opt_str_arr_val(x, "flags"@)
    &&& d.country.deep_view() == opt_str_val(x, "country"@)
    &&& d.country_name.deep_view() == opt_str_val(x, "country_name"@)
    &&& d.region_name.deep_view() == opt_str_val(x, "region_name"@)
    &&& d.city_name.deep_view() == opt_str_val(x, "city_name"@)
    &&& d.latitude.deep_view() == opt_num_val(x, "latitude"@)
    &&& d.longitude.deep_view() == opt_num_val(x, "longitude"@)
    &&& d.as_number.deep_view() == opt_str_val(x, "as"@)
    &&& d.as_name.deep_view() == opt_str_val(x, "as_name"@)
    &&& d.consensus_weight == req_u64_val(x, "consensus_weight"@)
    &&& d.verified_host_names.deep_view() == opt_str_arr_val(x, "verified_host_names"@)
    &&& d.unverified_host_names.deep_view() == opt_str_arr_val(x, "unverified_host_names"@)
}

pub open spec fn relay_details_tail_rel(d: RelayDetails, x: Json) -> bool {
    &&& d.last_restarted.deep_view() == opt_str_val(x, "last_restarted"@)
    &&& d.bandwidth_rate == opt_u64_val(x, "bandwidth_rate"@)
    &&& d.bandwidth_burst == opt_u64_val(x, "bandwidth_burst"@)
    &&& d.observed_bandwidth == opt_u64_val(x, "observed_bandwidth"@)
    &&& d.advertised_bandwidth == opt_u64_val(x, "advertised_bandwidth"@)
    &&& d.overload_general_timestamp == opt_u64_val(x, "overload_general_timestamp"@)
    &&& d.exit_policy.deep_view() == opt_str_arr_val(x, "exit_policy"@)
    &&& opt_exit_policy_summary_rel(d.exit_policy_summary, x, "exit_policy_summary"@)
    &&& opt_exit_policy_summary_rel(d.exit_policy_v6_summary, x, "exit_policy_v6_summary"@)
    &&& d.contact.deep_view() == opt_str_val(x, "contact"@)
    &&& d.platform.deep_view() == opt_str_val(x, "platform"@)
    &&& d.version.deep_view() == opt_str_val(x, "version"@)
    &&& d.recommended_version == opt_bool_val(x, "recommended_version"@)
    &&& d.version_status.deep_view() == opt_str_val(x, "version_status"@)
    &&& d.effective_family.deep_view() == opt_str_arr_val(x, "effective_family"@)
    &&& d.alleged_family.deep_view() == opt_str_arr_val(x, "alleged_family"@)
    &&& d.indirect_family.deep_view() == opt_str_arr_val(x, "indirect_family"@)
    &&& d.consensus_weight_fraction.deep_view() == opt_num_val(x, "consensus_weight_fraction"@)
    &&& d.guard_probability.deep_view() == opt_num_val(x, "guard_probability"@)
    &&& d.middle_probability.deep_view() == opt_num_val(x, "middle_probability"@)
    &&& d.exit_probability.deep_view() == opt_num_val(x, "exit_probability"@)
    &&& d.measured == opt_bool_val(x, "measured"@)
    &&& d.unreachable_or_addresses.deep_view() == opt_str_arr_val(x, "unreachable_or_addresses"@)
}

/// What a decoded relay details entry holds of its wire object.
pub open spec fn relay_details_rel(d: RelayDetails, x: Json) -> bool {
    relay_details_head_rel(d, x) && relay_details_tail_rel(d, x)
}

/// Decodes one relay details entry.
#[verifier::rlimit(100)]
pub fn decode_relay_details(x: &Json) -> (r: Result<RelayDetails, ClientError>)
    ensures
        r matches Ok(d) ==> relay_details_ok(*x) && relay_details_rel(d, *x),
        r matches Err(e) ==> !relay_details_ok(*x) && e is Deserialization,
{
    if !is_obj(x) {
        return Err(shape_err());
    }
    let nickname = req_string(x, "nickname")?;
    let fingerprint = req_string(x, "fingerprint")?;
    let or_addresses = req_string_array(x, "or_addresses")?;
    let exit_addresses = opt_string_array(x, "exit_addresses")?;
    let dir_address = opt_string(x, "dir_address")?;
    let last_seen = req_string(x, "last_seen")?;
    let last_changed_address_or_port = req_string(x, "last_changed_address_or_port")?;
    let first_seen = req_string(x, "first_seen")?;
    let running = req_bool(x, "running")?;
    let hibernating = opt_bool(x, "hibernating")?;
    let flags = opt_string_array(x, "flags")?;
    let country = opt_string(x, "country")?;
    let country_name = opt_string(x, "country_name")?;
    let region_name = opt_string(x, "region_name")?;
    let city_name = opt_string(x, "city_name")?;
    let latitude = opt_number(x, "latitude")?;
    let longitude = opt_number(x, "longitude")?;
    let as_number = opt_string(x, "as")?;
    let as_name = opt_string(x, "as_name")?;
    let consensus_weight = req_u64(x, "consensus_weight")?;
    let verified_host_names = opt_string_array(x, "verified_host_names")?;
    let unverified_host_names = opt_string_array(x, "unverified_host_names")?;
    let last_restarted = opt_string(x, "last_restarted")?;
    let bandwidth_rate = opt_u64(x, "bandwidth_rate")?;
    let bandwidth_burst = opt_u64(x, "bandwidth_burst")?;
    let observed_bandwidth = opt_u64(x, "observed_bandwidth")?;
    let advertised_bandwidth = opt_u64(x, "advertised_bandwidth")?;
    let overload_general_timestamp = opt_u64(x, "overload_general_timestamp")?;
    let exit_policy = opt_string_array(x, "exit_policy")?;
    let exit_policy_summary = opt_exit_policy_summary(x, "exit_policy_summary")?;
    let exit_policy_v6_summary = opt_exit_policy_summary(x, "exit_policy_v6_summary")?;
    let contact = opt_string(x, "contact")?;
    let platform = opt_string(x, "platform")?;
    let version = opt_string(x, "version")?;
    let recommended_version = opt_bool(x, "recommended_version")?;
    let version_status = opt_string(x, "version_status")?;
    let effective_family = opt_string_array(x, "effective_family")?;
    let alleged_family = opt_string_array(x, "alleged_family")?;
    let indirect_family = opt_string_array(x, "indirect_family")?;
    let consensus_weight_fraction = opt_number(x, "consensus_weight_fraction")?;
    let guard_probability = opt_number(x, "guard_probability")?;
    let middle_probability = opt_number(x, "middle_probability")?;
    let exit_probability = opt_number(x, "exit_probability")?;
    let measured = opt_bool(x, "measured")?;
    let unreachable_or_addresses = opt_string_array(x, "unreachable_or_addresses")?;
    Ok(RelayDetails {
        nickname,
        fingerprint,
        or_addresses,
        exit_addresses,
        dir_address,
        last_seen,
        last_changed_address_or_port,
        first_seen,
        running,
        hibernating,
        flags,
        country,
        country_name,
        region_name,
        city_name,
        latitude,
        longitude,
        as_number,
        as_name,
        consensus_weight,
        verified_host_names,
        unverified_host_names,
        last_restarted,
        bandwidth_rate,
        bandwidth_burst,
        observed_bandwidth,
        advertised_bandwidth,
        overload_general_timestamp,
        exit_policy,
        exit_policy_summary,
        exit_policy_v6_summary,
        contact,
        platform,
        version,
        recommended_version,
        version_status,
        effective_family,
        alleged_family,
        indirect_family,
        consensus_weight_fraction,
        guard_probability,
        middle_probability,
        exit_probability,
        measured,
        unreachable_or_addresses,
    })
}

/// The shape of a bridge details entry: identity and status fields are
/// mandatory, the rest optional.
pub open spec fn bridge_details_ok(x: Json) -> bool {
    &&& x is Obj
    &&& req_str_ok(x, "nickname"@)
    &&& req_str_ok(x, "hashed_fingerprint"@)
    &&& req_str_arr_ok(x, "or_addresses"@)
    &&& req_str_ok(x, "last_seen"@)
    &&& req_str_ok(x, "first_seen"@)
    &&& req_bool_ok(x, "running"@)
    &&& opt_str_arr_ok(x, "flags"@)
    &&& opt_str_ok(x, "last_restarted"@)
    &&& opt_u64_ok(x, "advertised_bandwidth"@)
    &&& opt_u64_ok(x, "overload_general_timestamp"@)
    &&& opt_str_ok(x, "platform"@)
    &&& opt_str_ok(x, "version"@)
    &&& opt_bool_ok(x, "recommended_version"@)
    &&& opt_str_ok(x, "version_status"@)
    &&& opt_str_arr_ok(x, "transports"@)
    &&& opt_str_arr_ok(x, "blocklist"@)
    &&& opt_str_ok(x, "bridgedb_distributor"@)
    &&& opt_str_ok(x, "contact"@)
}

pub open spec fn bridge_details_rel(d: BridgeDetails, x: Json) -> bool {
    &&& d.nickname@ == req_str_val(x, "nickname"@)
    &&& d.hashed_fingerprint@ == req_str_val(x, "hashed_fingerprint"@)
    &&& d.or_addresses.deep_view() == req_str_arr_val(x, "or_addresses"@)
    &&& d.last_seen@ == req_str_val(x, "last_seen"@)
    &&& d.first_seen@ == req_str_val(x, "first_seen"@)
    &&& d.running == req_bool_val(x, "running"@)
    &&& d.flags.deep_view() == opt_str_arr_val(x, "flags"@)
    &&& d.last_restarted.deep_view() == opt_str_val(x, "last_restarted"@)
    &&& d.advertised_bandwidth == opt_u64_val(x, "advertised_bandwidth"@)
    &&& d.overload_general_timestamp == opt_u64_val(x, "overload_general_timestamp"@)
    &&& d.platform.deep_view() == opt_str_val(x, "platform"@)
    &&& d.version.deep_view() == opt_str_val(x, "version"@)
    &&& d.recommended_version == opt_bool_val(x, "recommended_version"@)
    &&& d.version_status.deep_view() == opt_str_val(x, "version_status"@)
    &&& d.transports.deep_view() == opt_str_arr_val(x, "transports"@)
    &&& d.blocklist.deep_view() == opt_str_arr_val(x, "blocklist"@)
    &&& d.bridgedb_distributor.deep_view() == opt_str_val(x, "bridgedb_distributor"@)
    &&& d.contact.deep_view() == opt_str_val(x, "contact"@)
}

/// Decodes one bridge details entry.
#[verifier::rlimit(100)]
pub fn decode_bridge_details(x: &Json) -> (r: Result<BridgeDetails, ClientError>)
    ensures
        r matches Ok(d) ==> bridge_details_ok(*x) && bridge_details_rel(d, *x),
        r matches Err(e) ==> !bridge_details_ok(*x) && e is Deserialization,
{
    if !is_obj(x) {
        return Err(shape_err());
    }
    let nickname = req_string(x, "nickname")?;
    let hashed_fingerprint = req_string(x, "hashed_fingerprint")?;
    let or_addresses = req_string_array(x, "or_addresses")?;
    let last_seen = req_string(x, "last_seen")?;
    let first_seen = req_string(x, "first_seen")?;
    let running = req_bool(x, "running")?;
    let flags = opt_string_array(x, "flags")?;
    let last_restarted = opt_string(x, "last_restarted")?;
    let advertised_bandwidth = opt_u64(x, "advertised_bandwidth")?;
    let overload_general_timestamp = opt_u64(x, "overload_general_timestamp")?;
    let platform = opt_string(x, "platform")?;
    let version = opt_string(x, "version")?;
    let recommended_version = opt_bool(x, "recommended_version")?;
    let version_status = opt_string(x, "version_status")?;
    let transports = opt_string_array(x, "transports")?;
    let blocklist = opt_string_array(x, "blocklist")?;
    let bridgedb_distributor = opt_string(x, "bridgedb_distributor")?;
    let contact = opt_string(x, "contact")?;
    Ok(BridgeDetails {
        nickname,
        hashed_fingerprint,
        or_addresses,
        last_seen,
        first_seen,
        running,
        flags,
        last_restarted,
        advertised_bandwidth,
        overload_general_timestamp,
        platform,
        version,
        recommended_version,
        version_status,
        transports,
        blocklist,
        bridgedb_distributor,
        contact,
    })
}


// ---------------------------------------------------------------------------
// Entry arrays.
// ---------------------------------------------------------------------------

fn decode_relay_summaries(items: &Vec<Json>) -> (r: Result<Vec<RelaySummary>, ClientError>)
    ensures
        r matches Ok(v) ==> v@.len() == items@.len() && (forall|i: int|
            0 <= i < items@.len() ==> relay_summary_ok(#[trigger] items@[i])) && (forall|i: int|
            0 <= i < items@.len() ==> relay_summary_rel(#[trigger] v@[i], items@[i])),
        r matches Err(e) ==> (exists|i: int|
            0 <= i < items@.len() && !relay_summary_ok(#[trigger] items@[i])) && e is Deserialization,
{
    let mut out: Vec<RelaySummary> = Vec::new();
    let mut i: usize = 0;
    while i < items.len()
        invariant
            0 <= i <= items@.len(),
            out@.len() == i,
            forall|k: int| 0 <= k < i ==> relay_summary_ok(#[trigger] items@[k]),
            forall|k: int| 0 <= k < i ==> relay_summary_rel(#[trigger] out@[k], items@[k]),
        decreases items@.len() - i,
    {
        match decode_relay_summary(&items[i]) {
            Ok(d) => out.push(d),
            Err(e) => {
                return Err(e);
            },
        }
        i = i + 1;
    }
    Ok(out)
}


fn decode_bridge_summaries(items: &Vec<Json>) -> (r: Result<Vec<BridgeSummary>, ClientError>)
    ensures
        r matches Ok(v) ==> v@.len() == items@.len() && (forall|i: int|
            0 <= i < items@.len() ==> bridge_summary_ok(#[trigger] items@[i])) && (forall|i: int|
            0 <= i < items@.len() ==> bridge_summary_rel(#[trigger] v@[i], items@[i])),
        r matches Err(e) ==> (exists|i: int|
            0 <= i < items@.len() && !bridge_summary_ok(#[trigger] items@[i])) && e is Deserialization,
{
    let mut out: Vec<BridgeSummary> = Vec::new();
    let mut i: usize = 0;
    while i < items.len()
        invariant
            0 <= i <= items@.len(),
            out@.len() == i,
            forall|k: int| 0 <= k < i ==> bridge_summary_ok(#[trigger] items@[k]),
            forall|k: int| 0 <= k < i ==> bridge_summary_rel(#[trigger] out@[k], items@[k]),
        decreases items@.len() - i,
    {
        match decode_bridge_summary(&items[i]) {
            Ok(d) => out.push(d),
            Err(e) => {
                return Err(e);
            },
        }
        i = i + 1;
    }
    Ok(out)
}


fn decode_relay_details_entries(items: &Vec<Json>) -> (r: Result<Vec<RelayDetails>, ClientError>)
    ensures
        r matches Ok(v) ==> v@.len() == items@.len() && (forall|i: int|
            0 <= i < items@.len() ==> relay_details_ok(#[trigger] items@[i])) && (forall|i: int|
            0 <= i < items@.len() ==> relay_details_rel(#[trigger] v@[i], items@[i])),
        r matches Err(e) ==> (exists|i: int|
            0 <= i < items@.len() && !relay_details_ok(#[trigger] items@[i])) && e is Deserialization,
{
    let mut out: Vec<RelayDetails> = Vec::new();
    let mut i: usize = 0;
    while i < items.len()
        invariant
            0 <= i <= items@.len(),
            out@.len() == i,
            forall|k: int| 0 <= k < i ==> relay_details_ok(#[trigger] items@[k]),
            forall|k: int| 0 <= k < i ==> relay_details_rel(#[trigger] out@[k], items@[k]),
        decreases items@.len() - i,
    {
        match decode_relay_details(&items[i]) {
            Ok(d) => out.push(d),
            Err(e) => {
                return Err(e);
            },
        }
        i = i + 1;
    }
    Ok(out)
}


fn decode_bridge_details_entries(items: &Vec<Json>) -> (r: Result<Vec<BridgeDetails>, ClientError>)
    ensures
        r matches Ok(v) ==> v@.len() == items@.len() && (forall|i: int|
            0 <= i < items@.len() ==> bridge_details_ok(#[trigger] items@[i])) && (forall|i: int|
            0 <= i < items@.len() ==> bridge_details_rel(#[trigger] v@[i], items@[i])),
        r matches Err(e) ==> (exists|i: int|
            0 <= i < items@.len() && !bridge_details_ok(#[trigger] items@[i])) && e is Deserialization,
{
    let mut out: Vec<BridgeDetails> = Vec::new();
    let mut i: usize = 0;
    while i < items.len()
        invariant
            0 <= i <= items@.len(),
            out@.len() == i,
            forall|k: int| 0 <= k < i ==> bridge_details_ok(#[trigger] items@[k]),
            forall|k: int| 0 <= k < i ==> bridge_details_rel(#[trigger] out@[k], items@[k]),
        decreases items@.len() - i,
    {
        match decode_bridge_details(&items[i]) {
            Ok(d) => out.push(d),
            Err(e) => {
                return Err(e);
            },
        }
        i = i + 1;
    }
    Ok(out)
}


fn decode_relay_bandwidths(items: &Vec<Json>) -> (r: Result<Vec<RelayBandwidth>, ClientError>)
    ensures
        r matches Ok(v) ==> v@.len() == items@.len() && (forall|i: int|
            0 <= i < items@.len() ==> bandwidth_entry_ok(#[trigger] items@[i])) && (forall|i: int|
            0 <= i < items@.len() ==> relay_bandwidth_rel(#[trigger] v@[i], items@[i])),
        r matches Err(e) ==> (exists|i: int|
            0 <= i < items@.len() && !bandwidth_entry_ok(#[trigger] items@[i])) && e is Deserialization,
{
    let mut out: Vec<RelayBandwidth> = Vec::new();
    let mut i: usize = 0;
    while i < items.len()
        invariant
            0 <= i <= items@.len(),
            out@.len() == i,
            forall|k: int| 0 <= k < i ==> bandwidth_entry_ok(#[trigger] items@[k]),
            forall|k: int| 0 <= k < i ==> relay_bandwidth_rel(#[trigger] out@[k], items@[k]),
        decreases items@.len() - i,
    {
        match decode_relay_bandwidth(&items[i]) {
            Ok(d) => out.push(d),
            Err(e) => {
                return Err(e);
            },
        }
        i = i + 1;
    }
    Ok(out)
}


fn decode_bridge_bandwidths(items: &Vec<Json>) -> (r: Result<Vec<BridgeBandwidth>, ClientError>)
    ensures
        r matches Ok(v) ==> v@.len() == items@.len() && (forall|i: int|
            0 <= i < items@.len() ==> bandwidth_entry_ok(#[trigger] items@[i])) && (forall|i: int|
            0 <= i < items@.len() ==> bridge_bandwidth_rel(#[trigger] v@[i], items@[i])),
        r matches Err(e) ==> (exists|i: int|
            0 <= i < items@.len() && !bandwidth_entry_ok(#[trigger] items@[i])) && e is Deserialization,
{
    let mut out: Vec<BridgeBandwidth> = Vec::new();
    let mut i: usize = 0;
    while i < items.len()
        invariant
            0 <= i <= items@.len(),
            out@.len() == i,
            forall|k: int| 0 <= k < i ==> bandwidth_entry_ok(#[trigger] items@[k]),
            forall|k: int| 0 <= k < i ==> bridge_bandwidth_rel(#[trigger] out@[k], items@[k]),
        decreases items@.len() - i,
    {
        match decode_bridge_bandwidth(&items[i]) {
            Ok(d) => out.push(d),
            Err(e) => {
                return Err(e);
            },
        }
        i = i + 1;
    }
    Ok(out)
}


fn decode_relay_weights_entries(items: &Vec<Json>) -> (r: Result<Vec<RelayWeights>, ClientError>)
    ensures
        r matches Ok(v) ==> v@.len() == items@.len() && (forall|i: int|
            0 <= i < items@.len() ==> relay_weights_ok(#[trigger] items@[i])) && (forall|i: int|
            0 <= i < items@.len() ==> relay_weights_rel(#[trigger] v@[i], items@[i])),
        r matches Err(e) ==> (exists|i: int|
            0 <= i < items@.len() && !relay_weights_ok(#[trigger] items@[i])) && e is Deserialization,
{
    let mut out: Vec<RelayWeights> = Vec::new();
    let mut i: usize = 0;
    while i < items.len()
        invariant
            0 <= i <= items@.len(),
            out@.len() == i,
            forall|k: int| 0 <= k < i ==> relay_weights_ok(#[trigger] items@[k]),
            forall|k: int| 0 <= k < i ==> relay_weights_rel(#[trigger] out@[k], items@[k]),
        decreases items@.len() - i,
    {
        match decode_relay_weights(&items[i]) {
            Ok(d) => out.push(d),
            Err(e) => {
                return Err(e);
            },
        }
        i = i + 1;
    }
    Ok(out)
}


fn decode_bridge_clients_entries(items: &Vec<Json>) -> (r: Result<Vec<BridgeClients>, ClientError>)
    ensures
        r matches Ok(v) ==> v@.len() == items@.len() && (forall|i: int|
            0 <= i < items@.len() ==> bridge_clients_ok(#[trigger] items@[i])) && (forall|i: int|
            0 <= i < items@.len() ==> bridge_clients_rel(#[trigger] v@[i], items@[i])),
        r matches Err(e) ==> (exists|i: int|
            0 <= i < items@.len() && !bridge_clients_ok(#[trigger] items@[i])) && e is Deserialization,
{
    let mut out: Vec<BridgeClients> = Vec::new();
    let mut i: usize = 0;
    while i < items.len()
        invariant
            0 <= i <= items@.len(),
            out@.len() == i,
            forall|k: int| 0 <= k < i ==> bridge_clients_ok(#[trigger] items@[k]),
            forall|k: int| 0 <= k < i ==> bridge_clients_rel(#[trigger] out@[k], items@[k]),
        decreases items@.len() - i,
    {
        match decode_bridge_clients(&items[i]) {
            Ok(d) => out.push(d),
            Err(e) => {
                return Err(e);
            },
        }
        i = i + 1;
    }
    Ok(out)
}


fn decode_relay_uptimes(items: &Vec<Json>) -> (r: Result<Vec<RelayUptime>, ClientError>)
    ensures
        r matches Ok(v) ==> v@.len() == items@.len() && (forall|i: int|
            0 <= i < items@.len() ==> relay_uptime_ok(#[trigger] items@[i])) && (forall|i: int|
            0 <= i < items@.len() ==> relay_uptime_rel(#[trigger] v@[i], items@[i])),
        r matches Err(e) ==> (exists|i: int|
            0 <= i < items@.len() && !relay_uptime_ok(#[trigger] items@[i])) && e is Deserialization,
{
    let mut out: Vec<RelayUptime> = Vec::new();
    let mut i: usize = 0;
    while i < items.len()
        invariant
            0 <= i <= items@.len(),
            out@.len() == i,
            forall|k: int| 0 <= k < i ==> relay_uptime_ok(#[trigger] items@[k]),
            forall|k: int| 0 <= k < i ==> relay_uptime_rel(#[trigger] out@[k], items@[k]),
        decreases items@.len() - i,
    {
        match decode_relay_uptime(&items[i]) {
            Ok(d) => out.push(d),
            Err(e) => {
                return Err(e);
            },
        }
        i = i + 1;
    }
    Ok(out)
}


fn decode_bridge_uptimes(items: &Vec<Json>) -> (r: Result<Vec<BridgeUptime>, ClientError>)
    ensures
        r matches Ok(v) ==> v@.len() == items@.len() && (forall|i: int|
            0 <= i < items@.len() ==> bridge_uptime_ok(#[trigger] items@[i])) && (forall|i: int|
            0 <= i < items@.len() ==> bridge_uptime_rel(#[trigger] v@[i], items@[i])),
        r matches Err(e) ==> (exists|i: int|
            0 <= i < items@.len() && !bridge_uptime_ok(#[trigger] items@[i])) && e is Deserialization,
{
    let mut out: Vec<BridgeUptime> = Vec::new();
    let mut i: usize = 0;
    while i < items.len()
        invariant
            0 <= i <= items@.len(),
            out@.len() == i,
            forall|k: int| 0 <= k < i ==> bridge_uptime_ok(#[trigger] items@[k]),
            forall|k: int| 0 <= k < i ==> bridge_uptime_rel(#[trigger] out@[k], items@[k]),
        decreases items@.len() - i,
    {
        match decode_bridge_uptime(&items[i]) {
            Ok(d) => out.push(d),
            Err(e) => {
                return Err(e);
            },
        }
        i = i + 1;
    }
    Ok(out)
}


/// The entry type of the unused side of a Weights or Clients document: it
/// decodes from `null` alone, as a unit value.
pub open spec fn unit_entry_ok(x: Json) -> bool {
    x is Null
}

fn decode_unit_entries(items: &Vec<Json>) -> (r: Result<Vec<()>, ClientError>)
    ensures
        r matches Ok(v) ==> v@.len() == items@.len() && (forall|i: int|
            0 <= i < items@.len() ==> unit_entry_ok(#[trigger] items@[i])),
        r matches Err(e) ==> (exists|i: int|
            0 <= i < items@.len() && !unit_entry_ok(#[trigger] items@[i])) && e is Deserialization,
{
    let mut out: Vec<()> = Vec::new();
    let mut i: usize = 0;
    while i < items.len()
        invariant
            0 <= i <= items@.len(),
            out@.len() == i,
            forall|k: int| 0 <= k < i ==> unit_entry_ok(#[trigger] items@[k]),
        decreases items@.len() - i,
    {
        match &items[i] {
            Json::Null => out.push(()),
            _ => {
                return Err(shape_err());
            },
        }
        i = i + 1;
    }
    Ok(out)
}


// ---------------------------------------------------------------------------
// Whole documents.
// ---------------------------------------------------------------------------

/// The shape of the top-level metadata every response document carries:
/// `version`, the two snapshot timestamps and the two entry arrays are
/// mandatory, the counters optional.
pub open spec fn response_meta_ok(j: Json) -> bool {
    &&& j is Obj
    &&& req_str_ok(j, "version"@)
    &&& opt_str_ok(j, "next_major_version_scheduled"@)
    &&& opt_str_ok(j, "build_revision"@)
    &&& req_str_ok(j, "relays_published"@)
    &&& opt_u64_ok(j, "relays_skipped"@)
    &&& jfield(j, "relays"@) matches Some(Json::Arr(_))
    &&& opt_u64_ok(j, "relays_truncated"@)
    &&& req_str_ok(j, "bridges_published"@)
    &&& opt_u64_ok(j, "bridges_skipped"@)
    &&& jfield(j, "bridges"@) matches Some(Json::Arr(_))
    &&& opt_u64_ok(j, "bridges_truncated"@)
}

/// The elements of the document's `relays` array.
pub open spec fn relays_arr(j: Json) -> Seq<Json> {
    match jfield(j, "relays"@) {
        Some(Json::Arr(a)) => a@,
        _ => Seq::empty(),
    }
}

/// The elements of the document's `bridges` array.
pub open spec fn bridges_arr(j: Json) -> Seq<Json> {
    match jfield(j, "bridges"@) {
        Some(Json::Arr(a)) => a@,
        _ => Seq::empty(),
    }
}

/// What a decoded document's metadata holds of the wire object.
pub open spec fn response_meta_rel<T, U>(d: OnionooResponse<T, U>, j: Json) -> bool {
    &&& d.version@ == req_str_val(j, "version"@)
    &&& d.next_major_version_scheduled.deep_view() == opt_str_val(
        j,
        "next_major_version_scheduled"@,
    )
    &&& d.build_revision.deep_view() == opt_str_val(j, "build_revision"@)
    &&& d.relays_published@ == req_str_val(j, "relays_published"@)
    &&& d.relays_skipped == opt_u64_val(j, "relays_skipped"@)
    &&& d.relays_truncated == opt_u64_val(j, "relays_truncated"@)
    &&& d.bridges_published@ == req_str_val(j, "bridges_published"@)
    &&& d.bridges_skipped == opt_u64_val(j, "bridges_skipped"@)
    &&& d.bridges_truncated == opt_u64_val(j, "bridges_truncated"@)
}

fn req_array<'a>(j: &'a Json, key: &str) -> (r: Result<&'a Vec<Json>, ClientError>)
    ensures
        r matches Ok(a) ==> jfield(*j, key@) == Some(Json::Arr(*a)),
        r matches Err(e) ==> !(jfield(*j, key@) matches Some(Json::Arr(_))) && e
            is Deserialization,
{
    match get(j, key) {
        Some(Json::Arr(a)) => Ok(a),
        _ => Err(field_err(key)),
    }
}

/// The shape of a whole summary document.
pub open spec fn summary_doc_ok(j: Json) -> bool {
    &&& response_meta_ok(j)
    &&& forall|i: int| 0 <= i < relays_arr(j).len() ==> relay_summary_ok(#[trigger] relays_arr(j)[i])
    &&& forall|i: int| 0 <= i < bridges_arr(j).len() ==> bridge_summary_ok(#[trigger] bridges_arr(j)[i])
}

/// What a decoded summary document holds of the wire object.
pub open spec fn summary_doc_rel(d: SummaryResponse, j: Json) -> bool {
    &&& response_meta_rel(d, j)
    &&& d.relays@.len() == relays_arr(j).len()
    &&& d.bridges@.len() == bridges_arr(j).len()
    &&& forall|i: int| 0 <= i < relays_arr(j).len() ==> relay_summary_rel(#[trigger] d.relays@[i], relays_arr(j)[i])
    &&& forall|i: int| 0 <= i < bridges_arr(j).len() ==> bridge_summary_rel(#[trigger] d.bridges@[i], bridges_arr(j)[i])
}

/// Decodes a summary document from response body text: `Ok` exactly when
/// the body is valid JSON of the document's shape.
pub fn decode_summary(body: &str) -> (r: Result<SummaryResponse, ClientError>)
    ensures
        r matches Ok(d) ==> (json_of(body@) matches Some(j) && summary_doc_ok(j) && summary_doc_rel(d, j)),
        r matches Err(e) ==> e is Deserialization && match json_of(body@) {
            Some(j) => !summary_doc_ok(j),
            None => true,
        },
{
    let tree = match parse_json(body) {
        Ok(t) => t,
        Err(m) => {
            return Err(ClientError::Deserialization(m));
        },
    };
    let j = &tree;
    if !is_obj(j) {
        return Err(shape_err());
    }
    let version = req_string(j, "version")?;
    let next_major_version_scheduled = opt_string(j, "next_major_version_scheduled")?;
    let build_revision = opt_string(j, "build_revision")?;
    let relays_published = req_string(j, "relays_published")?;
    let relays_skipped = opt_u64(j, "relays_skipped")?;
    let relays_items = req_array(j, "relays")?;
    let relays = match decode_relay_summaries(relays_items) {
        Ok(v) => v,
        Err(e) => {
            proof {
                let bad = choose|i: int|
                    0 <= i < relays_items@.len() && !relay_summary_ok(relays_items@[i]);
                assert(relays_arr(*j)[bad] == relays_items@[bad]);
                assert(!relay_summary_ok(relays_arr(*j)[bad]));
            }
            return Err(e);
        },
    };
    let relays_truncated = opt_u64(j, "relays_truncated")?;
    let bridges_published = req_string(j, "bridges_published")?;
    let bridges_skipped = opt_u64(j, "bridges_skipped")?;
    let bridges_items = req_array(j, "bridges")?;
    let bridges = match decode_bridge_summaries(bridges_items) {
        Ok(v) => v,
        Err(e) => {
            proof {
                let bad = choose|i: int|
                    0 <= i < bridges_items@.len() && !bridge_summary_ok(bridges_items@[i]);
                assert(bridges_arr(*j)[bad] == bridges_items@[bad]);
                assert(!bridge_summary_ok(bridges_arr(*j)[bad]));
            }
            return Err(e);
        },
    };
    let bridges_truncated = opt_u64(j, "bridges_truncated")?;
    Ok(OnionooResponse {
        version,
        next_major_version_scheduled,
        build_revision,
        relays_published,
        relays_skipped,
        relays,
        relays_truncated,
        bridges_published,
        bridges_skipped,
        bridges,
        bridges_truncated,
    })
}

/// The shape of a whole details document.
pub open spec fn details_doc_ok(j: Json) -> bool {
    &&& response_meta_ok(j)
    &&& forall|i: int| 0 <= i < relays_arr(j).len() ==> relay_details_ok(#[trigger] relays_arr(j)[i])
    &&& forall|i: int| 0 <= i < bridges_arr(j).len() ==> bridge_details_ok(#[trigger] bridges_arr(j)[i])
}

/// What a decoded details document holds of the wire object.
pub open spec fn details_doc_rel(d: DetailsResponse, j: Json) -> bool {
    &&& response_meta_rel(d, j)
    &&& d.relays@.len() == relays_arr(j).len()
    &&& d.bridges@.len() == bridges_arr(j).len()
    &&& forall|i: int| 0 <= i < relays_arr(j).len() ==> relay_details_rel(#[trigger] d.relays@[i], relays_arr(j)[i])
    &&& forall|i: int| 0 <= i < bridges_arr(j).len() ==> bridge_details_rel(#[trigger] d.bridges@[i], bridges_arr(j)[i])
}

/// Decodes a details document from response body text: `Ok` exactly when
/// the body is valid JSON of the document's shape.
pub fn decode_details(body: &str) -> (r: Result<DetailsResponse, ClientError>)
    ensures
        r matches Ok(d) ==> (json_of(body@) matches Some(j) && details_doc_ok(j) && details_doc_rel(d, j)),
        r matches Err(e) ==> e is Deserialization && match json_of(body@) {
            Some(j) => !details_doc_ok(j),
            None => true,
        },
{
    let tree = match parse_json(body) {
        Ok(t) => t,
        Err(m) => {
            return Err(ClientError::Deserialization(m));
        },
    };
    let j = &tree;
    if !is_obj(j) {
        return Err(shape_err());
    }
    let version = req_string(j, "version")?;
    let next_major_version_scheduled = opt_string(j, "next_major_version_scheduled")?;
    let build_revision = opt_string(j, "build_revision")?;
    let relays_published = req_string(j, "relays_published")?;
    let relays_skipped = opt_u64(j, "relays_skipped")?;
    let relays_items = req_array(j, "relays")?;
    let relays = match decode_relay_details_entries(relays_items) {
        Ok(v) => v,
        Err(e) => {
            proof {
                let bad = choose|i: int|
                    0 <= i < relays_items@.len() && !relay_details_ok(relays_items@[i]);
                assert(relays_arr(*j)[bad] == relays_items@[bad]);
                assert(!relay_details_ok(relays_arr(*j)[bad]));
            }
            return Err(e);
        },
    };
    let relays_truncated = opt_u64(j, "relays_truncated")?;
    let bridges_published = req_string(j, "bridges_published")?;
    let bridges_skipped = opt_u64(j, "bridges_skipped")?;
    let bridges_items = req_array(j, "bridges")?;
    let bridges = match decode_bridge_details_entries(bridges_items) {
        Ok(v) => v,
        Err(e) => {
            proof {
                let bad = choose|i: int|
                    0 <= i < bridges_items@.len() && !bridge_details_ok(bridges_items@[i]);
                assert(bridges_arr(*j)[bad] == bridges_items@[bad]);
                assert(!bridge_details_ok(bridges_arr(*j)[bad]));
            }
            return Err(e);
        },
    };
    let bridges_truncated = opt_u64(j, "bridges_truncated")?;
    Ok(OnionooResponse {
        version,
        next_major_version_scheduled,
        build_revision,
        relays_published,
        relays_skipped,
        relays,
        relays_truncated,
        bridges_published,
        bridges_skipped,
        bridges,
        bridges_truncated,
    })
}

/// The shape of a whole bandwidth document.
pub open spec fn bandwidth_doc_ok(j: Json) -> bool {
    &&& response_meta_ok(j)
    &&& forall|i: int| 0 <= i < relays_arr(j).len() ==> bandwidth_entry_ok(#[trigger] relays_arr(j)[i])
    &&& forall|i: int| 0 <= i < bridges_arr(j).len() ==> bandwidth_entry_ok(#[trigger] bridges_arr(j)[i])
}

/// What a decoded bandwidth document holds of the wire object.
pub open spec fn bandwidth_doc_rel(d: BandwidthResponse, j: Json) -> bool {
    &&& response_meta_rel(d, j)
    &&& d.relays@.len() == relays_arr(j).len()
    &&& d.bridges@.len() == bridges_arr(j).len()
    &&& forall|i: int| 0 <= i < relays_arr(j).len() ==> relay_bandwidth_rel(#[trigger] d.relays@[i], relays_arr(j)[i])
    &&& forall|i: int| 0 <= i < bridges_arr(j).len() ==> bridge_bandwidth_rel(#[trigger] d.bridges@[i], bridges_arr(j)[i])
}

/// Decodes a bandwidth document from response body text: `Ok` exactly when
/// the body is valid JSON of the document's shape.
pub fn decode_bandwidth(body: &str) -> (r: Result<BandwidthResponse, ClientError>)
    ensures
        r matches Ok(d) ==> (json_of(body@) matches Some(j) && bandwidth_doc_ok(j) && bandwidth_doc_rel(d, j)),
        r matches Err(e) ==> e is Deserialization && match json_of(body@) {
            Some(j) => !bandwidth_doc_ok(j),
            None => true,
        },
{
    let tree = match parse_json(body) {
        Ok(t) => t,
        Err(m) => {
            return Err(ClientError::Deserialization(m));
        },
    };
    let j = &tree;
    if !is_obj(j) {
        return Err(shape_err());
    }
    let version = req_string(j, "version")?;
    let next_major_version_scheduled = opt_string(j, "next_major_version_scheduled")?;
    let build_revision = opt_string(j, "build_revision")?;
    let relays_published = req_string(j, "relays_published")?;
    let relays_skipped = opt_u64(j, "relays_skipped")?;
    let relays_items = req_array(j, "relays")?;
    let relays = match decode_relay_bandwidths(relays_items) {
        Ok(v) => v,
        Err(e) => {
            proof {
                let bad = choose|i: int|
                    0 <= i < relays_items@.len() && !bandwidth_entry_ok(relays_items@[i]);
                assert(relays_arr(*j)[bad] == relays_items@[bad]);
                assert(!bandwidth_entry_ok(relays_arr(*j)[bad]));
            }
            return Err(e);
        },
    };
    let relays_truncated = opt_u64(j, "relays_truncated")?;
    let bridges_published = req_string(j, "bridges_published")?;
    let bridges_skipped = opt_u64(j, "bridges_skipped")?;
    let bridges_items = req_array(j, "bridges")?;
    let bridges = match decode_bridge_bandwidths(bridges_items) {
        Ok(v) => v,
        Err(e) => {
            proof {
                let bad = choose|i: int|
                    0 <= i < bridges_items@.len() && !bandwidth_entry_ok(bridges_items@[i]);
                assert(bridges_arr(*j)[bad] == bridges_items@[bad]);
                assert(!bandwidth_entry_ok(bridges_arr(*j)[bad]));
            }
            return Err(e);
        },
    };
    let bridges_truncated = opt_u64(j, "bridges_truncated")?;
    Ok(OnionooResponse {
        version,
        next_major_version_scheduled,
        build_revision,
        relays_published,
        relays_skipped,
        relays,
        relays_truncated,
        bridges_published,
        bridges_skipped,
        bridges,
        bridges_truncated,
    })
}

/// The shape of a whole weights document.
pub open spec fn weights_doc_ok(j: Json) -> bool {
    &&& response_meta_ok(j)
    &&& forall|i: int| 0 <= i < relays_arr(j).len() ==> relay_weights_ok(#[trigger] relays_arr(j)[i])
    &&& forall|i: int| 0 <= i < bridges_arr(j).len() ==> unit_entry_ok(#[trigger] bridges_arr(j)[i])
}

/// What a decoded weights document holds of the wire object.
pub open spec fn weights_doc_rel(d: WeightsResponse, j: Json) -> bool {
    &&& response_meta_rel(d, j)
    &&& d.relays@.len() == relays_arr(j).len()
    &&& d.bridges@.len() == bridges_arr(j).len()
    &&& forall|i: int| 0 <= i < relays_arr(j).len() ==> relay_weights_rel(#[trigger] d.relays@[i], relays_arr(j)[i])
    
}

/// Decodes a weights document from response body text: `Ok` exactly when
/// the body is valid JSON of the document's shape.
pub fn decode_weights(body: &str) -> (r: Result<WeightsResponse, ClientError>)
    ensures
        r matches Ok(d) ==> (json_of(body@) matches Some(j) && weights_doc_ok(j) && weights_doc_rel(d, j)),
        r matches Err(e) ==> e is Deserialization && match json_of(body@) {
            Some(j) => !weights_doc_ok(j),
            None => true,
        },
{
    let tree = match parse_json(body) {
        Ok(t) => t,
        Err(m) => {
            return Err(ClientError::Deserialization(m));
        },
    };
    let j = &tree;
    if !is_obj(j) {
        return Err(shape_err());
    }
    let version = req_string(j, "version")?;
    let next_major_version_scheduled = opt_string(j, "next_major_version_scheduled")?;
    let build_revision = opt_string(j, "build_revision")?;
    let relays_published = req_string(j, "relays_published")?;
    let relays_skipped = opt_u64(j, "relays_skipped")?;
    let relays_items = req_array(j, "relays")?;
    let relays = match decode_relay_weights_entries(relays_items) {
        Ok(v) => v,
        Err(e) => {
            proof {
                let bad = choose|i: int|
                    0 <= i < relays_items@.len() && !relay_weights_ok(relays_items@[i]);
                assert(relays_arr(*j)[bad] == relays_items@[bad]);
                assert(!relay_weights_ok(relays_arr(*j)[bad]));
            }
            return Err(e);
        },
    };
    let relays_truncated = opt_u64(j, "relays_truncated")?;
    let bridges_published = req_string(j, "bridges_published")?;
    let bridges_skipped = opt_u64(j, "bridges_skipped")?;
    let bridges_items = req_array(j, "bridges")?;
    let bridges = match decode_unit_entries(bridges_items) {
        Ok(v) => v,
        Err(e) => {
            proof {
                let bad = choose|i: int|
                    0 <= i < bridges_items@.len() && !unit_entry_ok(bridges_items@[i]);
                assert(bridges_arr(*j)[bad] == bridges_items@[bad]);
                assert(!unit_entry_ok(bridges_arr(*j)[bad]));
            }
            return Err(e);
        },
    };
    let bridges_truncated = opt_u64(j, "bridges_truncated")?;
    Ok(OnionooResponse {
        version,
        next_major_version_scheduled,
        build_revision,
        relays_published,
        relays_skipped,
        relays,
        relays_truncated,
        bridges_published,
        bridges_skipped,
        bridges,
        bridges_truncated,
    })
}

/// The shape of a whole clients document.
pub open spec fn clients_doc_ok(j: Json) -> bool {
    &&& response_meta_ok(j)
    &&& forall|i: int| 0 <= i < relays_arr(j).len() ==> unit_entry_ok(#[trigger] relays_arr(j)[i])
    &&& forall|i: int| 0 <= i < bridges_arr(j).len() ==> bridge_clients_ok(#[trigger] bridges_arr(j)[i])
}

/// What a decoded clients document holds of the wire object.
pub open spec fn clients_doc_rel(d: ClientsResponse, j: Json) -> bool {
    &&& response_meta_rel(d, j)
    &&& d.relays@.len() == relays_arr(j).len()
    &&& d.bridges@.len() == bridges_arr(j).len()
    
    &&& forall|i: int| 0 <= i < bridges_arr(j).len() ==> bridge_clients_rel(#[trigger] d.bridges@[i], bridges_arr(j)[i])
}

/// Decodes a clients document from response body text: `Ok` exactly when
/// the body is valid JSON of the document's shape.
pub fn decode_clients(body: &str) -> (r: Result<ClientsResponse, ClientError>)
    ensures
        r matches Ok(d) ==> (json_of(body@) matches Some(j) && clients_doc_ok(j) && clients_doc_rel(d, j)),
        r matches Err(e) ==> e is Deserialization && match json_of(body@) {
            Some(j) => !clients_doc_ok(j),
            None => true,
        },
{
    let tree = match parse_json(body) {
        Ok(t) => t,
        Err(m) => {
            return Err(ClientError::Deserialization(m));
        },
    };
    let j = &tree;
    if !is_obj(j) {
        return Err(shape_err());
    }
    let version = req_string(j, "version")?;
    let next_major_version_scheduled = opt_string(j, "next_major_version_scheduled")?;
    let build_revision = opt_string(j, "build_revision")?;
    let relays_published = req_string(j, "relays_published")?;
    let relays_skipped = opt_u64(j, "relays_skipped")?;
    let relays_items = req_array(j, "relays")?;
    let relays = match decode_unit_entries(relays_items) {
        Ok(v) => v,
        Err(e) => {
            proof {
                let bad = choose|i: int|
                    0 <= i < relays_items@.len() && !unit_entry_ok(relays_items@[i]);
                assert(relays_arr(*j)[bad] == relays_items@[bad]);
                assert(!unit_entry_ok(relays_arr(*j)[bad]));
            }
            return Err(e);
        },
    };
    let relays_truncated = opt_u64(j, "relays_truncated")?;
    let bridges_published = req_string(j, "bridges_published")?;
    let bridges_skipped = opt_u64(j, "bridges_skipped")?;
    let bridges_items = req_array(j, "bridges")?;
    let bridges = match decode_bridge_clients_entries(bridges_items) {
        Ok(v) => v,
        Err(e) => {
            proof {
                let bad = choose|i: int|
                    0 <= i < bridges_items@.len() && !bridge_clients_ok(bridges_items@[i]);
                assert(bridges_arr(*j)[bad] == bridges_items@[bad]);
                assert(!bridge_clients_ok(bridges_arr(*j)[bad]));
            }
            return Err(e);
        },
    };
    let bridges_truncated = opt_u64(j, "bridges_truncated")?;
    Ok(OnionooResponse {
        version,
        next_major_version_scheduled,
        build_revision,
        relays_published,
        relays_skipped,
        relays,
        relays_truncated,
        bridges_published,
        bridges_skipped,
        bridges,
        bridges_truncated,
    })
}

/// The shape of a whole uptime document.
pub open spec fn uptime_doc_ok(j: Json) -> bool {
    &&& response_meta_ok(j)
    &&& forall|i: int| 0 <= i < relays_arr(j).len() ==> relay_uptime_ok(#[trigger] relays_arr(j)[i])
    &&& forall|i: int| 0 <= i < bridges_arr(j).len() ==> bridge_uptime_ok(#[trigger] bridges_arr(j)[i])
}

/// What a decoded uptime document holds of the wire object.
pub open spec fn uptime_doc_rel(d: UptimeResponse, j: Json) -> bool {
    &&& response_meta_rel(d, j)
    &&& d.relays@.len() == relays_arr(j).len()
    &&& d.bridges@.len() == bridges_arr(j).len()
    &&& forall|i: int| 0 <= i < relays_arr(j).len() ==> relay_uptime_rel(#[trigger] d.relays@[i], relays_arr(j)[i])
    &&& forall|i: int| 0 <= i < bridges_arr(j).len() ==> bridge_uptime_rel(#[trigger] d.bridges@[i], bridges_arr(j)[i])
}

/// Decodes an uptime document from response body text: `Ok` exactly when
/// the body is valid JSON of the document's shape.
pub fn decode_uptime(body: &str) -> (r: Result<UptimeResponse, ClientError>)
    ensures
        r matches Ok(d) ==> (json_of(body@) matches Some(j) && uptime_doc_ok(j) && uptime_doc_rel(d, j)),
        r matches Err(e) ==> e is Deserialization && match json_of(body@) {
            Some(j) => !uptime_doc_ok(j),
            None => true,
        },
{
    let tree = match parse_json(body) {
        Ok(t) => t,
        Err(m) => {
            return Err(ClientError::Deserialization(m));
        },
    };
    let j = &tree;
    if !is_obj(j) {
        return Err(shape_err());
    }
    let version = req_string(j, "version")?;
    let next_major_version_scheduled = opt_string(j, "next_major_version_scheduled")?;
    let build_revision = opt_string(j, "build_revision")?;
    let relays_published = req_string(j, "relays_published")?;
    let relays_skipped = opt_u64(j, "relays_skipped")?;
    let relays_items = req_array(j, "relays")?;
    let relays = match decode_relay_uptimes(relays_items) {
        Ok(v) => v,
        Err(e) => {
            proof {
                let bad = choose|i: int|
                    0 <= i < relays_items@.len() && !relay_uptime_ok(relays_items@[i]);
                assert(relays_arr(*j)[bad] == relays_items@[bad]);
                assert(!relay_uptime_ok(relays_arr(*j)[bad]));
            }
            return Err(e);
        },
    };
    let relays_truncated = opt_u64(j, "relays_truncated")?;
    let bridges_published = req_string(j, "bridges_published")?;
    let bridges_skipped = opt_u64(j, "bridges_skipped")?;
    let bridges_items = req_array(j, "bridges")?;
    let bridges = match decode_bridge_uptimes(bridges_items) {
        Ok(v) => v,
        Err(e) => {
            proof {
                let bad = choose|i: int|
                    0 <= i < bridges_items@.len() && !bridge_uptime_ok(bridges_items@[i]);
                assert(bridges_arr(*j)[bad] == bridges_items@[bad]);
                assert(!bridge_uptime_ok(bridges_arr(*j)[bad]));
            }
            return Err(e);
        },
    };
    let bridges_truncated = opt_u64(j, "bridges_truncated")?;
    Ok(OnionooResponse {
        version,
        next_major_version_scheduled,
        build_revision,
        relays_published,
        relays_skipped,
        relays,
        relays_truncated,
        bridges_published,
        bridges_skipped,
        bridges,
        bridges_truncated,
    })
}


// ---------------------------------------------------------------------------
// Laws.
// ---------------------------------------------------------------------------

/// A well-formed Weights document — one whose bridge array is empty, as the
/// service always sends for this relay-only endpoint — decodes to an empty
/// bridge sequence, whatever else the document holds and in whatever order
/// its keys appear.
pub proof fn lemma_weights_bridges_empty(d: WeightsResponse, j: Json)
    requires
        weights_doc_rel(d, j),
        bridges_arr(j).len() == 0,
    ensures
        d.bridges@.len() == 0,
{
}

/// A well-formed Clients document — one whose relay array is empty, as the
/// service always sends for this bridge-only endpoint — decodes to an empty
/// relay sequence, whatever else the document holds and in whatever order
/// its keys appear.
pub proof fn lemma_clients_relays_empty(d: ClientsResponse, j: Json)
    requires
        clients_doc_rel(d, j),
        relays_arr(j).len() == 0,
    ensures
        d.relays@.len() == 0,
{
}

/// Missing-optional tolerance: a relay details entry that carries only the
/// mandatory fields — every optional key absent — still has the document
/// shape, so it decodes successfully; and whatever decodes from it has every
/// optional field in the absent state. The mandatory fields are pinned by
/// [`relay_details_rel`] as for any entry.
pub proof fn lemma_relay_details_optionals_absent(x: Json)
    requires
        x is Obj,
        req_str_ok(x, "nickname"@),
        req_str_ok(x, "fingerprint"@),
        req_str_arr_ok(x, "or_addresses"@),
        req_str_ok(x, "last_seen"@),
        req_str_ok(x, "last_changed_address_or_port"@),
        req_str_ok(x, "first_seen"@),
        req_bool_ok(x, "running"@),
        req_u64_ok(x, "consensus_weight"@),
        jfield(x, "exit_addresses"@) is None,
        jfield(x, "dir_address"@) is None,
        jfield(x, "hibernating"@) is None,
        jfield(x, "flags"@) is None,
        jfield(x, "country"@) is None,
        jfield(x, "country_name"@) is None,
        jfield(x, "region_name"@) is None,
        jfield(x, "city_name"@) is None,
        jfield(x, "latitude"@) is None,
        jfield(x, "longitude"@) is None,
        jfield(x, "as"@) is None,
        jfield(x, "as_name"@) is None,
        jfield(x, "verified_host_names"@) is None,
        jfield(x, "unverified_host_names"@) is None,
        jfield(x, "last_restarted"@) is None,
        jfield(x, "bandwidth_rate"@) is None,
        jfield(x, "bandwidth_burst"@) is None,
        jfield(x, "observed_bandwidth"@) is None,
        jfield(x, "advertised_bandwidth"@) is None,
        jfield(x, "overload_general_timestamp"@) is None,
        jfield(x, "exit_policy"@) is None,
        jfield(x, "exit_policy_summary"@) is None,
        jfield(x, "exit_policy_v6_summary"@) is None,
        jfield(x, "contact"@) is None,
        jfield(x, "platform"@) is None,
        jfield(x, "version"@) is None,
        jfield(x, "recommended_version"@) is None,
        jfield(x, "version_status"@) is None,
        jfield(x, "effective_family"@) is None,
        jfield(x, "alleged_family"@) is None,
        jfield(x, "indirect_family"@) is None,
        jfield(x, "consensus_weight_fraction"@) is None,
        jfield(x, "guard_probability"@) is None,
        jfield(x, "middle_probability"@) is None,
        jfield(x, "exit_probability"@) is None,
        jfield(x, "measured"@) is None,
        jfield(x, "unreachable_or_addresses"@) is None,
    ensures
        relay_details_ok(x),
        (forall|d: RelayDetails| relay_details_rel(d, x) ==> {
            &&& d.exit_addresses is None
            &&& d.dir_address is None
            &&& d.hibernating is None
            &&& d.flags is None
            &&& d.country is None
            &&& d.country_name is None
            &&& d.region_name is None
            &&& d.city_name is None
            &&& d.latitude is None
            &&& d.longitude is None
            &&& d.as_number is None
            &&& d.as_name is None
            &&& d.verified_host_names is None
            &&& d.unverified_host_names is None
            &&& d.last_restarted is None
            &&& d.bandwidth_rate is None
            &&& d.bandwidth_burst is None
            &&& d.observed_bandwidth is None
            &&& d.advertised_bandwidth is None
            &&& d.overload_general_timestamp is None
            &&& d.exit_policy is None
            &&& d.exit_policy_summary is None
            &&& d.exit_policy_v6_summary is None
            &&& d.contact is None
            &&& d.platform is None
            &&& d.version is None
            &&& d.recommended_version is None
            &&& d.version_status is None
            &&& d.effective_family is None
            &&& d.alleged_family is None
            &&& d.indirect_family is None
            &&& d.consensus_weight_fraction is None
            &&& d.guard_probability is None
            &&& d.middle_probability is None
            &&& d.exit_probability is None
            &&& d.measured is None
            &&& d.unreachable_or_addresses is None
        }),
{
}

/// Appending a binding for a different key leaves a lookup unchanged.
pub proof fn lemma_lookup_unaffected(fs: Seq<(String, Json)>, extra: (String, Json), key: Seq<char>)
    requires
        extra.0@ != key,
    ensures
        lookup(fs.push(extra), key) == lookup(fs, key),
{
    assert(fs.push(extra).drop_last() =~= fs);
}

/// The top-level keys every response document recognizes.
pub open spec fn is_meta_key(k: Seq<char>) -> bool {
    ||| k == "version"@
    ||| k == "next_major_version_scheduled"@
    ||| k == "build_revision"@
    ||| k == "relays_published"@
    ||| k == "relays_skipped"@
    ||| k == "relays"@
    ||| k == "relays_truncated"@
    ||| k == "bridges_published"@
    ||| k == "bridges_skipped"@
    ||| k == "bridges"@
    ||| k == "bridges_truncated"@
}

/// Adding one binding for an unrecognized key to a document object leaves
/// every recognized field unchanged.
proof fn lemma_meta_fields_unaffected(j1: Json, j2: Json, extra: (String, Json))
    requires
        j1 is Obj,
        j2 is Obj,
        (j2->Obj_0)@ == (j1->Obj_0)@.push(extra),
        !is_meta_key(extra.0@),
    ensures
        jfield(j2, "version"@) == jfield(j1, "version"@),
        jfield(j2, "next_major_version_scheduled"@) == jfield(j1, "next_major_version_scheduled"@),
        jfield(j2, "build_revision"@) == jfield(j1, "build_revision"@),
        jfield(j2, "relays_published"@) == jfield(j1, "relays_published"@),
        jfield(j2, "relays_skipped"@) == jfield(j1, "relays_skipped"@),
        jfield(j2, "relays"@) == jfield(j1, "relays"@),
        jfield(j2, "relays_truncated"@) == jfield(j1, "relays_truncated"@),
        jfield(j2, "bridges_published"@) == jfield(j1, "bridges_published"@),
        jfield(j2, "bridges_skipped"@) == jfield(j1, "bridges_skipped"@),
        jfield(j2, "bridges"@) == jfield(j1, "bridges"@),
        jfield(j2, "bridges_truncated"@) == jfield(j1, "bridges_truncated"@),
{
    let fs = (j1->Obj_0)@;
    lemma_lookup_unaffected(fs, extra, "version"@);
    lemma_lookup_unaffected(fs, extra, "next_major_version_scheduled"@);
    lemma_lookup_unaffected(fs, extra, "build_revision"@);
    lemma_lookup_unaffected(fs, extra, "relays_published"@);
    lemma_lookup_unaffected(fs, extra, "relays_skipped"@);
    lemma_lookup_unaffected(fs, extra, "relays"@);
    lemma_lookup_unaffected(fs, extra, "relays_truncated"@);
    lemma_lookup_unaffected(fs, extra, "bridges_published"@);
    lemma_lookup_unaffected(fs, extra, "bridges_skipped"@);
    lemma_lookup_unaffected(fs, extra, "bridges"@);
    lemma_lookup_unaffected(fs, extra, "bridges_truncated"@);
}

/// Unknown-field tolerance: a summary document with one extra, unrecognized
/// top-level key has the document shape exactly when the document without it
/// does, and decodes to the same results.
pub proof fn lemma_summary_unknown_field_ignored(j1: Json, j2: Json, extra: (String, Json))
    requires
        j1 is Obj,
        j2 is Obj,
        (j2->Obj_0)@ == (j1->Obj_0)@.push(extra),
        !is_meta_key(extra.0@),
    ensures
        summary_doc_ok(j2) == summary_doc_ok(j1),
        (forall|d: SummaryResponse| summary_doc_rel(d, j2) == summary_doc_rel(d, j1)),
{
    lemma_meta_fields_unaffected(j1, j2, extra);
    assert(relays_arr(j2) == relays_arr(j1));
    assert(bridges_arr(j2) == bridges_arr(j1));
}

/// Unknown-field tolerance: a details document with one extra, unrecognized
/// top-level key has the document shape exactly when the document without it
/// does, and decodes to the same results.
pub proof fn lemma_details_unknown_field_ignored(j1: Json, j2: Json, extra: (String, Json))
    requires
        j1 is Obj,
        j2 is Obj,
        (j2->Obj_0)@ == (j1->Obj_0)@.push(extra),
        !is_meta_key(extra.0@),
    ensures
        details_doc_ok(j2) == details_doc_ok(j1),
        (forall|d: DetailsResponse| details_doc_rel(d, j2) == details_doc_rel(d, j1)),
{
    lemma_meta_fields_unaffected(j1, j2, extra);
    assert(relays_arr(j2) == relays_arr(j1));
    assert(bridges_arr(j2) == bridges_arr(j1));
}

/// Unknown-field tolerance: a bandwidth document with one extra, unrecognized
/// top-level key has the document shape exactly when the document without it
/// does, and decodes to the same results.
pub proof fn lemma_bandwidth_unknown_field_ignored(j1: Json, j2: Json, extra: (String, Json))
    requires
        j1 is Obj,
        j2 is Obj,
        (j2->Obj_0)@ == (j1->Obj_0)@.push(extra),
        !is_meta_key(extra.0@),
    ensures
        bandwidth_doc_ok(j2) == bandwidth_doc_ok(j1),
        (forall|d: BandwidthResponse| bandwidth_doc_rel(d, j2) == bandwidth_doc_rel(d, j1)),
{
    lemma_meta_fields_unaffected(j1, j2, extra);
    assert(relays_arr(j2) == relays_arr(j1));
    assert(bridges_arr(j2) == bridges_arr(j1));
}

/// Unknown-field tolerance: a weights document with one extra, unrecognized
/// top-level key has the document shape exactly when the document without it
/// does, and decodes to the same results.
pub proof fn lemma_weights_unknown_field_ignored(j1: Json, j2: Json, extra: (String, Json))
    requires
        j1 is Obj,
        j2 is Obj,
        (j2->Obj_0)@ == (j1->Obj_0)@.push(extra),
        !is_meta_key(extra.0@),
    ensures
        weights_doc_ok(j2) == weights_doc_ok(j1),
        (forall|d: WeightsResponse| weights_doc_rel(d, j2) == weights_doc_rel(d, j1)),
{
    lemma_meta_fields_unaffected(j1, j2, extra);
    assert(relays_arr(j2) == relays_arr(j1));
    assert(bridges_arr(j2) == bridges_arr(j1));
}

/// Unknown-field tolerance: a clients document with one extra, unrecognized
/// top-level key has the document shape exactly when the document without it
/// does, and decodes to the same results.
pub proof fn lemma_clients_unknown_field_ignored(j1: Json, j2: Json, extra: (String, Json))
    requires
        j1 is Obj,
        j2 is Obj,
        (j2->Obj_0)@ == (j1->Obj_0)@.push(extra),
        !is_meta_key(extra.0@),
    ensures
        clients_doc_ok(j2) == clients_doc_ok(j1),
        (forall|d: ClientsResponse| clients_doc_rel(d, j2) == clients_doc_rel(d, j1)),
{
    lemma_meta_fields_unaffected(j1, j2, extra);
    assert(relays_arr(j2) == relays_arr(j1));
    assert(bridges_arr(j2) == bridges_arr(j1));
}

/// Unknown-field tolerance: an uptime document with one extra, unrecognized
/// top-level key has the document shape exactly when the document without it
/// does, and decodes to the same results.
pub proof fn lemma_uptime_unknown_field_ignored(j1: Json, j2: Json, extra: (String, Json))
    requires
        j1 is Obj,
        j2 is Obj,
        (j2->Obj_0)@ == (j1->Obj_0)@.push(extra),
        !is_meta_key(extra.0@),
    ensures
        uptime_doc_ok(j2) == uptime_doc_ok(j1),
        (forall|d: UptimeResponse| uptime_doc_rel(d, j2) == uptime_doc_rel(d, j1)),
{
    lemma_meta_fields_unaffected(j1, j2, extra);
    assert(relays_arr(j2) == relays_arr(j1));
    assert(bridges_arr(j2) == bridges_arr(j1));
}

} // verus!
