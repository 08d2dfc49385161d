//! Query parameters for the Onionoo API.
//!
//! A [`QueryParameters`] value is built by chained setters, each of which
//! records one optional filter, and rendered once by
//! [`QueryParameters::to_query_string`]. Rendering is canonical: every set
//! parameter becomes one `name=value` pair, the pairs are sorted
//! lexicographically as whole strings and joined with `&`, and a non-empty
//! result is prefixed with `?`. A parameter that was never set does not
//! appear in the output ([`lemma_unset_param_omitted`]).

use vstd::prelude::*;

verus! {

use crate::text::{lex_le, lex_leq_fn, dec_digits, lemma_lex_le_total_ordering, str_lex_le,
    u64_to_string};
use vstd::multiset::Multiset;
use vstd::relations::sorted_by;
use vstd::seq_lib::lemma_sorted_unique;

/// Value of the `type` parameter.
#[derive(Debug, Clone, Copy, PartialEq, Eq)]
pub enum TypeValue {
    Relay,
    Bridge,
}

/// Value of a boolean parameter (`running`, `recommended_version`).
#[derive(Debug, Clone, Copy, PartialEq, Eq)]
pub enum BoolValue {
    True,
    False,
}

pub open spec fn type_text(t: TypeValue) -> Seq<char> {
    match t {
        TypeValue::Relay => "relay"@,
        TypeValue::Bridge => "bridge"@,
    }
}

pub open spec fn bool_text(b: BoolValue) -> Seq<char> {
    match b {
        BoolValue::True => "true"@,
        BoolValue::False => "false"@,
    }
}

impl TypeValue {
    pub fn as_str(&self) -> (r: &'static str)
        ensures
            r@ == type_text(*self),
    {
        match self {
            TypeValue::Relay => "relay",
            TypeValue::Bridge => "bridge",
        }
    }
}

impl BoolValue {
    pub fn as_str(&self) -> (r: &'static str)
        ensures
            r@ == bool_text(*self),
    {
        match self {
            BoolValue::True => "true",
            BoolValue::False => "false",
        }
    }
}

/// A range of days, e.g. `"7-14"`, `"30-"`, `"-90"`. The text is passed
/// through verbatim; validation is the remote service's responsibility.
#[derive(Debug, Clone)]
pub struct DaysRange(pub String);

/// A date in `yyyy-MM-dd` form, passed through verbatim.
#[derive(Debug, Clone)]
pub struct Date(pub String);

/// A comma-separated list of versions or `..`-separated version ranges.
#[derive(Debug, Clone)]
pub struct VersionList(pub String);

/// A comma-separated list of AS numbers.
#[derive(Debug, Clone)]
pub struct AsList(pub String);

/// A comma-separated list of response field names.
#[derive(Debug, Clone)]
pub struct FieldsList(pub String);

/// A comma-separated list of ordering fields, `-`-prefixed for descending.
#[derive(Debug, Clone)]
pub struct OrderList(pub String);

impl View for DaysRange {
    type V = Seq<char>;

    open spec fn view(&self) -> Seq<char> {
        self.0@
    }
}

impl DeepView for DaysRange {
    type V = Seq<char>;

    open spec fn deep_view(&self) -> Seq<char> {
        self.0@
    }
}

impl DaysRange {
    pub fn as_str(&self) -> (r: &str)
        ensures
            r@ == self@,
    {
        self.0.as_str()
    }
}

impl View for Date {
    type V = Seq<char>;

    open spec fn view(&self) -> Seq<char> {
        self.0@
    }
}

impl DeepView for Date {
    type V = Seq<char>;

    open spec fn deep_view(&self) -> Seq<char> {
        self.0@
    }
}

impl Date {
    pub fn as_str(&self) -> (r: &str)
        ensures
            r@ == self@,
    {
        self.0.as_str()
    }
}

impl View for VersionList {
    type V = Seq<char>;

    open spec fn view(&self) -> Seq<char> {
        self.0@
    }
}

impl DeepView for VersionList {
    type V = Seq<char>;

    open spec fn deep_view(&self) -> Seq<char> {
        self.0@
    }
}

impl VersionList {
    pub fn as_str(&self) -> (r: &str)
        ensures
            r@ == self@,
    {
        self.0.as_str()
    }
}

impl View for AsList {
    type V = Seq<char>;

    open spec fn view(&self) -> Seq<char> {
        self.0@
    }
}

impl DeepView for AsList {
    type V = Seq<char>;

    open spec fn deep_view(&self) -> Seq<char> {
        self.0@
    }
}

impl AsList {
    pub fn as_str(&self) -> (r: &str)
        ensures
            r@ == self@,
    {
        self.0.as_str()
    }
}

impl View for FieldsList {
    type V = Seq<char>;

    open spec fn view(&self) -> Seq<char> {
        self.0@
    }
}

impl DeepView for FieldsList {
    type V = Seq<char>;

    open spec fn deep_view(&self) -> Seq<char> {
        self.0@
    }
}

impl FieldsList {
    pub fn as_str(&self) -> (r: &str)
        ensures
            r@ == self@,
    {
        self.0.as_str()
    }
}

impl View for OrderList {
    type V = Seq<char>;

    open spec fn view(&self) -> Seq<char> {
        self.0@
    }
}

impl DeepView for OrderList {
    type V = Seq<char>;

    open spec fn deep_view(&self) -> Seq<char> {
        self.0@
    }
}

impl OrderList {
    pub fn as_str(&self) -> (r: &str)
        ensures
            r@ == self@,
    {
        self.0.as_str()
    }
}

/// Builds a [`DaysRange`] from its textual form, e.g. `"7-14"`.
pub fn days_range(range: &str) -> (r: DaysRange)
    ensures
        r@ == range@,
{
    DaysRange(range.to_owned())
}

/// Builds a [`Date`] from `yyyy-MM-dd` text.
pub fn date(d: &str) -> (r: Date)
    ensures
        r@ == d@,
{
    Date(d.to_owned())
}

/// Builds a [`VersionList`] from comma-separated versions or ranges.
pub fn version_list(versions: &str) -> (r: VersionList)
    ensures
        r@ == versions@,
{
    VersionList(versions.to_owned())
}

/// Builds a [`FieldsList`] from comma-separated field names.
pub fn fields_list(fields: &str) -> (r: FieldsList)
    ensures
        r@ == fields@,
{
    FieldsList(fields.to_owned())
}

/// Builds an [`OrderList`] from field names, `-`-prefixed for descending.
pub fn order_list(order: &str) -> (r: OrderList)
    ensures
        r@ == order@,
{
    OrderList(order.to_owned())
}

/// Builds an [`AsList`] from comma-separated AS numbers.
pub fn as_list(as_numbers: &str) -> (r: AsList)
    ensures
        r@ == as_numbers@,
{
    AsList(as_numbers.to_owned())
}

/// The collection of optional query parameters.
#[derive(Debug, Clone)]
pub struct QueryParameters {
    type_param: Option<TypeValue>,
    running: Option<BoolValue>,
    search: Option<String>,
    lookup: Option<String>,
    country: Option<String>,
    as_param: Option<String>,
    as_name: Option<String>,
    flag: Option<String>,
    first_seen_days: Option<DaysRange>,
    last_seen_days: Option<DaysRange>,
    first_seen_since: Option<Date>,
    last_seen_since: Option<Date>,
    contact: Option<String>,
    family: Option<String>,
    version: Option<VersionList>,
    os: Option<String>,
    host_name: Option<String>,
    recommended_version: Option<BoolValue>,
    fields: Option<FieldsList>,
    order: Option<OrderList>,
    offset: Option<u32>,
    limit: Option<u32>,
}

/// The mathematical content of a [`QueryParameters`] value: each parameter's
/// optional value, free text as character sequences.
pub struct ParamsView {
    pub type_param: Option<TypeValue>,
    pub running: Option<BoolValue>,
    pub search: Option<Seq<char>>,
    pub lookup: Option<Seq<char>>,
    pub country: Option<Seq<char>>,
    pub as_param: Option<Seq<char>>,
    pub as_name: Option<Seq<char>>,
    pub flag: Option<Seq<char>>,
    pub first_seen_days: Option<Seq<char>>,
    pub last_seen_days: Option<Seq<char>>,
    pub first_seen_since: Option<Seq<char>>,
    pub last_seen_since: Option<Seq<char>>,
    pub contact: Option<Seq<char>>,
    pub family: Option<Seq<char>>,
    pub version: Option<Seq<char>>,
    pub os: Option<Seq<char>>,
    pub host_name: Option<Seq<char>>,
    pub recommended_version: Option<BoolValue>,
    pub fields: Option<Seq<char>>,
    pub order: Option<Seq<char>>,
    pub offset: Option<u32>,
    pub limit: Option<u32>,
}

impl View for QueryParameters {
    type V = ParamsView;

    closed spec fn view(&self) -> ParamsView {
        ParamsView {
            type_param: self.type_param,
            running: self.running,
            search: self.search.deep_view(),
            lookup: self.lookup.deep_view(),
            country: self.country.deep_view(),
            as_param: self.as_param.deep_view(),
            as_name: self.as_name.deep_view(),
            flag: self.flag.deep_view(),
            first_seen_days: self.first_seen_days.deep_view(),
            last_seen_days: self.last_seen_days.deep_view(),
            first_seen_since: self.first_seen_since.deep_view(),
            last_seen_since: self.last_seen_since.deep_view(),
            contact: self.contact.deep_view(),
            family: self.family.deep_view(),
            version: self.version.deep_view(),
            os: self.os.deep_view(),
            host_name: self.host_name.deep_view(),
            recommended_version: self.recommended_version,
            fields: self.fields.deep_view(),
            order: self.order.deep_view(),
            offset: self.offset,
            limit: self.limit,
        }
    }
}

/// The view of a freshly constructed parameter set: nothing is set.
pub open spec fn empty_params() -> ParamsView {
    ParamsView {
        type_param: None,
        running: None,
        search: None,
        lookup: None,
        country: None,
        as_param: None,
        as_name: None,
        flag: None,
        first_seen_days: None,
        last_seen_days: None,
        first_seen_since: None,
        last_seen_since: None,
        contact: None,
        family: None,
        version: None,
        os: None,
        host_name: None,
        recommended_version: None,
        fields: None,
        order: None,
        offset: None,
        limit: None,
    }
}

impl QueryParameters {
    /// A parameter set with nothing set; it renders to the empty string.
    pub fn new() -> (r: Self)
        ensures
            r@ == empty_params(),
    {
        QueryParameters {
            type_param: None,
            running: None,
            search: None,
            lookup: None,
            country: None,
            as_param: None,
            as_name: None,
            flag: None,
            first_seen_days: None,
            last_seen_days: None,
            first_seen_since: None,
            last_seen_since: None,
            contact: None,
            family: None,
            version: None,
            os: None,
            host_name: None,
            recommended_version: None,
            fields: None,
            order: None,
            offset: None,
            limit: None,
        }
    }

    pub fn type_param(self, type_value: TypeValue) -> (r: Self)
        ensures
            r@ == (ParamsView { type_param: Some(type_value), ..self@ }),
    {
        let mut s = self;
        s.type_param = Some(type_value);
        s
    }

    pub fn running(self, running: BoolValue) -> (r: Self)
        ensures
            r@ == (ParamsView { running: Some(running), ..self@ }),
    {
        let mut s = self;
        s.running = Some(running);
        s
    }

    pub fn search(self, search: &str) -> (r: Self)
        ensures
            r@ == (ParamsView { search: Some(search@), ..self@ }),
    {
        let mut s = self;
        s.search = Some(search.to_owned());
        s
    }

    pub fn lookup(self, lookup: &str) -> (r: Self)
        ensures
            r@ == (ParamsView { lookup: Some(lookup@), ..self@ }),
    {
        let mut s = self;
        s.lookup = Some(lookup.to_owned());
        s
    }

    pub fn country(self, country: &str) -> (r: Self)
        ensures
            r@ == (ParamsView { country: Some(country@), ..self@ }),
    {
        let mut s = self;
        s.country = Some(country.to_owned());
        s
    }

    pub fn as_param(self, as_param: &str) -> (r: Self)
        ensures
            r@ == (ParamsView { as_param: Some(as_param@), ..self@ }),
    {
        let mut s = self;
        s.as_param = Some(as_param.to_owned());
        s
    }

    pub fn as_name(self, as_name: &str) -> (r: Self)
        ensures
            r@ == (ParamsView { as_name: Some(as_name@), ..self@ }),
    {
        let mut s = self;
        s.as_name = Some(as_name.to_owned());
        s
    }

    pub fn flag(self, flag: &str) -> (r: Self)
        ensures
            r@ == (ParamsView { flag: Some(flag@), ..self@ }),
    {
        let mut s = self;
        s.flag = Some(flag.to_owned());
        s
    }

    pub fn first_seen_days(self, range: DaysRange) -> (r: Self)
        ensures
            r@ == (ParamsView { first_seen_days: Some(range@), ..self@ }),
    {
        let mut s = self;
        s.first_seen_days = Some(range);
        s
    }

    pub fn last_seen_days(self, range: DaysRange) -> (r: Self)
        ensures
            r@ == (ParamsView { last_seen_days: Some(range@), ..self@ }),
    {
        let mut s = self;
        s.last_seen_days = Some(range);
        s
    }

    pub fn first_seen_since(self, d: Date) -> (r: Self)
        ensures
            r@ == (ParamsView { first_seen_since: Some(d@), ..self@ }),
    {
        let mut s = self;
        s.first_seen_since = Some(d);
        s
    }

    pub fn last_seen_since(self, d: Date) -> (r: Self)
        ensures
            r@ == (ParamsView { last_seen_since: Some(d@), ..self@ }),
    {
        let mut s = self;
        s.last_seen_since = Some(d);
        s
    }

    pub fn contact(self, contact: &str) -> (r: Self)
        ensures
            r@ == (ParamsView { contact: Some(contact@), ..self@ }),
    {
        let mut s = self;
        s.contact = Some(contact.to_owned());
        s
    }

    pub fn family(self, family: &str) -> (r: Self)
        ensures
            r@ == (ParamsView { family: Some(family@), ..self@ }),
    {
        let mut s = self;
        s.family = Some(family.to_owned());
        s
    }

    pub fn version(self, version: VersionList) -> (r: Self)
        ensures
            r@ == (ParamsView { version: Some(version@), ..self@ }),
    {
        let mut s = self;
        s.version = Some(version);
        s
    }

    pub fn os(self, os: &str) -> (r: Self)
        ensures
            r@ == (ParamsView { os: Some(os@), ..self@ }),
    {
        let mut s = self;
        s.os = Some(os.to_owned());
        s
    }

    pub fn host_name(self, host_name: &str) -> (r: Self)
        ensures
            r@ == (ParamsView { host_name: Some(host_name@), ..self@ }),
    {
        let mut s = self;
        s.host_name = Some(host_name.to_owned());
        s
    }

    pub fn recommended_version(self, recommended: BoolValue) -> (r: Self)
        ensures
            r@ == (ParamsView { recommended_version: Some(recommended), ..self@ }),
    {
        let mut s = self;
        s.recommended_version = Some(recommended);
        s
    }

    pub fn fields(self, fields: FieldsList) -> (r: Self)
        ensures
            r@ == (ParamsView { fields: Some(fields@), ..self@ }),
    {
        let mut s = self;
        s.fields = Some(fields);
        s
    }

    pub fn order(self, order: OrderList) -> (r: Self)
        ensures
            r@ == (ParamsView { order: Some(order@), ..self@ }),
    {
        let mut s = self;
        s.order = Some(order);
        s
    }

    pub fn offset(self, offset: u32) -> (r: Self)
        ensures
            r@ == (ParamsView { offset: Some(offset), ..self@ }),
    {
        let mut s = self;
        s.offset = Some(offset);
        s
    }

    pub fn limit(self, limit: u32) -> (r: Self)
        ensures
            r@ == (ParamsView { limit: Some(limit), ..self@ }),
    {
        let mut s = self;
        s.limit = Some(limit);
        s
    }
}

// ---------------------------------------------------------------------------
// The rendering specification.
// ---------------------------------------------------------------------------

/// Appends the line `name=value` if the parameter is set, else leaves the
/// sequence unchanged.
pub open spec fn opt_line(s: Seq<Seq<char>>, name: Seq<char>, val: Option<Seq<char>>) -> Seq<
    Seq<char>,
> {
    match val {
        Some(v) => s.push(name + seq!['='] + v),
        None => s,
    }
}

pub open spec fn opt_type_text(o: Option<TypeValue>) -> Option<Seq<char>> {
    match o {
        Some(t) => Some(type_text(t)),
        None => None,
    }
}

pub open spec fn opt_bool_text(o: Option<BoolValue>) -> Option<Seq<char>> {
    match o {
        Some(b) => Some(bool_text(b)),
        None => None,
    }
}

pub open spec fn opt_dec_text(o: Option<u32>) -> Option<Seq<char>> {
    match o {
        Some(n) => Some(dec_digits(n as nat)),
        None => None,
    }
}

/// The lines for the first half of the parameters, in field order.
pub open spec fn query_lines_head(v: ParamsView) -> Seq<Seq<char>> {
    let s = Seq::<Seq<char>>::empty();
    let s = opt_line(s, "type"@, opt_type_text(v.type_param));
    let s = opt_line(s, "running"@, opt_bool_text(v.running));
    let s = opt_line(s, "search"@, v.search);
    let s = opt_line(s, "lookup"@, v.lookup);
    let s = opt_line(s, "country"@, v.country);
    let s = opt_line(s, "as"@, v.as_param);
    let s = opt_line(s, "as_name"@, v.as_name);
    let s = opt_line(s, "flag"@, v.flag);
    let s = opt_line(s, "first_seen_days"@, v.first_seen_days);
    let s = opt_line(s, "last_seen_days"@, v.last_seen_days);
    let s = opt_line(s, "first_seen_since"@, v.first_seen_since);
    s
}

/// One `name=value` line for every parameter that is set, in field order,
/// before sorting.
pub open spec fn query_lines(v: ParamsView) -> Seq<Seq<char>> {
    let s = query_lines_head(v);
    let s = opt_line(s, "last_seen_since"@, v.last_seen_since);
    let s = opt_line(s, "contact"@, v.contact);
    let s = opt_line(s, "family"@, v.family);
    let s = opt_line(s, "version"@, v.version);
    let s = opt_line(s, "os"@, v.os);
    let s = opt_line(s, "host_name"@, v.host_name);
    let s = opt_line(s, "recommended_version"@, opt_bool_text(v.recommended_version));
    let s = opt_line(s, "fields"@, v.fields);
    let s = opt_line(s, "order"@, v.order);
    let s = opt_line(s, "offset"@, opt_dec_text(v.offset));
    let s = opt_line(s, "limit"@, opt_dec_text(v.limit));
    s
}

/// Joins lines with `&` between them.
pub open spec fn join_amp(ls: Seq<Seq<char>>) -> Seq<char>
    decreases ls.len(),
{
    if ls.len() == 0 {
        Seq::empty()
    } else if ls.len() == 1 {
        ls[0]
    } else {
        join_amp(ls.drop_last()) + seq!['&'] + ls.last()
    }
}

/// The canonical query string: empty when nothing is set, otherwise `?`
/// followed by the sorted lines joined with `&`.
pub open spec fn spec_query_string(v: ParamsView) -> Seq<char> {
    let ls = query_lines(v);
    if ls.len() == 0 {
        Seq::empty()
    } else {
        seq!['?'] + join_amp(ls.sort_by(lex_leq_fn()))
    }
}

// ---------------------------------------------------------------------------
// The executable renderer.
// ---------------------------------------------------------------------------

fn push_line(parts: &mut Vec<String>, name: &str, val: &str)
    ensures
        final(parts).deep_view() == old(parts).deep_view().push(name@ + seq!['='] + val@),
{
    let mut line = name.to_owned();
    line.append("=");
    line.append(val);
    proof {
        reveal_strlit("=");
        assert(line@ =~= name@ + seq!['='] + val@);
    }
    parts.push(line);
    proof {
        assert(parts.deep_view() =~= old(parts).deep_view().push(name@ + seq!['='] + val@));
    }
}

/// Sorts lines lexicographically; the result is exactly `sort_by` of the
/// input under `lex_le`.
fn sort_lines(input: Vec<String>) -> (r: Vec<String>)
    ensures
        r.deep_view() == input.deep_view().sort_by(lex_leq_fn()),
{
    let ghost orig = input.deep_view();
    let mut rest = input;
    let mut out: Vec<String> = Vec::new();
    proof {
        out.deep_view().to_multiset_ensures();
        assert(out.deep_view().to_multiset().add(rest.deep_view().to_multiset()) =~= orig.to_multiset());
    }
    while rest.len() > 0
        invariant
            sorted_by(out.deep_view(), lex_leq_fn()),
            out.deep_view().to_multiset().add(rest.deep_view().to_multiset()) == orig.to_multiset(),
        decreases rest.len(),
    {
        let ghost out_before = out.deep_view();
        let ghost rest_before = rest.deep_view();
        let x = rest.remove(0);
        proof {
            assert(rest.deep_view() =~= rest_before.remove(0));
            rest_before.to_multiset_ensures();
            assert(rest.deep_view().to_multiset() =~= rest_before.to_multiset().remove(
                rest_before[0],
            ));
        }
        let j = insert_pos(&out, &x);
        proof {
            if j < out_before.len() {
                crate::text::lemma_lex_le_connected(out_before[j as int], x@);
                assert(lex_le(x@, out_before[j as int]));
            }
        }
        out.insert(j, x);
        proof {
            let inserted = out.deep_view();
            assert(inserted =~= out_before.insert(j as int, rest_before[0]));
            lemma_insert_sorted(out_before, rest_before[0], j as int);
            lemma_insert_multiset(out_before, rest_before[0], j as int);
            rest_before.to_multiset_ensures();
            assert(rest_before.contains(rest_before[0]));
            assert(out.deep_view().to_multiset().add(rest.deep_view().to_multiset())
                =~= orig.to_multiset());
        }
    }
    proof {
        assert(rest.deep_view() =~= Seq::<Seq<char>>::empty());
        rest.deep_view().to_multiset_ensures();
        assert(rest.deep_view().to_multiset() =~= Multiset::<Seq<char>>::empty());
        assert(out.deep_view().to_multiset() =~= orig.to_multiset());
        lemma_lex_le_total_ordering();
        orig.lemma_sort_by_ensures(lex_leq_fn());
        lemma_sorted_unique(out.deep_view(), orig.sort_by(lex_leq_fn()), lex_leq_fn());
        assert(out.deep_view() =~= orig.sort_by(lex_leq_fn()));
    }
    out
}

/// The first position in sorted order at which `x` can be inserted.
fn insert_pos(out: &Vec<String>, x: &String) -> (j: usize)
    ensures
        0 <= j <= out.len(),
        forall|k: int| 0 <= k < j ==> lex_le(out.deep_view()[k], x@),
        j < out.len() ==> !lex_le(out.deep_view()[j as int], x@),
{
    let mut j: usize = 0;
    loop
        invariant
            0 <= j <= out.len(),
            forall|k: int| 0 <= k < j ==> lex_le(out.deep_view()[k], x@),
        decreases out.len() - j,
    {
        if j == out.len() {
            return j;
        }
        if !str_lex_le(out[j].as_str(), x.as_str()) {
            proof {
                assert(out.deep_view()[j as int] == out@[j as int]@);
            }
            return j;
        }
        proof {
            assert(out.deep_view()[j as int] == out@[j as int]@);
        }
        j = j + 1;
    }
}

proof fn lemma_insert_sorted(s: Seq<Seq<char>>, x: Seq<char>, j: int)
    requires
        sorted_by(s, lex_leq_fn()),
        0 <= j <= s.len(),
        forall|k: int| 0 <= k < j ==> lex_le(s[k], x),
        j < s.len() ==> lex_le(x, s[j]),
    ensures
        sorted_by(s.insert(j, x), lex_leq_fn()),
{
    let t = s.insert(j, x);
    assert forall|a: int, b: int| 0 <= a < b < t.len() implies lex_leq_fn()(t[a], t[b]) by {
        if a < j && b < j {
            assert(t[a] == s[a] && t[b] == s[b]);
        } else if a < j && b == j {
            assert(t[a] == s[a] && t[b] == x);
        } else if a < j && b > j {
            assert(t[a] == s[a] && t[b] == s[b - 1]);
        } else if a == j && b > j {
            assert(t[a] == x && t[b] == s[b - 1]);
            assert(lex_le(x, s[j]));
            if b - 1 > j {
                assert(lex_leq_fn()(s[j], s[b - 1]));
                assert(lex_le(s[j], s[b - 1]));
                crate::text::lemma_lex_le_trans(x, s[j], s[b - 1]);
            }
        } else {
            assert(a > j && b > j);
            assert(t[a] == s[a - 1] && t[b] == s[b - 1]);
        }
    }
}

proof fn lemma_insert_multiset(s: Seq<Seq<char>>, x: Seq<char>, j: int)
    requires
        0 <= j <= s.len(),
    ensures
        s.insert(j, x).to_multiset() == s.to_multiset().insert(x),
{
    let t = s.insert(j, x);
    assert(t =~= s.take(j) + (seq![x] + s.skip(j)));
    vstd::seq_lib::lemma_multiset_commutative(s.take(j), seq![x] + s.skip(j));
    vstd::seq_lib::lemma_multiset_commutative(seq![x], s.skip(j));
    assert(seq![x].to_multiset() =~= Multiset::empty().insert(x)) by {
        seq![x].to_multiset_ensures();
        assert(seq![x] =~= Seq::empty().push(x));
        Seq::<Seq<char>>::empty().to_multiset_ensures();
    }
    assert(s =~= s.take(j) + s.skip(j));
    vstd::seq_lib::lemma_multiset_commutative(s.take(j), s.skip(j));
    assert(t.to_multiset() =~= s.to_multiset().insert(x));
}

impl QueryParameters {
    /// Renders the canonical query string: every set parameter as
    /// `name=value`, sorted lexicographically, joined with `&`, prefixed
    /// with `?`; the empty string when nothing is set.
    ///
    /// Rendering is deterministic: the result is a function of the
    /// parameter values alone, so the same values — set in any order —
    /// always render identically.
    pub fn to_query_string(&self) -> (r: String)
        ensures
            r@ == spec_query_string(self@),
    {
        let parts = self.build_lines();
        if parts.len() == 0 {
            return String::new();
        }
        let sorted = sort_lines(parts);
        proof {
            lemma_lex_le_total_ordering();
            query_lines(self@).lemma_sort_by_ensures(lex_leq_fn());
            query_lines(self@).to_multiset_ensures();
            query_lines(self@).sort_by(lex_leq_fn()).to_multiset_ensures();
            assert(sorted.deep_view().len() == query_lines(self@).len());
        }
        join_lines(&sorted)
    }

    /// The lines for the first half of the parameters, in field order.
    #[verifier::rlimit(100)]
    fn build_lines_head(&self) -> (parts: Vec<String>)
        ensures
            parts.deep_view() == query_lines_head(self@),
    {
        let ghost v = self@;
        let mut parts: Vec<String> = Vec::new();
        let ghost mut gs = Seq::<Seq<char>>::empty();
        proof {
            assert(parts.deep_view() =~= gs);
        }
        if let Some(x) = &self.type_param {
            push_line(&mut parts, "type", x.as_str());
        }
        proof {
            gs = opt_line(gs, "type"@, opt_type_text(v.type_param));
            assert(parts.deep_view() == gs);
        }
        if let Some(x) = &self.running {
            push_line(&mut parts, "running", x.as_str());
        }
        proof {
            gs = opt_line(gs, "running"@, opt_bool_text(v.running));
            assert(parts.deep_view() == gs);
        }
        if let Some(x) = &self.search {
            push_line(&mut parts, "search", x.as_str());
        }
        proof {
            gs = opt_line(gs, "search"@, v.search);
            assert(parts.deep_view() == gs);
        }
        if let Some(x) = &self.lookup {
            push_line(&mut parts, "lookup", x.as_str());
        }
        proof {
            gs = opt_line(gs, "lookup"@, v.lookup);
            assert(parts.deep_view() == gs);
        }
        if let Some(x) = &self.country {
            push_line(&mut parts, "country", x.as_str());
        }
        proof {
            gs = opt_line(gs, "country"@, v.country);
            assert(parts.deep_view() == gs);
        }
        if let Some(x) = &self.as_param {
            push_line(&mut parts, "as", x.as_str());
        }
        proof {
            gs = opt_line(gs, "as"@, v.as_param);
            assert(parts.deep_view() == gs);
        }
        if let Some(x) = &self.as_name {
            push_line(&mut parts, "as_name", x.as_str());
        }
        proof {
            gs = opt_line(gs, "as_name"@, v.as_name);
            assert(parts.deep_view() == gs);
        }
        if let Some(x) = &self.flag {
            push_line(&mut parts, "flag", x.as_str());
        }
        proof {
            gs = opt_line(gs, "flag"@, v.flag);
            assert(parts.deep_view() == gs);
        }
        if let Some(x) = &self.first_seen_days {
            push_line(&mut parts, "first_seen_days", x.as_str());
        }
        proof {
            gs = opt_line(gs, "first_seen_days"@, v.first_seen_days);
            assert(parts.deep_view() == gs);
        }
        if let Some(x) = &self.last_seen_days {
            push_line(&mut parts, "last_seen_days", x.as_str());
        }
        proof {
            gs = opt_line(gs, "last_seen_days"@, v.last_seen_days);
            assert(parts.deep_view() == gs);
        }
        if let Some(x) = &self.first_seen_since {
            push_line(&mut parts, "first_seen_since", x.as_str());
        }
        proof {
            gs = opt_line(gs, "first_seen_since"@, v.first_seen_since);
            assert(parts.deep_view() == gs);
            assert(gs == query_lines_head(v));
        }
        parts
    }

    /// One `name=value` line for each parameter that is set, in field order.
    #[verifier::rlimit(100)]
    fn build_lines(&self) -> (parts: Vec<String>)
        ensures
            parts.deep_view() == query_lines(self@),
    {
        let ghost v = self@;
        let mut parts = self.build_lines_head();
        let ghost mut gs = query_lines_head(v);
        if let Some(x) = &self.last_seen_since {
            push_line(&mut parts, "last_seen_since", x.as_str());
        }
        proof {
            gs = opt_line(gs, "last_seen_since"@, v.last_seen_since);
            assert(parts.deep_view() == gs);
        }
        if let Some(x) = &self.contact {
            push_line(&mut parts, "contact", x.as_str());
        }
        proof {
            gs = opt_line(gs, "contact"@, v.contact);
            assert(parts.deep_view() == gs);
        }
        if let Some(x) = &self.family {
            push_line(&mut parts, "family", x.as_str());
        }
        proof {
            gs = opt_line(gs, "family"@, v.family);
            assert(parts.deep_view() == gs);
        }
        if let Some(x) = &self.version {
            push_line(&mut parts, "version", x.as_str());
        }
        proof {
            gs = opt_line(gs, "version"@, v.version);
            assert(parts.deep_view() == gs);
        }
        if let Some(x) = &self.os {
            push_line(&mut parts, "os", x.as_str());
        }
        proof {
            gs = opt_line(gs, "os"@, v.os);
            assert(parts.deep_view() == gs);
        }
        if let Some(x) = &self.host_name {
            push_line(&mut parts, "host_name", x.as_str());
        }
        proof {
            gs = opt_line(gs, "host_name"@, v.host_name);
            assert(parts.deep_view() == gs);
        }
        if let Some(x) = &self.recommended_version {
            push_line(&mut parts, "recommended_version", x.as_str());
        }
        proof {
            gs = opt_line(gs, "recommended_version"@, opt_bool_text(v.recommended_version));
            assert(parts.deep_view() == gs);
        }
        if let Some(x) = &self.fields {
            push_line(&mut parts, "fields", x.as_str());
        }
        proof {
            gs = opt_line(gs, "fields"@, v.fields);
            assert(parts.deep_view() == gs);
        }
        if let Some(x) = &self.order {
            push_line(&mut parts, "order", x.as_str());
        }
        proof {
            gs = opt_line(gs, "order"@, v.order);
            assert(parts.deep_view() == gs);
        }
        if let Some(x) = &self.offset {
            let n = u64_to_string(*x as u64);
            push_line(&mut parts, "offset", n.as_str());
        }
        proof {
            gs = opt_line(gs, "offset"@, opt_dec_text(v.offset));
            assert(parts.deep_view() == gs);
        }
        if let Some(x) = &self.limit {
            let n = u64_to_string(*x as u64);
            push_line(&mut parts, "limit", n.as_str());
        }
        proof {
            gs = opt_line(gs, "limit"@, opt_dec_text(v.limit));
            assert(parts.deep_view() == gs);
            assert(gs == query_lines(v));
        }
        parts
    }
}

/// Joins the sorted lines with `&`, prefixed with `?`.
fn join_lines(sorted: &Vec<String>) -> (r: String)
    requires
        sorted.len() > 0,
    ensures
        r@ == seq!['?'] + join_amp(sorted.deep_view()),
{
    let ghost sls = sorted.deep_view();
    let mut r = "?".to_owned();
    proof {
        reveal_strlit("?");
        assert(r@ =~= seq!['?']);
    }
    let mut i: usize = 0;
    while i < sorted.len()
        invariant
            0 <= i <= sorted.len(),
            sorted.deep_view() == sls,
            sorted.len() == sls.len(),
            sls.len() > 0,
            i == 0 ==> r@ == seq!['?'],
            i > 0 ==> r@ == seq!['?'] + join_amp(sls.take(i as int)),
        decreases sorted.len() - i,
    {
        if i > 0 {
            r.append("&");
            proof {
                reveal_strlit("&");
            }
        }
        r.append(sorted[i].as_str());
        proof {
            assert(sorted.deep_view()[i as int] == sorted@[i as int]@);
            let t = sls.take(i as int + 1);
            assert(t.drop_last() =~= sls.take(i as int));
            assert(t.last() == sls[i as int]);
            if i == 0 {
                assert(t.len() == 1);
                assert(join_amp(t) == t[0]);
                assert(r@ =~= seq!['?'] + join_amp(t));
            } else {
                assert(join_amp(t) == join_amp(sls.take(i as int)) + seq!['&'] + sls[i as int]);
                assert(r@ =~= seq!['?'] + join_amp(t));
            }
        }
        i = i + 1;
    }
    proof {
        assert(sls.take(sls.len() as int) =~= sls);
    }
    r
}

// ---------------------------------------------------------------------------
// Laws.
// ---------------------------------------------------------------------------

/// Rendering is a pure function of the parameter values: two parameter
/// sets holding the same values — however and in whatever order they were
/// built — render to the same query string.
pub proof fn lemma_render_order_independent(p: QueryParameters, q: QueryParameters)
    requires
        p@ == q@,
    ensures
        spec_query_string(p@) == spec_query_string(q@),
{
}

/// Rendering is canonical: two parameter sets whose `name=value` lines agree
/// as a multiset — the same pairs, in any order — render to the same query
/// string, because sorting fixes one order for them all.
pub proof fn lemma_render_canonical(v1: ParamsView, v2: ParamsView)
    requires
        query_lines(v1).to_multiset() == query_lines(v2).to_multiset(),
    ensures
        spec_query_string(v1) == spec_query_string(v2),
{
    lemma_lex_le_total_ordering();
    let l1 = query_lines(v1);
    let l2 = query_lines(v2);
    l1.to_multiset_ensures();
    l2.to_multiset_ensures();
    l1.lemma_sort_by_ensures(lex_leq_fn());
    l2.lemma_sort_by_ensures(lex_leq_fn());
    let s1 = l1.sort_by(lex_leq_fn());
    let s2 = l2.sort_by(lex_leq_fn());
    assert(s1.to_multiset() == s2.to_multiset());
    lemma_sorted_unique(s1, s2, lex_leq_fn());
    assert(s1 =~= s2);
    assert(l1.len() == l2.len()) by {
        assert(l1.to_multiset().len() == l2.to_multiset().len());
    }
}

/// A freshly constructed parameter set renders to the empty string.
pub proof fn lemma_render_empty()
    ensures
        spec_query_string(empty_params()) == Seq::<char>::empty(),
{
    assert(query_lines(empty_params()) =~= Seq::<Seq<char>>::empty());
}

/// `pre` followed by `=` is a prefix of `s`.
pub open spec fn names_line(name: Seq<char>, s: Seq<char>) -> bool {
    let pre = name + seq!['='];
    pre.len() <= s.len() && s.take(pre.len() as int) == pre
}

/// No character of `s` is `=`.
pub open spec fn eq_free(s: Seq<char>) -> bool {
    forall|i: int| 0 <= i < s.len() ==> s[i] != '='
}

/// A line rendered for one parameter name is never attributed to another:
/// if the names differ and neither contains `=`, then `bad=` is not a
/// prefix of `name=value`.
proof fn lemma_line_prefix_distinct(name: Seq<char>, val: Seq<char>, bad: Seq<char>)
    requires
        eq_free(name),
        eq_free(bad),
        name != bad,
    ensures
        !names_line(bad, name + seq!['='] + val),
{
    let line = name + seq!['='] + val;
    let pre = bad + seq!['='];
    if names_line(bad, line) {
        let lb = bad.len() as int;
        let ln = name.len() as int;
        assert(line.take(pre.len() as int) == pre);
        if lb < ln {
            assert(pre[lb] == '=');
            assert(line[lb] == name[lb]);
            assert(line.take(pre.len() as int)[lb] == line[lb]);
            assert(false);
        } else if lb == ln {
            assert forall|i: int| 0 <= i < lb implies bad[i] == name[i] by {
                assert(pre[i] == bad[i]);
                assert(line[i] == name[i]);
                assert(line.take(pre.len() as int)[i] == line[i]);
            }
            assert(bad =~= name);
            assert(false);
        } else {
            assert(pre[ln] == bad[ln]);
            assert(line[ln] == '=');
            assert(line.take(pre.len() as int)[ln] == line[ln]);
            assert(bad[ln] == '=');
            assert(false);
        }
    }
}

/// Every line in `s` is free of the name `bad`.
pub open spec fn lines_free_of(s: Seq<Seq<char>>, bad: Seq<char>) -> bool {
    forall|i: int| 0 <= i < s.len() ==> !names_line(bad, #[trigger] s[i])
}

proof fn lemma_opt_line_free(s: Seq<Seq<char>>, name: Seq<char>, val: Option<Seq<char>>, bad: Seq<char>)
    requires
        lines_free_of(s, bad),
        val is Some ==> eq_free(name) && eq_free(bad) && name != bad,
    ensures
        lines_free_of(opt_line(s, name, val), bad),
{
    match val {
        Some(v) => {
            lemma_line_prefix_distinct(name, v, bad);
            let t = s.push(name + seq!['='] + v);
            assert forall|i: int| 0 <= i < t.len() implies !names_line(bad, #[trigger] t[i]) by {
                if i < s.len() {
                    assert(t[i] == s[i]);
                } else {
                    assert(t[i] == name + seq!['='] + v);
                }
            }
        },
        None => {},
    }
}

/// `name` is one of the parameter names this library renders, and the
/// parameter of that name is not set in `v`.
pub open spec fn param_unset(v: ParamsView, name: Seq<char>) -> bool {
    ||| name == "type"@ && v.type_param is None
    ||| name == "running"@ && v.running is None
    ||| name == "search"@ && v.search is None
    ||| name == "lookup"@ && v.lookup is None
    ||| name == "country"@ && v.country is None
    ||| name == "as"@ && v.as_param is None
    ||| name == "as_name"@ && v.as_name is None
    ||| name == "flag"@ && v.flag is None
    ||| name == "first_seen_days"@ && v.first_seen_days is None
    ||| name == "last_seen_days"@ && v.last_seen_days is None
    ||| name == "first_seen_since"@ && v.first_seen_since is None
    ||| name == "last_seen_since"@ && v.last_seen_since is None
    ||| name == "contact"@ && v.contact is None
    ||| name == "family"@ && v.family is None
    ||| name == "version"@ && v.version is None
    ||| name == "os"@ && v.os is None
    ||| name == "host_name"@ && v.host_name is None
    ||| name == "recommended_version"@ && v.recommended_version is None
    ||| name == "fields"@ && v.fields is None
    ||| name == "order"@ && v.order is None
    ||| name == "offset"@ && v.offset is None
    ||| name == "limit"@ && v.limit is None
}

/// Omission: a parameter that was never set never appears in the rendered
/// lines — no line of the query string is `name=value` for that name.
/// Sorting only permutes the lines, so the property carries to the final
/// query string.
pub proof fn lemma_unset_param_omitted(v: ParamsView, name: Seq<char>)
    requires
        param_unset(v, name),
    ensures
        lines_free_of(query_lines(v), name),
        lines_free_of(query_lines(v).sort_by(lex_leq_fn()), name),
{
    reveal_strlit("type");
    reveal_strlit("running");
    reveal_strlit("search");
    reveal_strlit("lookup");
    reveal_strlit("country");
    reveal_strlit("as");
    reveal_strlit("as_name");
    reveal_strlit("flag");
    reveal_strlit("first_seen_days");
    reveal_strlit("last_seen_days");
    reveal_strlit("first_seen_since");
    reveal_strlit("last_seen_since");
    reveal_strlit("contact");
    reveal_strlit("family");
    reveal_strlit("version");
    reveal_strlit("os");
    reveal_strlit("host_name");
    reveal_strlit("recommended_version");
    reveal_strlit("fields");
    reveal_strlit("order");
    reveal_strlit("offset");
    reveal_strlit("limit");
    assert(eq_free("type"@) && "type"@.len() == 4 && "type"@[0] == 't');
    assert(eq_free("running"@) && "running"@.len() == 7 && "running"@[0] == 'r');
    assert(eq_free("search"@) && "search"@.len() == 6 && "search"@[0] == 's');
    assert(eq_free("lookup"@) && "lookup"@.len() == 6 && "lookup"@[0] == 'l');
    assert(eq_free("country"@) && "country"@.len() == 7 && "country"@[0] == 'c');
    assert(eq_free("as"@) && "as"@.len() == 2 && "as"@[0] == 'a');
    assert(eq_free("as_name"@) && "as_name"@.len() == 7 && "as_name"@[0] == 'a');
    assert(eq_free("flag"@) && "flag"@.len() == 4 && "flag"@[0] == 'f');
    assert(eq_free("first_seen_days"@) && "first_seen_days"@.len() == 15 && "first_seen_days"@[0] == 'f');
    assert(eq_free("last_seen_days"@) && "last_seen_days"@.len() == 14 && "last_seen_days"@[0] == 'l');
    assert(eq_free("first_seen_since"@) && "first_seen_since"@.len() == 16 && "first_seen_since"@[0] == 'f');
    assert(eq_free("last_seen_since"@) && "last_seen_since"@.len() == 15 && "last_seen_since"@[0] == 'l');
    assert(eq_free("contact"@) && "contact"@.len() == 7 && "contact"@[0] == 'c');
    assert(eq_free("family"@) && "family"@.len() == 6 && "family"@[0] == 'f');
    assert(eq_free("version"@) && "version"@.len() == 7 && "version"@[0] == 'v');
    assert(eq_free("os"@) && "os"@.len() == 2 && "os"@[0] == 'o');
    assert(eq_free("host_name"@) && "host_name"@.len() == 9 && "host_name"@[0] == 'h');
    assert(eq_free("recommended_version"@) && "recommended_version"@.len() == 19 && "recommended_version"@[0] == 'r');
    assert(eq_free("fields"@) && "fields"@.len() == 6 && "fields"@[0] == 'f');
    assert(eq_free("order"@) && "order"@.len() == 5 && "order"@[0] == 'o');
    assert(eq_free("offset"@) && "offset"@.len() == 6 && "offset"@[0] == 'o');
    assert(eq_free("limit"@) && "limit"@.len() == 5 && "limit"@[0] == 'l');
    assert("family"@[1] == 'a' && "fields"@[1] == 'i');
    assert("country"@[2] == 'u' && "contact"@[2] == 'n');
    let s0 = Seq::<Seq<char>>::empty();
    assert(lines_free_of(s0, name));
    let s1 = opt_line(s0, "type"@, opt_type_text(v.type_param));
    lemma_opt_line_free(s0, "type"@, opt_type_text(v.type_param), name);
    let s2 = opt_line(s1, "running"@, opt_bool_text(v.running));
    lemma_opt_line_free(s1, "running"@, opt_bool_text(v.running), name);
    let s3 = opt_line(s2, "search"@, v.search);
    lemma_opt_line_free(s2, "search"@, v.search, name);
    let s4 = opt_line(s3, "lookup"@, v.lookup);
    lemma_opt_line_free(s3, "lookup"@, v.lookup, name);
    let s5 = opt_line(s4, "country"@, v.country);
    lemma_opt_line_free(s4, "country"@, v.country, name);
    let s6 = opt_line(s5, "as"@, v.as_param);
    lemma_opt_line_free(s5, "as"@, v.as_param, name);
    let s7 = opt_line(s6, "as_name"@, v.as_name);
    lemma_opt_line_free(s6, "as_name"@, v.as_name, name);
    let s8 = opt_line(s7, "flag"@, v.flag);
    lemma_opt_line_free(s7, "flag"@, v.flag, name);
    let s9 = opt_line(s8, "first_seen_days"@, v.first_seen_days);
    lemma_opt_line_free(s8, "first_seen_days"@, v.first_seen_days, name);
    let s10 = opt_line(s9, "last_seen_days"@, v.last_seen_days);
    lemma_opt_line_free(s9, "last_seen_days"@, v.last_seen_days, name);
    let s11 = opt_line(s10, "first_seen_since"@, v.first_seen_since);
    lemma_opt_line_free(s10, "first_seen_since"@, v.first_seen_since, name);
    let s12 = opt_line(s11, "last_seen_since"@, v.last_seen_since);
    lemma_opt_line_free(s11, "last_seen_since"@, v.last_seen_since, name);
    let s13 = opt_line(s12, "contact"@, v.contact);
    lemma_opt_line_free(s12, "contact"@, v.contact, name);
    let s14 = opt_line(s13, "family"@, v.family);
    lemma_opt_line_free(s13, "family"@, v.family, name);
    let s15 = opt_line(s14, "version"@, v.version);
    lemma_opt_line_free(s14, "version"@, v.version, name);
    let s16 = opt_line(s15, "os"@, v.os);
    lemma_opt_line_free(s15, "os"@, v.os, name);
    let s17 = opt_line(s16, "host_name"@, v.host_name);
    lemma_opt_line_free(s16, "host_name"@, v.host_name, name);
    let s18 = opt_line(s17, "recommended_version"@, opt_bool_text(v.recommended_version));
    lemma_opt_line_free(s17, "recommended_version"@, opt_bool_text(v.recommended_version), name);
    let s19 = opt_line(s18, "fields"@, v.fields);
    lemma_opt_line_free(s18, "fields"@, v.fields, name);
    let s20 = opt_line(s19, "order"@, v.order);
    lemma_opt_line_free(s19, "order"@, v.order, name);
    let s21 = opt_line(s20, "offset"@, opt_dec_text(v.offset));
    lemma_opt_line_free(s20, "offset"@, opt_dec_text(v.offset), name);
    let s22 = opt_line(s21, "limit"@, opt_dec_text(v.limit));
    lemma_opt_line_free(s21, "limit"@, opt_dec_text(v.limit), name);
    assert(s22 == query_lines(v));
    let sorted = query_lines(v).sort_by(lex_leq_fn());
    lemma_lex_le_total_ordering();
    query_lines(v).lemma_sort_by_ensures(lex_leq_fn());
    assert forall|i: int| 0 <= i < sorted.len() implies !names_line(name, #[trigger] sorted[i]) by {
        assert(sorted.contains(sorted[i]));
        assert(query_lines(v).contains(sorted[i]));
        let k = choose|k: int| 0 <= k < query_lines(v).len() && query_lines(v)[k] == sorted[i];
        assert(!names_line(name, query_lines(v)[k]));
    }
}

} // verus!
