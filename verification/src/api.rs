//! Vocabulary of the companion batch-retrieval API: collections, query
//! parameter shapes, and the pure parts of request-address assembly. The
//! HTTP traffic itself stays outside this crate; everything here is the
//! text it is built from.

use vstd::prelude::*;
use vstd::string::{StrSliceExecFns, StringExecFns};

verus! {

broadcast use {vstd::std_specs::vec::group_vec_axioms, vstd::seq::group_seq_axioms};

/// The batch API's endpoint when the configuration names none.
pub const API_URL: &'static str = "https://census.daybreakgames.com";

/// A queryable collection, known by its name on the wire.
pub trait Collection {
    /// The name under which the collection is addressed.
    spec fn spec_name() -> Seq<char>;

    /// The collection's wire name.
    fn name() -> (r: &'static str)
        ensures
            r@ == Self::spec_name(),
    ;
}

/// The character collection.
pub struct CharacterCollection {}

impl Collection for CharacterCollection {
    open spec fn spec_name() -> Seq<char> {
        "character"@
    }

    fn name() -> (r: &'static str) {
        "character"
    }
}

/// The collections this crate knows how to address.
#[derive(Copy, Clone, PartialEq, Eq, Structural, Debug)]
pub enum CensusCollection {
    Character,
}

impl CensusCollection {
    /// The wire name of this collection.
    pub open spec fn spec_name(self) -> Seq<char> {
        match self {
            CensusCollection::Character => CharacterCollection::spec_name(),
        }
    }

    /// The wire name of this collection.
    pub fn name(&self) -> (r: &str)
        ensures
            r@ == self.spec_name(),
    {
        match self {
            CensusCollection::Character => CharacterCollection::name(),
        }
    }
}

/// A record type that one collection serves.
pub trait CensusModel {
    /// The name of the collection the records come from.
    spec fn spec_collection() -> Seq<char>;

    /// The collection's wire name.
    fn collection() -> (r: &'static str)
        ensures
            r@ == Self::spec_collection(),
    ;
}

/// A character record, as far as this crate reads it.
#[derive(Clone, PartialEq, Debug)]
pub struct Character {
    pub character_id: Option<String>,
}

impl CensusModel for Character {
    open spec fn spec_collection() -> Seq<char> {
        "character"@
    }

    fn collection() -> (r: &'static str) {
        "character"
    }
}

/// An outfit record, as far as this crate reads it.
#[derive(Clone, PartialEq, Debug)]
pub struct Outfit {
    pub outfit_id: Option<String>,
}

impl CensusModel for Outfit {
    open spec fn spec_collection() -> Seq<char> {
        "outfit"@
    }

    fn collection() -> (r: &'static str) {
        "outfit"
    }
}

/// How the batch API client is addressed.
#[derive(Clone, PartialEq, Debug)]
pub struct ApiClientConfig {
    pub environment: Option<String>,
    pub service_id: Option<String>,
    pub api_url: Option<String>,
}

/// The mathematical value of an [`ApiClientConfig`].
pub struct ApiClientConfigView {
    pub environment: Option<Seq<char>>,
    pub service_id: Option<Seq<char>>,
    pub api_url: Option<Seq<char>>,
}

impl View for ApiClientConfig {
    type V = ApiClientConfigView;

    open spec fn view(&self) -> ApiClientConfigView {
        ApiClientConfigView {
            environment: match &self.environment {
                Some(e) => Some(e@),
                None => None,
            },
            service_id: match &self.service_id {
                Some(sv) => Some(sv@),
                None => None,
            },
            api_url: match &self.api_url {
                Some(u) => Some(u@),
                None => None,
            },
        }
    }
}

impl Default for ApiClientConfig {
    /// The public game data set at the built-in endpoint, anonymously.
    fn default() -> (r: Self)
        ensures
            r@.environment == Some("ps2:v2"@),
            r@.service_id is None,
            r@.api_url == Some(API_URL@),
    {
        ApiClientConfig {
            environment: Some(String::from_str("ps2:v2")),
            service_id: None,
            api_url: Some(String::from_str(API_URL)),
        }
    }
}

/// The base address a configuration queries: the endpoint, with the
/// service identifier appended when one is set.
pub open spec fn spec_api_base_url(c: ApiClientConfigView) -> Seq<char> {
    (match c.api_url {
        Some(u) => u,
        None => API_URL@,
    }) + (match c.service_id {
        Some(id) => "/s:"@ + id,
        None => Seq::empty(),
    })
}

/// The environment a configuration queries.
pub open spec fn spec_api_environment(c: ApiClientConfigView) -> Seq<char> {
    match c.environment {
        Some(e) => e,
        None => "ps2:v2"@,
    }
}

/// Builds the base address for a configuration.
pub fn api_base_url(c: &ApiClientConfig) -> (r: String)
    ensures
        r@ == spec_api_base_url(c@),
{
    let mut out = match &c.api_url {
        Some(u) => u.clone(),
        None => String::from_str(API_URL),
    };
    match &c.service_id {
        Some(id) => {
            out.append("/s:");
            out.append(id.as_str());
        },
        None => {
            proof {
                assert(out@ + Seq::<char>::empty() =~= out@);
            }
        },
    }
    out
}

/// The address that fetches a collection: base, the fixed `get` verb, the
/// environment, and the collection name.
pub open spec fn spec_request_url(base: Seq<char>, env: Seq<char>, collection: Seq<char>) -> Seq<
    char,
> {
    base + "/get/"@ + env + "/"@ + collection
}

/// Builds the address that fetches a collection.
pub fn request_url(base: &str, env: &str, collection: &str) -> (r: String)
    ensures
        r@ == spec_request_url(base@, env@, collection@),
{
    let mut out = String::from_str(base);
    out.append("/get/");
    out.append(env);
    out.append("/");
    out.append(collection);
    out
}

/// Which way a sort runs.
#[derive(Copy, Clone, PartialEq, Eq, Structural, Debug)]
pub enum SortDirection {
    Ascending,
    Descending,
}

impl SortDirection {
    /// The code under which this direction travels in a query string.
    pub open spec fn spec_code(self) -> Seq<char> {
        match self {
            SortDirection::Ascending => "1"@,
            SortDirection::Descending => "-1"@,
        }
    }

    /// This direction's query-string code.
    pub fn code(&self) -> (r: &'static str)
        ensures
            r@ == self.spec_code(),
    {
        match self {
            SortDirection::Ascending => "1",
            SortDirection::Descending => "-1",
        }
    }
}

/// One sort criterion: a field and a direction.
#[derive(Clone, PartialEq, Debug)]
pub struct Sort {
    pub field: String,
    pub direction: SortDirection,
}

/// The mathematical value of a [`Sort`].
pub struct SortView {
    pub field: Seq<char>,
    pub direction: SortDirection,
}

impl View for Sort {
    type V = SortView;

    open spec fn view(&self) -> SortView {
        SortView { field: self.field@, direction: self.direction }
    }
}

impl Sort {
    /// How this criterion reads in a query string: the field, a colon, the
    /// direction code.
    pub open spec fn spec_query_string(s: SortView) -> Seq<char> {
        s.field + ":"@ + s.direction.spec_code()
    }

    /// Renders this criterion for a query string.
    pub fn query_string(&self) -> (r: String)
        ensures
            r@ == Sort::spec_query_string(self@),
    {
        let mut out = self.field.clone();
        out.append(":");
        out.append(self.direction.code());
        out
    }
}

/// How a filter compares a field against its value.
#[derive(Copy, Clone, PartialEq, Eq, Structural, Debug)]
pub enum FilterType {
    LessThan,
    LessThanEqualOrEqualTo,
    GreaterThan,
    GreaterThanOrEqualTo,
    StartsWith,
    Contains,
    EqualTo,
    NotEqualTo,
}

impl FilterType {
    /// The operator character this comparison puts before the value;
    /// equality puts none.
    pub open spec fn spec_code(self) -> Seq<char> {
        match self {
            FilterType::LessThan => "<"@,
            FilterType::LessThanEqualOrEqualTo => "["@,
            FilterType::GreaterThan => ">"@,
            FilterType::GreaterThanOrEqualTo => "]"@,
            FilterType::StartsWith => "^"@,
            FilterType::Contains => "*"@,
            FilterType::EqualTo => ""@,
            FilterType::NotEqualTo => "!"@,
        }
    }

    /// This comparison's operator text.
    pub fn code(&self) -> (r: &'static str)
        ensures
            r@ == self.spec_code(),
    {
        match self {
            FilterType::LessThan => "<",
            FilterType::LessThanEqualOrEqualTo => "[",
            FilterType::GreaterThan => ">",
            FilterType::GreaterThanOrEqualTo => "]",
            FilterType::StartsWith => "^",
            FilterType::Contains => "*",
            FilterType::EqualTo => "",
            FilterType::NotEqualTo => "!",
        }
    }
}

/// One filter term: a field, a comparison, and a value.
#[derive(Clone, PartialEq, Debug)]
pub struct Filter {
    pub field: String,
    pub filter: FilterType,
    pub value: String,
}

/// The mathematical value of a [`Filter`].
pub struct FilterView {
    pub field: Seq<char>,
    pub filter: FilterType,
    pub value: Seq<char>,
}

impl View for Filter {
    type V = FilterView;

    open spec fn view(&self) -> FilterView {
        FilterView { field: self.field@, filter: self.filter, value: self.value@ }
    }
}

impl Filter {
    /// How this term reads in a query string: the field, an equals sign,
    /// the operator, the value.
    pub open spec fn spec_query_string(f: FilterView) -> Seq<char> {
        f.field + "="@ + f.filter.spec_code() + f.value
    }

    /// Renders this term for a query string.
    pub fn query_string(&self) -> (r: String)
        ensures
            r@ == Filter::spec_query_string(self@),
    {
        let mut out = self.field.clone();
        out.append("=");
        out.append(self.filter.code());
        out.append(self.value.as_str());
        out
    }
}

/// Whether a join keeps rows with no match.
#[derive(Copy, Clone, PartialEq, Eq, Structural, Debug, Default)]
pub enum JoinType {
    Inner,
    #[default]
    Outer,
}

/// One join clause: pull a related collection into the response.
#[derive(Clone, PartialEq, Debug)]
pub struct Join {
    /// The collection joined in. The wire calls this `type`.
    pub kind: String,
    pub on: String,
    pub to: String,
    pub list: Option<bool>,
    pub show: Option<Vec<String>>,
    pub hide: Option<Vec<String>>,
    pub inject_at: String,
    pub terms: Option<Vec<Filter>>,
    pub join_type: Option<JoinType>,
}

/// One tree clause: group the response's rows by a field.
#[derive(Clone, PartialEq, Debug)]
pub struct Tree {
    pub field: String,
    pub list: Option<bool>,
    pub prefix: Option<String>,
    pub start: Option<String>,
}

} // verus!
