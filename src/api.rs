//! The query builder, records, and the errors of the Airtable client.
use vstd::prelude::*;

use crate::external::params_len;
use crate::external::parse_with_params;
use crate::external::url_with_params;
use crate::pagination::start;
use crate::pagination::within_query_limit;
use crate::pagination::Pagination;
use crate::pagination::QUERY_TEXT_LIMIT;

verus! {

/// Sort order of a listed field.
#[derive(Clone, Copy, Debug, PartialEq, Eq, Structural)]
pub enum Direction {
    Ascending,
    Descending,
}

/// The word Airtable uses for a sort direction.
pub open spec fn direction_text(d: Direction) -> Seq<char> {
    match d {
        Direction::Ascending => "asc"@,
        Direction::Descending => "desc"@,
    }
}

/// A server-assigned record identifier, never interpreted by the client.
#[derive(Debug)]
pub struct RecordId(String);

impl View for RecordId {
    type V = Seq<char>;

    closed spec fn view(&self) -> Seq<char> {
        self.0@
    }
}

impl RecordId {
    /// Wraps an identifier obtained from the server.
    pub fn new(id: String) -> (r: RecordId)
        ensures
            r@ == id@,
    {
        RecordId(id)
    }

    pub fn as_str(&self) -> (r: &str)
        ensures
            r@ == self@,
    {
        self.0.as_str()
    }
}

impl Clone for RecordId {
    fn clone(&self) -> (r: RecordId)
        ensures
            r@ == self@,
    {
        RecordId(self.0.clone())
    }
}

impl PartialEq for RecordId {
    fn eq(&self, other: &RecordId) -> (r: bool) {
        self.0 == other.0
    }
}

impl vstd::std_specs::cmp::PartialEqSpecImpl for RecordId {
    open spec fn obeys_eq_spec() -> bool {
        true
    }

    open spec fn eq_spec(&self, other: &RecordId) -> bool {
        self@ == other@
    }
}

impl Eq for RecordId {

}

/// The single sort key of a list query.
struct Sort {
    field: String,
    direction: Direction,
}

/// The parameters of a list query, as values.
pub ghost struct ListQuery {
    pub base: Seq<char>,
    pub table: Seq<char>,
    pub max_records: Option<nat>,
    pub view: Option<Seq<char>>,
    pub sort: Option<(Seq<char>, Direction)>,
    pub filter_by_formula: Option<Seq<char>>,
    pub fields: Option<Seq<Seq<char>>>,
}

/// Builder of a list request on one table of one base.
pub struct ListRecords {
    /// Airtable base ID
    base: String,
    /// Base table name or ID
    table: String,
    /// The maximum total number of records that will be returned in your requests.
    /// If this value is larger than `100`, multiple API requests will be required.
    /// Defaults to unlimited.
    max_records: Option<usize>,
    /// The name or ID of a view in the table.
    /// If set, only the records in that view will be returned.
    /// The records will be sorted according to the order of the view
    /// unless the `sort` parameter is included, which overrides that order.
    /// Fields hidden in this view will be returned in the results.
    /// To only return a subset of fields, use the fields parameter.
    view: Option<String>,
    sort: Option<Sort>,
    filter_by_formula: Option<String>,
    fields: Option<Vec<String>>,
}

impl ListRecords {
    /// The parameters this builder holds.
    pub closed spec fn params(&self) -> ListQuery {
        ListQuery {
            base: self.base@,
            table: self.table@,
            max_records: match self.max_records {
                Some(m) => Some(m as nat),
                None => None,
            },
            view: match self.view {
                Some(v) => Some(v@),
                None => None,
            },
            sort: match self.sort {
                Some(s) => Some((s.field@, s.direction)),
                None => None,
            },
            filter_by_formula: match self.filter_by_formula {
                Some(f) => Some(f@),
                None => None,
            },
            fields: match self.fields {
                Some(fs) => Some(fs.deep_view()),
                None => None,
            },
        }
    }
}

/// The list endpoint of a table: `https://api.airtable.com/v0/{base}/{table}`.
pub open spec fn list_target(base: Seq<char>, table: Seq<char>) -> Seq<char> {
    "https://api.airtable.com/v0/"@ + base + "/"@ + table
}

/// The query parameters that a list query compiles to, in order.
pub open spec fn query_pairs_of(q: ListQuery) -> Seq<(Seq<char>, Seq<char>)> {
    let view = match q.view {
        Some(v) => seq![("view"@, v)],
        None => seq![],
    };
    let sort = match q.sort {
        Some((f, d)) => seq![("sort[0][field]"@, f), ("sort[0][direction]"@, direction_text(d))],
        None => seq![],
    };
    let formula = match q.filter_by_formula {
        Some(f) => seq![("filterByFormula"@, f)],
        None => seq![],
    };
    let fields = match q.fields {
        Some(fs) => fs.map_values(|f: Seq<char>| ("fields[]"@, f)),
        None => seq![],
    };
    view + sort + formula + fields
}

impl ListRecords {
    pub fn new(base: String, table: String) -> (r: ListRecords)
        ensures
            r.params() == (ListQuery {
                base: base@,
                table: table@,
                max_records: None,
                view: None,
                sort: None,
                filter_by_formula: None,
                fields: None,
            }),
    {
        ListRecords {
            base,
            table,
            max_records: None,
            view: None,
            sort: None,
            filter_by_formula: None,
            fields: None,
        }
    }

    pub fn max_records(&mut self, max: usize) -> (r: &mut Self)
        ensures
            r.params() == (ListQuery { max_records: Some(max as nat), ..old(self).params() }),
            *final(self) == *final(r),
    {
        self.max_records = Some(max);
        self
    }

    pub fn with_max_records(self, max: usize) -> (r: Self)
        ensures
            r.params() == (ListQuery { max_records: Some(max as nat), ..self.params() }),
    {
        let mut q = self;
        q.max_records(max);
        q
    }

    pub fn view(&mut self, view: String) -> (r: &mut Self)
        ensures
            r.params() == (ListQuery { view: Some(view@), ..old(self).params() }),
            *final(self) == *final(r),
    {
        self.view = Some(view);
        self
    }

    pub fn with_view(self, view: String) -> (r: Self)
        ensures
            r.params() == (ListQuery { view: Some(view@), ..self.params() }),
    {
        let mut q = self;
        q.view(view);
        q
    }

    pub fn sort(&mut self, field: String, direction: Direction) -> (r: &mut Self)
        ensures
            r.params() == (ListQuery { sort: Some((field@, direction)), ..old(self).params() }),
            *final(self) == *final(r),
    {
        self.sort = Some(Sort { field, direction });
        self
    }

    pub fn with_sort(self, field: String, direction: Direction) -> (r: Self)
        ensures
            r.params() == (ListQuery { sort: Some((field@, direction)), ..self.params() }),
    {
        let mut q = self;
        q.sort(field, direction);
        q
    }

    pub fn filter_by_formula(&mut self, formula: String) -> (r: &mut Self)
        ensures
            r.params() == (ListQuery { filter_by_formula: Some(formula@), ..old(self).params() }),
            *final(self) == *final(r),
    {
        self.filter_by_formula = Some(formula);
        self
    }

    pub fn with_filter_by_formula(self, formula: String) -> (r: Self)
        ensures
            r.params() == (ListQuery { filter_by_formula: Some(formula@), ..self.params() }),
    {
        let mut q = self;
        q.filter_by_formula(formula);
        q
    }

    pub fn fields(&mut self, fields: Vec<String>) -> (r: &mut Self)
        ensures
            r.params() == (ListQuery { fields: Some(fields.deep_view()), ..old(self).params() }),
            *final(self) == *final(r),
    {
        self.fields = Some(fields);
        self
    }

    pub fn with_fields(self, fields: Vec<String>) -> (r: Self)
        ensures
            r.params() == (ListQuery { fields: Some(fields.deep_view()), ..self.params() }),
    {
        let mut q = self;
        q.fields(fields);
        q
    }
    /// Compiles the query parameters, in the order in which Airtable receives them.
    pub fn query_pairs(&self) -> (r: Vec<(String, String)>)
        ensures
            r.deep_view() == query_pairs_of(self.params()),
    {
        let mut pairs: Vec<(String, String)> = Vec::new();
        if let Some(view) = &self.view {
            push_pair(&mut pairs, String::from_str("view"), view.clone());
        }
        if let Some(sort) = &self.sort {
            push_pair(&mut pairs, String::from_str("sort[0][field]"), sort.field.clone());
            let direction = match sort.direction {
                Direction::Ascending => String::from_str("asc"),
                Direction::Descending => String::from_str("desc"),
            };
            push_pair(&mut pairs, String::from_str("sort[0][direction]"), direction);
        }
        if let Some(formula) = &self.filter_by_formula {
            push_pair(&mut pairs, String::from_str("filterByFormula"), formula.clone());
        }
        let ghost prefix = pairs.deep_view();
        if let Some(fields) = &self.fields {
            let mut i: usize = 0;
            while i < fields.len()
                invariant
                    i <= fields.len(),
                    pairs.deep_view() == prefix + fields.deep_view().take(i as int).map_values(
                        |f: Seq<char>| ("fields[]"@, f),
                    ),
                decreases fields.len() - i,
            {
                push_pair(&mut pairs, String::from_str("fields[]"), fields[i].clone());
                assert(fields.deep_view().take(i + 1) =~= fields.deep_view().take(i as int).push(
                    fields[i as int]@,
                ));
                i += 1;
            }
            assert(fields.deep_view().take(fields.len() as int) =~= fields.deep_view());
        }
        assert(pairs.deep_view() =~= query_pairs_of(self.params()));
        pairs
    }

    /// Compiles the query and sets up a pagination run over it, consuming the
    /// builder. Fails before any request: with `Overflow` where the endpoint
    /// and parameters are too long for a URL, or where the endpoint of base
    /// and table does not parse.
    pub fn paginate<T>(self) -> (r: Result<Pagination<T>, ApiError>)
        ensures
            r is Ok <==> query_fits(self.params()) && url_with_params(
                list_target(self.params().base, self.params().table),
                Seq::empty(),
            ) is Some,
            !query_fits(self.params()) ==> r == Err::<Pagination<T>, ApiError>(
                ApiError::Url(url::ParseError::Overflow),
            ),
            r is Err ==> r->Err_0 is Url,
            r is Ok ==> r->Ok_0@ == start::<T>(self.params().max_records),
            r is Ok ==> r->Ok_0.target() == list_target(self.params().base, self.params().table),
            r is Ok ==> r->Ok_0.base_pairs() == query_pairs_of(self.params()),
    {
        let target = list_url(self.base.as_str(), self.table.as_str());
        let pairs = self.query_pairs();
        if !within_query_limit(&target, &pairs) {
            return Err(ApiError::Url(url::ParseError::Overflow));
        }
        match parse_with_params(target.as_str(), &pairs) {
            Ok(_) => Ok(Pagination::new(target, pairs, self.max_records)),
            Err(e) => Err(ApiError::Url(e)),
        }
    }
}

/// The endpoint and parameters of a query are short enough to be sent.
pub open spec fn query_fits(q: ListQuery) -> bool {
    list_target(q.base, q.table).len() + params_len(query_pairs_of(q)) <= QUERY_TEXT_LIMIT
}

/// Appends one query parameter.
pub(crate) fn push_pair(pairs: &mut Vec<(String, String)>, key: String, value: String)
    ensures
        final(pairs).deep_view() == old(pairs).deep_view().push((key@, value@)),
        params_len(final(pairs).deep_view()) == params_len(old(pairs).deep_view()) + key@.len()
            + value@.len() + 2,
{
    pairs.push((key, value));
    assert(pairs.deep_view() =~= old(pairs).deep_view().push((key@, value@)));
    assert(pairs.deep_view().drop_last() =~= old(pairs).deep_view());
}

/// A point in time as the server stamped it: whole seconds since the Unix
/// epoch and the nanoseconds past that second.
#[derive(Clone, Copy, Debug, PartialEq, Eq, Structural)]
pub struct Timestamp {
    pub seconds: i64,
    pub nanos: u32,
}

/// One row of a table: its identifier, when it was created, and its fields.
#[derive(Debug, Clone)]
pub struct Record<T> {
    id: RecordId,
    created_time: Timestamp,
    fields: T,
}

impl<T> Record<T> {
    pub closed spec fn spec_id(&self) -> Seq<char> {
        self.id@
    }

    pub closed spec fn spec_created_time(&self) -> Timestamp {
        self.created_time
    }

    pub closed spec fn spec_fields(&self) -> T {
        self.fields
    }

    /// Builds a record from what the server sent.
    pub fn new(id: RecordId, created_time: Timestamp, fields: T) -> (r: Record<T>)
        ensures
            r.spec_id() == id@,
            r.spec_created_time() == created_time,
            r.spec_fields() == fields,
    {
        Record { id, created_time, fields }
    }

    pub fn id(&self) -> (r: &RecordId)
        ensures
            r@ == self.spec_id(),
    {
        &self.id
    }

    pub fn created_time(&self) -> (r: Timestamp)
        ensures
            r == self.spec_created_time(),
    {
        self.created_time
    }

    pub fn fields(&self) -> (r: &T)
        ensures
            *r == self.spec_fields(),
    {
        &self.fields
    }

    pub fn fields_mut(&mut self) -> (r: &mut T)
        ensures
            *r == old(self).spec_fields(),
            final(self).spec_fields() == *final(r),
            final(self).spec_id() == old(self).spec_id(),
            final(self).spec_created_time() == old(self).spec_created_time(),
    {
        &mut self.fields
    }

    pub fn into_fields(self) -> (r: T)
        ensures
            r == self.spec_fields(),
    {
        self.fields
    }
}

/// What can go wrong when talking to Airtable. The kinds do not overlap.
#[derive(Debug)]
pub enum ApiError {
    /// The identifiers and parameters do not form a valid request URL.
    Url(url::ParseError),
    /// The server could not be reached, or the exchange broke off.
    Http(reqwest::Error),
    /// A payload could not be encoded, or a response body not decoded.
    Json(serde_json::Error),
    /// The server answered with a status outside 200..=299; `message` is its
    /// body, verbatim.
    Api { status: u16, message: String },
}

impl From<url::ParseError> for ApiError {
    fn from(e: url::ParseError) -> (r: ApiError)
        ensures
            r == ApiError::Url(e),
    {
        ApiError::Url(e)
    }
}

impl vstd::std_specs::convert::FromSpecImpl<url::ParseError> for ApiError {
    open spec fn obeys_from_spec() -> bool {
        true
    }

    open spec fn from_spec(e: url::ParseError) -> ApiError {
        ApiError::Url(e)
    }
}

impl From<reqwest::Error> for ApiError {
    fn from(e: reqwest::Error) -> (r: ApiError)
        ensures
            r == ApiError::Http(e),
    {
        ApiError::Http(e)
    }
}

impl vstd::std_specs::convert::FromSpecImpl<reqwest::Error> for ApiError {
    open spec fn obeys_from_spec() -> bool {
        true
    }

    open spec fn from_spec(e: reqwest::Error) -> ApiError {
        ApiError::Http(e)
    }
}

impl From<serde_json::Error> for ApiError {
    fn from(e: serde_json::Error) -> (r: ApiError)
        ensures
            r == ApiError::Json(e),
    {
        ApiError::Json(e)
    }
}

impl vstd::std_specs::convert::FromSpecImpl<serde_json::Error> for ApiError {
    open spec fn obeys_from_spec() -> bool {
        true
    }

    open spec fn from_spec(e: serde_json::Error) -> ApiError {
        ApiError::Json(e)
    }
}

/// A status in 200..=299.
pub open spec fn is_success(status: u16) -> bool {
    200 <= status < 300
}

/// Sorts a response by its status: a success hands the body on for decoding,
/// any other status becomes an API failure that carries status and body.
pub fn check_response(status: u16, body: String) -> (r: Result<String, ApiError>)
    ensures
        r == (if is_success(status) {
            Ok::<String, ApiError>(body)
        } else {
            Err(ApiError::Api { status, message: body })
        }),
{
    if 200 <= status && status < 300 {
        Ok(body)
    } else {
        Err(ApiError::Api { status, message: body })
    }
}

/// The endpoint of one record: `https://api.airtable.com/v0/{base}/{table}/{id}`.
pub open spec fn record_target(base: Seq<char>, table: Seq<char>, id: Seq<char>) -> Seq<char> {
    list_target(base, table) + "/"@ + id
}

/// Builds the list endpoint of a table.
pub fn list_url(base: &str, table: &str) -> (r: String)
    ensures
        r@ == list_target(base@, table@),
{
    let mut url = String::from_str("https://api.airtable.com/v0/");
    url.append(base);
    url.append("/");
    url.append(table);
    url
}

/// Builds the endpoint that a record is updated at.
pub fn record_url(base: &str, table: &str, id: &RecordId) -> (r: String)
    ensures
        r@ == record_target(base@, table@, id@),
{
    let mut url = list_url(base, table);
    url.append("/");
    url.append(id.as_str());
    url
}

/// The value of the `Authorization` header for an API key.
pub open spec fn bearer(key: Seq<char>) -> Seq<char> {
    "Bearer "@ + key
}

/// Builds the `Authorization` header value that every request carries.
pub fn authorization(key: &str) -> (r: String)
    ensures
        r@ == bearer(key@),
{
    String::from_str("Bearer ").concat(key)
}

/// The body of an update: `{"typecast":<flag>,"fields":<fields>}`, where
/// `fields` is the JSON text of the new field values.
pub open spec fn patch_text(typecast: bool, fields: Seq<char>) -> Seq<char> {
    (if typecast {
        "{\"typecast\":true,\"fields\":"@
    } else {
        "{\"typecast\":false,\"fields\":"@
    }) + fields + "}"@
}

/// Frames the body of an update request around the encoded fields.
pub fn patch_body(typecast: bool, fields_json: &str) -> (r: String)
    ensures
        r@ == patch_text(typecast, fields_json@),
{
    let mut body = if typecast {
        String::from_str("{\"typecast\":true,\"fields\":")
    } else {
        String::from_str("{\"typecast\":false,\"fields\":")
    };
    body.append(fields_json);
    body.append("}");
    body
}

/// The requests of the Airtable API besides listing.
pub enum ApiRequest {
    /// Get record
    GetRecord,
    /// Update multiple records
    UpdateRecords,
    /// Update record
    UpdateRecord,
    /// Create records
    CreateRecord,
    /// Delete multiple records
    DeleteRecords,
    /// Delete record
    DeleteRecord,
    /// Upload attachment
    Attachment,
    /// Update field
    UpdateField,
    /// Create field
    CreateField,
    /// List comments
    ListComments,
    /// Update comment
    UpdateComment,
    /// Create comment
    CreateComment,
    /// Delete comment
    DeleteComment,
}

} // verus!
