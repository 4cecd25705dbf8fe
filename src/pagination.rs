//! The pagination engine. Airtable hands out at most a hundred records per
//! response and a continuation token while more remain; this machine decides,
//! page after page, what to ask for next and gathers what came back. Whoever
//! drives it performs the requests and hands each reply back.
use vstd::prelude::*;

use crate::api::push_pair;
use crate::api::ApiError;
use crate::external::params_len;
use crate::external::parse_with_params;
use crate::external::url_with_params;

verus! {

/// Airtable's cap on the records of one response.
pub const PAGE_SIZE: usize = 100;

/// The most characters that a list endpoint and its query's parameters may
/// take together.
pub const QUERY_TEXT_LIMIT: usize = 200_000_000;

/// The longest continuation token that a run forwards; a longer one aborts
/// the run with `Overflow`, as url would.
pub const OFFSET_LIMIT: usize = 50_000_000;

/// One page as the server sent it.
pub struct Page<T> {
    pub records: Vec<T>,
    pub offset: Option<String>,
}

/// A reply to a page request, as values: the page's records with its
/// continuation token, or the error that ended the exchange.
pub type Reply<T> = Result<(Seq<T>, Option<Seq<char>>), ApiError>;

/// The value of a reply.
pub open spec fn reply_of<T>(reply: Result<Page<T>, ApiError>) -> Reply<T> {
    match reply {
        Ok(page) => Ok(
            (
                page.records@,
                match page.offset {
                    Some(o) => Some(o@),
                    None => None,
                },
            ),
        ),
        Err(e) => Err(e),
    }
}

/// What one page request asks for beyond the list query: an explicit
/// `maxRecords` and the continuation token.
pub ghost struct PageQuery {
    pub max_records: Option<nat>,
    pub offset: Option<Seq<char>>,
}

/// The state of a pagination run.
pub ghost struct Progress<T> {
    /// Records still allowed; `None` for no cap.
    pub remaining: Option<nat>,
    /// The token of the last page, forwarded verbatim on the next request.
    pub offset: Option<Seq<char>>,
    /// The records gathered so far, in the order the server sent them.
    pub records: Seq<T>,
    /// A page without a token has come.
    pub finished: bool,
    /// The error that aborted the run.
    pub failure: Option<ApiError>,
}

/// A run that has not asked for anything yet.
pub open spec fn start<T>(max_records: Option<nat>) -> Progress<T> {
    Progress { remaining: max_records, offset: None, records: seq![], finished: false, failure: None }
}

/// The request that a run issues next, if any: none once a page came without
/// a token, after a failure, or when the cap is used up. A cap of at most a
/// page is sent as `maxRecords`.
pub open spec fn next_query<T>(s: Progress<T>) -> Option<PageQuery> {
    if s.finished || s.failure is Some || s.remaining == Some(0nat) {
        None
    } else {
        Some(
            PageQuery {
                max_records: match s.remaining {
                    Some(m) => if m <= PAGE_SIZE {
                        Some(m)
                    } else {
                        None
                    },
                    None => None,
                },
                offset: s.offset,
            },
        )
    }
}

/// The budget once a request is issued: a full page is charged while more
/// than a page remains; a request that sends `maxRecords` uses up the rest.
pub open spec fn after_query<T>(s: Progress<T>) -> Progress<T> {
    Progress {
        remaining: match s.remaining {
            Some(m) => if m > PAGE_SIZE {
                Some((m - PAGE_SIZE) as nat)
            } else {
                Some(0nat)
            },
            None => None,
        },
        ..s
    }
}

/// The state once a reply came. A page is appended and its token kept; a
/// page without a token ends the run; an error, or a token too long to be
/// forwarded, aborts it. Once ended or
/// aborted, nothing changes.
pub open spec fn after_reply<T>(s: Progress<T>, reply: Reply<T>) -> Progress<T> {
    if s.finished || s.failure is Some {
        s
    } else {
        match reply {
            Ok((page, offset)) => if offset is Some && offset->Some_0.len() > OFFSET_LIMIT {
                Progress { failure: Some(ApiError::Url(url::ParseError::Overflow)), ..s }
            } else {
                Progress { records: s.records + page, offset, finished: offset is None, ..s }
            },
            Err(e) => Progress { failure: Some(e), ..s },
        }
    }
}

/// What a run returns: all records gathered, or the error that aborted it and
/// nothing else.
pub open spec fn outcome<T>(s: Progress<T>) -> Result<Seq<T>, ApiError> {
    match s.failure {
        Some(e) => Err(e),
        None => Ok(s.records),
    }
}

/// The decimal digit `d`.
pub open spec fn digit(d: nat) -> char {
    seq!['0', '1', '2', '3', '4', '5', '6', '7', '8', '9'][d as int]
}

/// The decimal numeral of `n`, without leading zeros.
pub open spec fn decimal(n: nat) -> Seq<char>
    decreases n,
{
    if n < 10 {
        seq![digit(n)]
    } else {
        decimal(n / 10) + seq![digit(n % 10)]
    }
}

/// The parameters that a page request adds to the list query.
pub open spec fn page_pairs(q: PageQuery) -> Seq<(Seq<char>, Seq<char>)> {
    (match q.max_records {
        Some(m) => seq![("maxRecords"@, decimal(m))],
        None => seq![],
    }) + (match q.offset {
        Some(o) => seq![("offset"@, o)],
        None => seq![],
    })
}

/// Plays a run from `s` against a server whose replies to successive
/// requests are `replies`, from index `i` on: the requests issued and the
/// state at the end. A request beyond the last reply is issued and left
/// unanswered.
pub open spec fn run<T>(s: Progress<T>, replies: Seq<Reply<T>>, i: nat) -> (Seq<PageQuery>, Progress<T>)
    decreases replies.len() - i,
{
    match next_query(s) {
        None => (seq![], s),
        Some(q) => if i < replies.len() {
            let (qs, end) = run(after_reply(after_query(s), replies[i as int]), replies, i + 1);
            (seq![q] + qs, end)
        } else {
            (seq![q], after_query(s))
        },
    }
}

/// Writes `n` in decimal.
fn decimal_string(n: usize) -> (r: String)
    ensures
        r@ == decimal(n as nat),
    decreases n,
{
    let digits = "0123456789";
    proof {
        reveal_strlit("0123456789");
    }
    let d = n % 10;
    let last = digits.substring_char(d, d + 1);
    assert(last@ =~= seq![digit(d as nat)]);
    if n < 10 {
        String::from_str(last)
    } else {
        let mut s = decimal_string(n / 10);
        s.append(last);
        s
    }
}

proof fn lemma_decimal_len(n: nat)
    ensures
        n < 1000 ==> decimal(n).len() == (if n < 10 {
            1nat
        } else if n < 100 {
            2nat
        } else {
            3nat
        }),
    decreases n,
{
    if n >= 10 {
        lemma_decimal_len(n / 10);
    }
}

proof fn lemma_params_len_prefix(pairs: Seq<(Seq<char>, Seq<char>)>, j: int)
    requires
        0 <= j <= pairs.len(),
    ensures
        params_len(pairs.take(j)) <= params_len(pairs),
    decreases pairs.len(),
{
    if j < pairs.len() {
        assert(pairs.drop_last().take(j) =~= pairs.take(j));
        lemma_params_len_prefix(pairs.drop_last(), j);
    } else {
        assert(pairs.take(j) =~= pairs);
    }
}

/// Whether an endpoint and its parameters stay within [`QUERY_TEXT_LIMIT`].
pub(crate) fn within_query_limit(target: &String, pairs: &Vec<(String, String)>) -> (r: bool)
    ensures
        r == (target@.len() + params_len(pairs.deep_view()) <= QUERY_TEXT_LIMIT),
{
    let ghost all = pairs.deep_view();
    let mut total: usize = target.as_str().unicode_len();
    if total > QUERY_TEXT_LIMIT {
        return false;
    }
    let mut i: usize = 0;
    while i < pairs.len()
        invariant
            i <= pairs.len(),
            all == pairs.deep_view(),
            total == target@.len() + params_len(all.take(i as int)),
            total <= QUERY_TEXT_LIMIT,
        decreases pairs.len() - i,
    {
        let k = pairs[i].0.as_str().unicode_len();
        let v = pairs[i].1.as_str().unicode_len();
        assert(all.take(i + 1).drop_last() =~= all.take(i as int));
        if k > QUERY_TEXT_LIMIT - total || v > QUERY_TEXT_LIMIT - total - k || 2 > QUERY_TEXT_LIMIT
            - total - k - v {
            proof {
                lemma_params_len_prefix(all, i + 1);
            }
            return false;
        }
        total = total + k + v + 2;
        i += 1;
    }
    assert(all.take(pairs.len() as int) =~= all);
    true
}

/// Copies a list of parameters.
fn copy_pairs(pairs: &Vec<(String, String)>) -> (r: Vec<(String, String)>)
    ensures
        r.deep_view() == pairs.deep_view(),
{
    let mut copy: Vec<(String, String)> = Vec::new();
    let mut i: usize = 0;
    while i < pairs.len()
        invariant
            i <= pairs.len(),
            copy.deep_view() == pairs.deep_view().take(i as int),
        decreases pairs.len() - i,
    {
        push_pair(&mut copy, pairs[i].0.clone(), pairs[i].1.clone());
        assert(pairs.deep_view().take(i + 1) =~= pairs.deep_view().take(i as int).push(
            pairs[i as int].deep_view(),
        ));
        i += 1;
    }
    assert(pairs.deep_view().take(pairs.len() as int) =~= pairs.deep_view());
    copy
}

/// A continuation token short enough to be forwarded.
struct Token {
    text: String,
}

impl Token {
    #[verifier::type_invariant]
    closed spec fn short(&self) -> bool {
        self.text@.len() <= OFFSET_LIMIT
    }
}

/// The token's text, if any.
spec fn token_text(offset: Option<Token>) -> Option<Seq<char>> {
    match offset {
        Some(t) => Some(t.text@),
        None => None,
    }
}

/// A list endpoint that parses, with the parameters of its query.
struct Endpoint {
    target: String,
    pairs: Vec<(String, String)>,
}

impl Endpoint {
    #[verifier::type_invariant]
    closed spec fn parses_and_fits(&self) -> bool {
        &&& url_with_params(self.target@, Seq::empty()) is Some
        &&& self.target@.len() + params_len(self.pairs.deep_view()) <= QUERY_TEXT_LIMIT
    }

    /// The URL of a page: the endpoint with the query's parameters and then
    /// the page's own.
    fn page_url(&self, max_records: Option<usize>, offset: &Option<Token>) -> (r: String)
        requires
            max_records is Some ==> max_records->Some_0 <= PAGE_SIZE,
        ensures
            url_with_params(
                self.target@,
                self.pairs.deep_view() + page_pairs(
                    PageQuery {
                        max_records: match max_records {
                            Some(m) => Some(m as nat),
                            None => None,
                        },
                        offset: token_text(*offset),
                    },
                ),
            ) == Some(r@),
    {
        proof {
            use_type_invariant(self);
        }
        let ghost base = self.pairs.deep_view();
        let mut pairs = copy_pairs(&self.pairs);
        if let Some(max) = max_records {
            proof {
                lemma_decimal_len(max as nat);
                reveal_strlit("maxRecords");
            }
            push_pair(&mut pairs, String::from_str("maxRecords"), decimal_string(max));
        }
        if let Some(token) = offset {
            proof {
                use_type_invariant(token);
                reveal_strlit("offset");
            }
            push_pair(&mut pairs, String::from_str("offset"), token.text.clone());
        }
        assert(pairs.deep_view() =~= base + page_pairs(
            PageQuery {
                max_records: match max_records {
                    Some(m) => Some(m as nat),
                    None => None,
                },
                offset: token_text(*offset),
            },
        ));
        match parse_with_params(self.target.as_str(), &pairs) {
            Ok(url) => url,
            Err(_) => String::new(),
        }
    }
}

/// A pagination run over one compiled list query.
pub struct Pagination<T> {
    endpoint: Endpoint,
    remaining: Option<usize>,
    offset: Option<Token>,
    records: Vec<T>,
    finished: bool,
    failure: Option<ApiError>,
}

impl<T> View for Pagination<T> {
    type V = Progress<T>;

    closed spec fn view(&self) -> Progress<T> {
        Progress {
            remaining: match self.remaining {
                Some(m) => Some(m as nat),
                None => None,
            },
            offset: token_text(self.offset),
            records: self.records@,
            finished: self.finished,
            failure: self.failure,
        }
    }
}

impl<T> Pagination<T> {
    /// The endpoint that every page is requested from.
    pub closed spec fn target(&self) -> Seq<char> {
        self.endpoint.target@
    }

    /// The parameters of the list query, sent with every page.
    pub closed spec fn base_pairs(&self) -> Seq<(Seq<char>, Seq<char>)> {
        self.endpoint.pairs.deep_view()
    }

    /// Sets up a run on an endpoint that parses.
    pub(crate) fn new(target: String, pairs: Vec<(String, String)>, max_records: Option<usize>) -> (r:
        Pagination<T>)
        requires
            url_with_params(target@, Seq::empty()) is Some,
            target@.len() + params_len(pairs.deep_view()) <= QUERY_TEXT_LIMIT,
        ensures
            r@ == start::<T>(
                match max_records {
                    Some(m) => Some(m as nat),
                    None => None,
                },
            ),
            r.target() == target@,
            r.base_pairs() == pairs.deep_view(),
    {
        Pagination {
            endpoint: Endpoint { target, pairs },
            remaining: max_records,
            offset: None,
            records: Vec::new(),
            finished: false,
            failure: None,
        }
    }

    /// Decides the next request: the URL of the page to fetch, or `None` when
    /// the run is over. Issuing a request charges the budget.
    pub fn next_request(&mut self) -> (r: Option<String>)
        ensures
            r is Some <==> next_query(old(self)@) is Some,
            r is Some ==> url_with_params(
                old(self).target(),
                old(self).base_pairs() + page_pairs(next_query(old(self)@)->Some_0),
            ) == Some(r->Some_0@),
            final(self)@ == (if next_query(old(self)@) is Some {
                after_query(old(self)@)
            } else {
                old(self)@
            }),
            final(self).target() == old(self).target(),
            final(self).base_pairs() == old(self).base_pairs(),
    {
        if self.finished || self.failure.is_some() {
            return None;
        }
        let mut limit: Option<usize> = None;
        if let Some(max) = self.remaining {
            if max == 0 {
                return None;
            }
            if max > PAGE_SIZE {
                self.remaining = Some(max - PAGE_SIZE);
            } else {
                limit = Some(max);
                self.remaining = Some(0);
            }
        }
        Some(self.endpoint.page_url(limit, &self.offset))
    }

    /// Takes in the reply to the last request.
    pub fn receive(&mut self, reply: Result<Page<T>, ApiError>)
        ensures
            final(self)@ == after_reply(old(self)@, reply_of(reply)),
            final(self).target() == old(self).target(),
            final(self).base_pairs() == old(self).base_pairs(),
    {
        if self.finished || self.failure.is_some() {
            return;
        }
        match reply {
            Ok(page) => {
                let Page { records, offset } = page;
                let mut records = records;
                match offset {
                    Some(text) => {
                        if text.as_str().unicode_len() > OFFSET_LIMIT {
                            self.failure = Some(ApiError::Url(url::ParseError::Overflow));
                        } else {
                            self.records.append(&mut records);
                            self.offset = Some(Token { text });
                        }
                    },
                    None => {
                        self.records.append(&mut records);
                        self.finished = true;
                        self.offset = None;
                    },
                }
            },
            Err(e) => {
                self.failure = Some(e);
            },
        }
    }

    /// Ends the run: every record gathered, or the error that aborted it.
    pub fn finish(self) -> (r: Result<Vec<T>, ApiError>)
        ensures
            r is Ok <==> outcome(self@) is Ok,
            r is Ok ==> r->Ok_0@ == outcome(self@)->Ok_0,
            r is Err ==> r->Err_0 == outcome(self@)->Err_0,
    {
        match self.failure {
            Some(e) => Err(e),
            None => Ok(self.records),
        }
    }
}

} // verus!
