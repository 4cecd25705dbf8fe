use airtable::api::{check_response, ApiError, ListRecords};
use airtable::pagination::{Page, Pagination, PAGE_SIZE};

const LIST: &str = "https://api.airtable.com/v0/app/tbl?";

fn start(max: Option<usize>) -> Pagination<u32> {
    let q = ListRecords::new("app".to_string(), "tbl".to_string());
    match max {
        Some(m) => q.with_max_records(m).paginate().unwrap(),
        None => q.paginate().unwrap(),
    }
}

fn page(from: u32, to: u32, offset: Option<&str>) -> Result<Page<u32>, ApiError> {
    Ok(Page { records: (from..to).collect(), offset: offset.map(str::to_string) })
}

fn transport_error() -> ApiError {
    ApiError::from(reqwest::Client::new().get("no scheme").build().unwrap_err())
}

#[test]
fn page_size_is_a_hundred() {
    assert_eq!(PAGE_SIZE, 100);
}

#[test]
fn unbounded_run_collects_every_page() {
    let mut run = start(None);
    assert_eq!(run.next_request().unwrap(), LIST);
    run.receive(page(0, 100, Some("itrA")));
    assert_eq!(run.next_request().unwrap(), format!("{LIST}offset=itrA"));
    run.receive(page(100, 200, Some("itrB")));
    assert_eq!(run.next_request().unwrap(), format!("{LIST}offset=itrB"));
    run.receive(page(200, 250, None));
    assert_eq!(run.next_request(), None);
    assert_eq!(run.finish().unwrap(), (0..250).collect::<Vec<u32>>());
}

#[test]
fn single_page_needs_one_request() {
    let mut run = start(None);
    assert!(run.next_request().is_some());
    run.receive(page(0, 37, None));
    assert_eq!(run.next_request(), None);
    assert_eq!(run.finish().unwrap().len(), 37);
}

#[test]
fn empty_table_returns_nothing() {
    let mut run = start(None);
    assert!(run.next_request().is_some());
    run.receive(page(0, 0, None));
    assert_eq!(run.next_request(), None);
    assert!(run.finish().unwrap().is_empty());
}

#[test]
fn cap_of_250_asks_for_50_last() {
    let mut run = start(Some(250));
    assert_eq!(run.next_request().unwrap(), LIST);
    run.receive(page(0, 100, Some("p2")));
    assert_eq!(run.next_request().unwrap(), format!("{LIST}offset=p2"));
    run.receive(page(100, 200, Some("p3")));
    assert_eq!(run.next_request().unwrap(), format!("{LIST}maxRecords=50&offset=p3"));
    run.receive(page(200, 250, Some("p4")));
    assert_eq!(run.next_request(), None);
    assert_eq!(run.finish().unwrap(), (0..250).collect::<Vec<u32>>());
}

#[test]
fn cap_of_200_asks_for_100_last() {
    let mut run = start(Some(200));
    assert_eq!(run.next_request().unwrap(), LIST);
    run.receive(page(0, 100, Some("p2")));
    assert_eq!(run.next_request().unwrap(), format!("{LIST}maxRecords=100&offset=p2"));
    run.receive(page(100, 200, Some("p3")));
    assert_eq!(run.next_request(), None);
    assert_eq!(run.finish().unwrap().len(), 200);
}

#[test]
fn small_cap_sends_max_records_on_first_request() {
    let mut run = start(Some(5));
    assert_eq!(run.next_request().unwrap(), format!("{LIST}maxRecords=5"));
    run.receive(page(0, 5, Some("more")));
    assert_eq!(run.next_request(), None);
    assert_eq!(run.finish().unwrap(), vec![0, 1, 2, 3, 4]);
}

#[test]
fn cap_larger_than_table_stops_at_last_page() {
    let mut run = start(Some(1000));
    assert_eq!(run.next_request().unwrap(), LIST);
    run.receive(page(0, 100, Some("p2")));
    assert_eq!(run.next_request().unwrap(), format!("{LIST}offset=p2"));
    run.receive(page(100, 130, None));
    assert_eq!(run.next_request(), None);
    assert_eq!(run.finish().unwrap().len(), 130);
}

#[test]
fn zero_cap_issues_no_request() {
    let mut run = start(Some(0));
    assert_eq!(run.next_request(), None);
    assert!(run.finish().unwrap().is_empty());
}

#[test]
fn offset_is_forwarded_verbatim_and_encoded() {
    let mut run = start(None);
    run.next_request().unwrap();
    run.receive(page(0, 100, Some("itr/a b+c")));
    let url = run.next_request().unwrap();
    assert_eq!(url, format!("{LIST}offset=itr%2Fa+b%2Bc"));
    let parsed = url::Url::parse(&url).unwrap();
    let offset: Vec<(String, String)> = parsed.query_pairs().into_owned().collect();
    assert_eq!(offset, vec![("offset".to_string(), "itr/a b+c".to_string())]);
}

#[test]
fn offset_follows_query_parameters() {
    let q = ListRecords::new("app".to_string(), "tbl".to_string()).with_view("Grid".to_string());
    let mut run: Pagination<u32> = q.paginate().unwrap();
    assert_eq!(run.next_request().unwrap(), format!("{LIST}view=Grid"));
    run.receive(page(0, 100, Some("o1")));
    assert_eq!(run.next_request().unwrap(), format!("{LIST}view=Grid&offset=o1"));
}

#[test]
fn page_without_offset_ends_capped_run_early() {
    let mut run = start(Some(500));
    run.next_request().unwrap();
    run.receive(page(0, 100, Some("o1")));
    run.next_request().unwrap();
    run.receive(page(100, 120, None));
    assert_eq!(run.next_request(), None);
    assert_eq!(run.finish().unwrap().len(), 120);
}

#[test]
fn transport_failure_on_second_page_discards_first() {
    let mut run = start(None);
    run.next_request().unwrap();
    run.receive(page(0, 100, Some("o1")));
    run.next_request().unwrap();
    run.receive(Err(transport_error()));
    assert_eq!(run.next_request(), None);
    run.receive(page(200, 300, None));
    assert!(matches!(run.finish(), Err(ApiError::Http(_))));
}

#[test]
fn api_failure_ends_run_with_status() {
    let mut run = start(Some(300));
    run.next_request().unwrap();
    let reply = check_response(422, "bad".to_string()).map(|_| Page { records: vec![], offset: None });
    run.receive(reply);
    assert_eq!(run.next_request(), None);
    match run.finish() {
        Err(ApiError::Api { status, message }) => {
            assert_eq!(status, 422);
            assert_eq!(message, "bad");
        }
        other => panic!("unexpected outcome: {other:?}"),
    }
}

#[test]
fn oversized_offset_aborts_run() {
    let mut run = start(None);
    run.next_request().unwrap();
    let token = "a".repeat(airtable::pagination::OFFSET_LIMIT + 1);
    run.receive(Ok(Page { records: vec![1, 2], offset: Some(token) }));
    assert_eq!(run.next_request(), None);
    assert!(matches!(run.finish(), Err(ApiError::Url(url::ParseError::Overflow))));
}

#[test]
fn longest_offset_is_forwarded() {
    let mut run = start(None);
    run.next_request().unwrap();
    let token = "b".repeat(airtable::pagination::OFFSET_LIMIT);
    run.receive(Ok(Page { records: vec![1], offset: Some(token) }));
    let url = run.next_request().unwrap();
    assert_eq!(url.len(), LIST.len() + "offset=".len() + airtable::pagination::OFFSET_LIMIT);
}
