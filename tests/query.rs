use airtable::api::{Direction, ListRecords};

fn pair(k: &str, v: &str) -> (String, String) {
    (k.to_string(), v.to_string())
}

fn review_query() -> ListRecords {
    ListRecords::new("app123".to_string(), "Submissions".to_string())
        .with_view("Grid View".to_string())
        .with_sort("Name".to_string(), Direction::Ascending)
        .with_filter_by_formula("status = \"new\"".to_string())
        .with_fields(vec!["a".to_string(), "b".to_string()])
}

#[test]
fn empty_query_has_no_parameters() {
    let q = ListRecords::new("app123".to_string(), "tbl".to_string());
    assert!(q.query_pairs().is_empty());
}

#[test]
fn query_pairs_in_order() {
    assert_eq!(
        review_query().query_pairs(),
        vec![
            pair("view", "Grid View"),
            pair("sort[0][field]", "Name"),
            pair("sort[0][direction]", "asc"),
            pair("filterByFormula", "status = \"new\""),
            pair("fields[]", "a"),
            pair("fields[]", "b"),
        ]
    );
}

#[test]
fn descending_sort_is_desc() {
    let q = ListRecords::new("app".to_string(), "t".to_string())
        .with_sort("Created".to_string(), Direction::Descending);
    assert_eq!(
        q.query_pairs(),
        vec![pair("sort[0][field]", "Created"), pair("sort[0][direction]", "desc")]
    );
}

#[test]
fn setters_overwrite_earlier_values() {
    let mut q = ListRecords::new("app".to_string(), "t".to_string());
    q.view("First".to_string())
        .view("Second".to_string())
        .filter_by_formula("x".to_string())
        .sort("A".to_string(), Direction::Ascending)
        .sort("B".to_string(), Direction::Descending)
        .fields(vec!["one".to_string()])
        .fields(vec!["two".to_string(), "three".to_string()])
        .max_records(7);
    assert_eq!(
        q.query_pairs(),
        vec![
            pair("view", "Second"),
            pair("sort[0][field]", "B"),
            pair("sort[0][direction]", "desc"),
            pair("filterByFormula", "x"),
            pair("fields[]", "two"),
            pair("fields[]", "three"),
        ]
    );
}

#[test]
fn compiled_url_is_form_urlencoded() {
    let mut run = review_query().paginate::<u32>().unwrap();
    let url = run.next_request().unwrap();
    assert_eq!(
        url,
        "https://api.airtable.com/v0/app123/Submissions?view=Grid+View\
         &sort%5B0%5D%5Bfield%5D=Name&sort%5B0%5D%5Bdirection%5D=asc\
         &filterByFormula=status+%3D+%22new%22&fields%5B%5D=a&fields%5B%5D=b"
    );
    assert!(url.contains("view=Grid+View"));
    assert!(url.contains("filterByFormula=status+%3D+%22new%22"));
    assert_eq!(url.matches("fields%5B%5D=").count(), 2);
}

#[test]
fn compiled_url_decodes_to_the_parameters() {
    let mut run = review_query().paginate::<u32>().unwrap();
    let url = url::Url::parse(&run.next_request().unwrap()).unwrap();
    let decoded: Vec<(String, String)> = url.query_pairs().into_owned().collect();
    assert_eq!(decoded, review_query().query_pairs());
    assert!(decoded.contains(&pair("sort[0][field]", "Name")));
    assert!(decoded.contains(&pair("sort[0][direction]", "asc")));
}

#[test]
fn compilation_is_deterministic() {
    let first = review_query().paginate::<u32>().unwrap().next_request().unwrap();
    let second = review_query().paginate::<u32>().unwrap().next_request().unwrap();
    assert_eq!(first, second);
}

#[test]
fn table_name_with_spaces_is_escaped_in_the_path() {
    let mut run = ListRecords::new("appB".to_string(), "YSWS Project Submission".to_string())
        .paginate::<u32>()
        .unwrap();
    assert_eq!(
        run.next_request().unwrap(),
        "https://api.airtable.com/v0/appB/YSWS%20Project%20Submission?"
    );
}
