use google_cloud::bucket::Bucket;
use google_cloud::error::Error;
use google_cloud::listing::{ListPage, ListStep, Listing};

fn strings(v: &[&str]) -> Vec<String> {
    v.iter().map(|s| s.to_string()).collect()
}

fn page(items: Option<&[&str]>, prefixes: Option<&[&str]>, token: Option<&str>) -> ListPage {
    ListPage {
        items: items.map(strings),
        prefixes: prefixes.map(strings),
        next_page_token: token.map(|t| t.to_string()),
    }
}

#[test]
fn single_page_of_items() {
    let pages = vec![Ok(page(Some(&["a", "b"]), None, None))];
    let (taken, result) = Listing::run(pages);
    assert_eq!(taken, 1);
    assert_eq!(result, Some(Ok(strings(&["a", "b"]))));
}

#[test]
fn two_pages_with_prefix() {
    let pages = vec![
        Ok(page(Some(&["a"]), Some(&["dir/"]), Some("T"))),
        Ok(page(Some(&["b"]), None, None)),
    ];
    let (taken, result) = Listing::run(pages);
    assert_eq!(taken, 2);
    assert_eq!(result, Some(Ok(strings(&["a", "dir", "b"]))));
}

#[test]
fn pages_concatenate_items_then_prefixes() {
    let pages = vec![
        Ok(page(Some(&["x", "y"]), Some(&["p/", "q/"]), Some("1"))),
        Ok(page(None, Some(&["r/"]), Some("2"))),
        Ok(page(Some(&["x"]), Some(&["s/"]), None)),
    ];
    let (taken, result) = Listing::run(pages);
    assert_eq!(taken, 3);
    assert_eq!(
        result,
        Some(Ok(strings(&["x", "y", "p", "q", "r", "x", "s"])))
    );
}

#[test]
fn empty_page_gives_empty_listing() {
    let (taken, result) = Listing::run(vec![Ok(page(None, None, None))]);
    assert_eq!(taken, 1);
    assert_eq!(result, Some(Ok(Vec::new())));
}

#[test]
fn only_the_trailing_delimiter_is_stripped() {
    let pages = vec![Ok(page(None, Some(&["a/b/", "c", "/"]), None))];
    let (_, result) = Listing::run(pages);
    assert_eq!(result, Some(Ok(strings(&["a/b", "c", ""]))));
}

#[test]
fn cursor_on_every_page_asks_for_one_more() {
    let n = 5;
    let pages: Vec<Result<ListPage, Error>> = (0..n)
        .map(|i| Ok(page(Some(&["a"]), None, Some(&format!("t{}", i)))))
        .collect();
    let (taken, result) = Listing::run(pages);
    assert_eq!(taken, n);
    assert_eq!(result, None);
}

#[test]
fn server_error_aborts_listing() {
    let pages = vec![
        Ok(page(Some(&["a"]), Some(&["dir/"]), Some("T"))),
        Err(Error::Status(500, "oops".to_string())),
        Ok(page(Some(&["b"]), None, None)),
    ];
    let (taken, result) = Listing::run(pages);
    assert_eq!(taken, 2);
    assert_eq!(result, Some(Err(Error::Status(500, "oops".to_string()))));
}

#[test]
fn no_outcomes_means_first_page_still_wanted() {
    let (taken, result) = Listing::run(Vec::new());
    assert_eq!(taken, 0);
    assert_eq!(result, None);
}

#[test]
fn step_moves_cursor_forward() {
    let l = Listing::new();
    assert_eq!(l.page_token, "");
    match l.step(Ok(page(Some(&["a"]), Some(&["d/"]), Some("next")))) {
        ListStep::Next(l) => {
            assert_eq!(l.files, strings(&["a", "d"]));
            assert_eq!(l.page_token, "next");
        }
        ListStep::Done(_) => panic!("expected another page"),
    }
}

#[test]
fn step_passes_decode_error_on() {
    let mut l = Listing::new();
    l.files.push("kept".to_string());
    match l.step(Err(Error::Decode("bad json".to_string()))) {
        ListStep::Done(r) => assert_eq!(r, Err(Error::Decode("bad json".to_string()))),
        ListStep::Next(_) => panic!("expected the end"),
    }
}

#[test]
fn step_passes_authorization_and_transport_errors_on() {
    for e in [
        Error::Authorization("no token".to_string()),
        Error::Transport("reset".to_string()),
    ] {
        match Listing::new().step(Err(e.clone())) {
            ListStep::Done(r) => assert_eq!(r, Err(e)),
            ListStep::Next(_) => panic!("expected the end"),
        }
    }
}

#[test]
fn list_request_carries_prefix_and_cursor() {
    let b = Bucket::new("my bucket".to_string());
    let mut l = Listing::new();
    l.page_token = "CURSOR".to_string();
    let r = b.list_request("photos/", &l);
    assert_eq!(
        r.url,
        "https://www.googleapis.com/storage/v1/b/my%20bucket/o"
    );
    let q: Vec<(&str, &str)> = r.query.iter().map(|(k, v)| (k.as_str(), v.as_str())).collect();
    assert_eq!(
        q,
        vec![
            ("delimiter", "/"),
            ("maxResults", "999"),
            ("fields", "items/name,prefixes,nextPageToken"),
            ("prefix", "photos/"),
            ("pageToken", "CURSOR"),
        ]
    );
}
