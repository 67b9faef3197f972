use prhub::github::{
    count_comments, format_octocrab_error, github_token, search_failure_message, search_queries,
    split_repo, stage_failure_message, ApiFailure, DiffRecord, FetchError, FilePage, FilesFetch,
    FilesProgress, IssueRecord, IssueState, ListFetch, ListProgress, Stage,
};

fn issue(id: u64, title: &str) -> IssueRecord {
    IssueRecord {
        id,
        repository_path: "/repos/octo/hello".to_string(),
        number: id + 100,
        state: IssueState::Open,
        title: title.to_string(),
        author: "mona".to_string(),
        updated_at: "2024-05-01T10:00:00+00:00".to_string(),
    }
}

fn entry(name: &str) -> DiffRecord {
    DiffRecord {
        filename: name.to_string(),
        status: "Modified".to_string(),
        additions: 1,
        deletions: 2,
        patch: Some(format!("@@ {name} @@")),
    }
}

fn remote(status: &str, message: &str) -> ApiFailure {
    ApiFailure::Remote {
        status: status.to_string(),
        message: message.to_string(),
        documentation_url: None,
        errors: None,
    }
}

fn names(files: &[DiffRecord]) -> Vec<String> {
    files.iter().map(|f| f.filename.clone()).collect()
}

fn ids(items: &[IssueRecord]) -> Vec<u64> {
    items.iter().map(|i| i.id).collect()
}

fn expect_search(progress: ListProgress) -> ListFetch {
    match progress {
        ListProgress::Search(state) => state,
        other => panic!("expected a search, got {}", describe_list(&other)),
    }
}

fn describe_list(progress: &ListProgress) -> String {
    match progress {
        ListProgress::Search(state) => format!("Search({})", state.query()),
        ListProgress::Done(items) => format!("Done({:?})", ids(items)),
        ListProgress::Failed(message) => format!("Failed({message})"),
    }
}

fn expect_page(progress: FilesProgress) -> FilesFetch {
    match progress {
        FilesProgress::GetPage(state) => state,
        FilesProgress::Done(files, _) => panic!("expected a page request, got Done with {} files", files.len()),
        FilesProgress::Failed(message) => panic!("expected a page request, got Failed({message})"),
    }
}

#[test]
fn token_primary_wins() {
    assert_eq!(
        github_token(Some("primary".to_string()), Some("fallback".to_string())),
        Ok("primary".to_string())
    );
    assert_eq!(github_token(Some("primary".to_string()), None), Ok("primary".to_string()));
}

#[test]
fn token_falls_back() {
    assert_eq!(github_token(None, Some("fallback".to_string())), Ok("fallback".to_string()));
}

#[test]
fn token_missing_is_configuration_error() {
    assert_eq!(github_token(None, None), Err(FetchError::Configuration));
}

#[test]
fn token_empty_text_is_still_set() {
    assert_eq!(github_token(Some(String::new()), Some("fallback".to_string())), Ok(String::new()));
}

#[test]
fn fetch_error_messages() {
    assert_eq!(FetchError::Configuration.message(), "GITHUB_TOKEN not set (or GH_TOKEN fallback)");
    assert_eq!(FetchError::Validation.message(), "Invalid repo name (expected owner/repo)");
}

#[test]
fn split_repo_at_first_separator() {
    assert_eq!(split_repo("octo/hello"), Ok(("octo".to_string(), "hello".to_string())));
    assert_eq!(split_repo("a/b/c"), Ok(("a".to_string(), "b/c".to_string())));
    assert_eq!(split_repo("/x"), Ok((String::new(), "x".to_string())));
    assert_eq!(split_repo("x/"), Ok(("x".to_string(), String::new())));
    assert_eq!(split_repo("/"), Ok((String::new(), String::new())));
}

#[test]
fn split_repo_without_separator_is_validation_error() {
    assert_eq!(split_repo("hello"), Err(FetchError::Validation));
    assert_eq!(split_repo(""), Err(FetchError::Validation));
    assert_eq!(split_repo("owner\\repo"), Err(FetchError::Validation));
}

#[test]
fn format_remote_error_plain() {
    assert_eq!(
        format_octocrab_error(&remote("404 Not Found", "Not Found")),
        "GitHub API error (404 Not Found): Not Found"
    );
}

#[test]
fn format_remote_error_with_docs() {
    let failure = ApiFailure::Remote {
        status: "403 Forbidden".to_string(),
        message: "API rate limit exceeded".to_string(),
        documentation_url: Some("https://docs.example/rate".to_string()),
        errors: None,
    };
    assert_eq!(
        format_octocrab_error(&failure),
        "GitHub API error (403 Forbidden): API rate limit exceeded | Docs: https://docs.example/rate"
    );
}

#[test]
fn format_remote_error_with_errors() {
    let failure = ApiFailure::Remote {
        status: "422 Unprocessable Entity".to_string(),
        message: "Validation Failed".to_string(),
        documentation_url: Some("https://docs.example/search".to_string()),
        errors: Some(vec!["{\"code\":\"invalid\"}".to_string(), "\"second\"".to_string()]),
    };
    assert_eq!(
        format_octocrab_error(&failure),
        "GitHub API error (422 Unprocessable Entity): Validation Failed | Docs: https://docs.example/search | Errors: {\"code\":\"invalid\"} \"second\""
    );
}

#[test]
fn format_remote_error_with_errors_and_no_docs() {
    let failure = ApiFailure::Remote {
        status: "422".to_string(),
        message: "bad".to_string(),
        documentation_url: None,
        errors: Some(vec!["one".to_string()]),
    };
    assert_eq!(format_octocrab_error(&failure), "GitHub API error (422): bad | Errors: one");
}

#[test]
fn format_remote_error_with_empty_error_list() {
    let failure = ApiFailure::Remote {
        status: "500".to_string(),
        message: "oops".to_string(),
        documentation_url: None,
        errors: Some(Vec::new()),
    };
    assert_eq!(format_octocrab_error(&failure), "GitHub API error (500): oops");
}

#[test]
fn format_transport_error_is_its_description() {
    let failure = ApiFailure::Transport { description: "Hyper Error: connection reset".to_string() };
    assert_eq!(format_octocrab_error(&failure), "Hyper Error: connection reset");
}

#[test]
fn stage_messages_have_their_prefix() {
    let failure = remote("500", "boom");
    assert_eq!(
        stage_failure_message(Stage::GetPr, &failure),
        "get PR failed: GitHub API error (500): boom"
    );
    assert_eq!(
        stage_failure_message(Stage::ListFiles, &failure),
        "list_files failed: GitHub API error (500): boom"
    );
    assert_eq!(
        stage_failure_message(Stage::Pagination, &failure),
        "list_files pagination failed: GitHub API error (500): boom"
    );
    assert_eq!(
        stage_failure_message(Stage::GetDiff, &failure),
        "Octocrab get_diff failed: GitHub API error (500): boom"
    );
}

#[test]
fn search_failure_names_the_query() {
    let failure = ApiFailure::Transport { description: "timed out".to_string() };
    assert_eq!(
        search_failure_message("is:pr is:open author:mona", &failure),
        "Octocrab search failed for `is:pr is:open author:mona`: timed out"
    );
}

#[test]
fn search_queries_for_login() {
    assert_eq!(
        search_queries("mona"),
        vec![
            "is:pr is:open author:mona".to_string(),
            "is:pr is:open review-requested:mona".to_string(),
            "is:pr is:open reviewed-by:mona".to_string(),
        ]
    );
}

#[test]
fn list_fetch_sends_the_three_queries_in_order() {
    let state = expect_search(ListFetch::begin("mona"));
    assert_eq!(state.query(), "is:pr is:open author:mona");
    let state = expect_search(state.advance(Ok(Vec::new())));
    assert_eq!(state.query(), "is:pr is:open review-requested:mona");
    let state = expect_search(state.advance(Ok(Vec::new())));
    assert_eq!(state.query(), "is:pr is:open reviewed-by:mona");
    match state.advance(Ok(Vec::new())) {
        ListProgress::Done(items) => assert!(items.is_empty()),
        other => panic!("expected Done, got {}", describe_list(&other)),
    }
}

#[test]
fn list_fetch_merges_overlapping_pages_once_each_first_seen() {
    let (a, b, c, d) = (issue(1, "A"), issue(2, "B"), issue(3, "C"), issue(4, "D"));
    let state = expect_search(ListFetch::begin("mona"));
    let state = expect_search(state.advance(Ok(vec![a.clone(), b.clone()])));
    let state = expect_search(state.advance(Ok(vec![b.clone(), c.clone()])));
    match state.advance(Ok(vec![c.clone(), d.clone()])) {
        ListProgress::Done(items) => assert_eq!(items, vec![a, b, c, d]),
        other => panic!("expected Done, got {}", describe_list(&other)),
    }
}

#[test]
fn list_fetch_identity_is_the_id_not_the_content() {
    let first = issue(7, "first title");
    let mut again = issue(7, "renamed since");
    again.number = 999;
    let other = issue(8, "first title");
    let state = expect_search(ListFetch::begin("mona"));
    let state = expect_search(state.advance(Ok(vec![first.clone(), again.clone(), other.clone()])));
    let state = expect_search(state.advance(Ok(vec![again])));
    match state.advance(Ok(Vec::new())) {
        ListProgress::Done(items) => assert_eq!(items, vec![first, other]),
        other => panic!("expected Done, got {}", describe_list(&other)),
    }
}

#[test]
fn list_fetch_keeps_first_seen_order_across_pages() {
    let state = expect_search(ListFetch::begin("mona"));
    let state = expect_search(state.advance(Ok(vec![issue(5, "e"), issue(3, "c")])));
    let state = expect_search(state.advance(Ok(vec![issue(9, "i"), issue(5, "e"), issue(1, "a")])));
    match state.advance(Ok(vec![issue(1, "a"), issue(3, "c"), issue(2, "b")])) {
        ListProgress::Done(items) => assert_eq!(ids(&items), vec![5, 3, 9, 1, 2]),
        other => panic!("expected Done, got {}", describe_list(&other)),
    }
}

#[test]
fn list_fetch_failure_ends_with_message_for_that_query() {
    let state = expect_search(ListFetch::begin("mona"));
    let state = expect_search(state.advance(Ok(vec![issue(1, "A")])));
    match state.advance(Err(remote("422 Unprocessable Entity", "Validation Failed"))) {
        ListProgress::Failed(message) => assert_eq!(
            message,
            "Octocrab search failed for `is:pr is:open review-requested:mona`: GitHub API error (422 Unprocessable Entity): Validation Failed"
        ),
        other => panic!("expected Failed, got {}", describe_list(&other)),
    }
}

#[test]
fn list_fetch_failure_on_first_query() {
    let state = expect_search(ListFetch::begin("x"));
    match state.advance(Err(ApiFailure::Transport { description: "down".to_string() })) {
        ListProgress::Failed(message) => {
            assert_eq!(message, "Octocrab search failed for `is:pr is:open author:x`: down")
        },
        other => panic!("expected Failed, got {}", describe_list(&other)),
    }
}

#[test]
fn files_fetch_three_pages_of_two_gives_six_in_order() {
    let first = FilePage { items: vec![entry("a"), entry("b")], next: Some("page2".to_string()) };
    let second = FilePage { items: vec![entry("c"), entry("d")], next: Some("page3".to_string()) };
    let third = FilePage { items: vec![entry("e"), entry("f")], next: None };
    let state = expect_page(FilesFetch::begin("abc123".to_string(), first));
    assert_eq!(state.link(), "page2");
    let state = expect_page(state.advance(Ok(Some(second))));
    assert_eq!(state.link(), "page3");
    match state.advance(Ok(Some(third))) {
        FilesProgress::Done(files, sha) => {
            assert_eq!(files.len(), 6);
            assert_eq!(names(&files), vec!["a", "b", "c", "d", "e", "f"]);
            assert_eq!(files[2], entry("c"));
            assert_eq!(sha, "abc123");
        },
        _ => panic!("expected Done"),
    }
}

#[test]
fn files_fetch_single_page_is_done_at_once() {
    let only = FilePage { items: vec![entry("a")], next: None };
    match FilesFetch::begin("sha".to_string(), only) {
        FilesProgress::Done(files, sha) => {
            assert_eq!(names(&files), vec!["a"]);
            assert_eq!(sha, "sha");
        },
        _ => panic!("expected Done"),
    }
}

#[test]
fn files_fetch_empty_first_page_without_link() {
    match FilesFetch::begin("sha".to_string(), FilePage { items: Vec::new(), next: None }) {
        FilesProgress::Done(files, _) => assert!(files.is_empty()),
        _ => panic!("expected Done"),
    }
}

#[test]
fn files_fetch_link_to_no_page_stops_with_files_so_far() {
    let first = FilePage { items: vec![entry("a"), entry("b")], next: Some("page2".to_string()) };
    let state = expect_page(FilesFetch::begin("sha".to_string(), first));
    match state.advance(Ok(None)) {
        FilesProgress::Done(files, sha) => {
            assert_eq!(names(&files), vec!["a", "b"]);
            assert_eq!(sha, "sha");
        },
        _ => panic!("expected Done"),
    }
}

#[test]
fn files_fetch_goes_on_while_links_are_present() {
    let mut progress = FilesFetch::begin(
        "sha".to_string(),
        FilePage { items: vec![entry("f0")], next: Some("p1".to_string()) },
    );
    let mut page = 1;
    let files = loop {
        match progress {
            FilesProgress::GetPage(state) => {
                assert_eq!(state.link(), &format!("p{page}"));
                let next = if page < 10 { Some(format!("p{}", page + 1)) } else { None };
                let reply = FilePage { items: vec![entry(&format!("f{page}"))], next };
                page += 1;
                progress = state.advance(Ok(Some(reply)));
            },
            FilesProgress::Done(files, _) => break files,
            FilesProgress::Failed(message) => panic!("failed: {message}"),
        }
    };
    assert_eq!(page, 11);
    assert_eq!(files.len(), 11);
    assert_eq!(files[0].filename, "f0");
    assert_eq!(files[10].filename, "f10");
}

#[test]
fn files_fetch_pagination_failure() {
    let first = FilePage { items: vec![entry("a")], next: Some("page2".to_string()) };
    let state = expect_page(FilesFetch::begin("sha".to_string(), first));
    match state.advance(Err(remote("502 Bad Gateway", "Server Error"))) {
        FilesProgress::Failed(message) => assert_eq!(
            message,
            "list_files pagination failed: GitHub API error (502 Bad Gateway): Server Error"
        ),
        _ => panic!("expected Failed"),
    }
}

#[test]
fn count_comments_counts_equal_paths() {
    let paths: Vec<String> =
        ["src/a.rs", "src/b.rs", "src/a.rs", "src/A.rs", "src/a.rs "].iter().map(|s| s.to_string()).collect();
    assert_eq!(count_comments(&paths, &"src/a.rs".to_string()), 2);
    assert_eq!(count_comments(&paths, &"src/b.rs".to_string()), 1);
    assert_eq!(count_comments(&paths, &"src/c.rs".to_string()), 0);
    assert_eq!(count_comments(&Vec::new(), &"src/a.rs".to_string()), 0);
}
