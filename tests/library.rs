use bodhi::{
    begin, decimal_string, finish_create, is_success, join_values, lookup_outcome_of, outcome_of, BodhiError, BuildNVRQuery, BuildQuery, ErrorEntry, Failure,
    FedoraRelease, FilterField, FilterSet, ListPage, NewUpdate, Outcome, OverrideNVRQuery,
    OverrideQuery, PackageQuery, PageRequest, PageStep, Paginator, QueryError, Reply, RetryPolicy,
    RetryStep, UpdateBuilder, UpdateSeverity, UpdateSuggestion, UpdateType,
    ValidationError, MAX_PAGES,
};

fn strings(v: &[&str]) -> Vec<String> {
    v.iter().map(|s| s.to_string()).collect()
}

fn arg(req: &PageRequest, key: &str) -> Option<String> {
    req.args.iter().find(|(k, _)| k == key).map(|(_, v)| v.clone())
}

fn rejection() -> BodhiError {
    BodhiError {
        errors: vec![ErrorEntry {
            location: String::from("body"),
            name: String::from("builds"),
            description: String::from("Invalid build"),
        }],
        status: String::from("error"),
    }
}

fn page(items: &[&str], page: u32, pages: u32, rows: u32, total: u32) -> ListPage<String> {
    ListPage { items: strings(items), page, pages, rows_per_page: rows, total }
}

/// Drives `paginator` against `pages`, counting the fetches.
fn drive(
    mut paginator: Paginator<String>,
    mut serve: impl FnMut(u32) -> Result<ListPage<String>, QueryError>,
) -> (Result<Vec<String>, QueryError>, u32) {
    let mut fetches = 0;
    loop {
        let req = paginator.request();
        let n: u32 = arg(&req, "page").unwrap().parse().unwrap();
        fetches += 1;
        match paginator.on_page(serve(n)) {
            PageStep::Fetch(next) => paginator = next,
            PageStep::Complete(items) => return (Ok(items), fetches),
            PageStep::Failed(e) => return (Err(e), fetches),
        }
    }
}

/// Runs a request under `policy` against scripted replies, counting the attempts.
fn retried(policy: RetryPolicy, mut replies: Vec<Reply<String>>) -> (Result<String, QueryError>, usize) {
    replies.reverse();
    let mut attempts = 0;
    let mut step = begin(policy);
    loop {
        match step {
            RetryStep::Attempt { delay_secs, state } => {
                if attempts > 0 {
                    assert_eq!(delay_secs, policy.delay_secs);
                } else {
                    assert_eq!(delay_secs, 0);
                }
                attempts += 1;
                let reply = replies.pop().expect("no more scripted replies");
                step = state.record(outcome_of(reply));
            }
            RetryStep::Done(r) => return (r, attempts),
        }
    }
}

fn malformed(n: usize) -> Vec<Reply<String>> {
    (0..n).map(|i| Reply::Success(Err(format!("garbage {}", i)))).collect()
}

fn failure_reasons(e: &QueryError) -> Vec<String> {
    match e {
        QueryError::Unanswered { failures } => failures
            .iter()
            .map(|f| match f {
                Failure::Malformed(m) => format!("malformed: {}", m),
                Failure::Transport(m) => format!("transport: {}", m),
            })
            .collect(),
        other => panic!("unexpected error {:?}", other),
    }
}

#[test]
fn decimal_forms() {
    assert_eq!(decimal_string(0), "0");
    assert_eq!(decimal_string(7), "7");
    assert_eq!(decimal_string(42), "42");
    assert_eq!(decimal_string(1000), "1000");
    assert_eq!(decimal_string(u32::MAX), "4294967295");
}

#[test]
fn join_forms() {
    assert_eq!(join_values(&Vec::new()), "");
    assert_eq!(join_values(&strings(&["a"])), "a");
    assert_eq!(join_values(&strings(&["a", "b", "c"])), "a,b,c");
    assert_eq!(join_values(&strings(&["", ""])), ",");
}

#[test]
fn added_values_render_joined() {
    let req = BuildQuery::new()
        .packages(String::from("a"))
        .packages(String::from("b"))
        .packages(String::from("c"))
        .query::<String>()
        .request();
    assert_eq!(req.path, "/builds/");
    assert_eq!(
        req.args,
        vec![
            (String::from("packages"), String::from("a,b,c")),
            (String::from("page"), String::from("1")),
            (String::from("rows_per_page"), String::from("50")),
        ]
    );
}

#[test]
fn set_twice_keeps_second() {
    let req = PackageQuery::new()
        .name(String::from("first"))
        .name(String::from("second"))
        .query::<String>()
        .request();
    assert_eq!(req.path, "/packages/");
    assert_eq!(arg(&req, "name"), Some(String::from("second")));
    assert_eq!(req.args.len(), 3);
}

#[test]
fn filter_set_keeps_field_order() {
    let rendered = FilterSet::new()
        .add(FilterField::Users, String::from("alice"))
        .set(FilterField::Expired, String::from("false"))
        .add(FilterField::Users, String::from("bob"))
        .set(FilterField::Expired, String::from("true"))
        .render();
    assert_eq!(
        rendered,
        vec![
            (String::from("user"), String::from("alice,bob")),
            (String::from("expired"), String::from("true")),
        ]
    );
    assert!(FilterSet::new().render().is_empty());
}

#[test]
fn override_query_parameters() {
    let req = OverrideQuery::new()
        .users(String::from("decathorpe"))
        .expired(true)
        .releases(FedoraRelease::F29)
        .releases(FedoraRelease::EPEL8)
        .like(String::from("rust%"))
        .search(String::from("rust"))
        .builds(String::from("rust-1.0-1.fc29"))
        .packages(String::from("rust"))
        .expired(false)
        .query::<String>()
        .request();
    assert_eq!(req.path, "/overrides/");
    assert_eq!(arg(&req, "user"), Some(String::from("decathorpe")));
    assert_eq!(arg(&req, "expired"), Some(String::from("false")));
    assert_eq!(arg(&req, "releases"), Some(String::from("F29,EPEL-8")));
    assert_eq!(arg(&req, "like"), Some(String::from("rust%")));
    assert_eq!(arg(&req, "search"), Some(String::from("rust")));
    assert_eq!(arg(&req, "builds"), Some(String::from("rust-1.0-1.fc29")));
    assert_eq!(arg(&req, "packages"), Some(String::from("rust")));
    assert_eq!(req.args.len(), 9);
}

#[test]
fn build_query_parameters() {
    let req = BuildQuery::new()
        .nvr(String::from("a-1-1"))
        .updates(String::from("FEDORA-2019-1"))
        .nvr(String::from("b-1-1"))
        .releases(FedoraRelease::F30)
        .query::<String>()
        .request();
    assert_eq!(arg(&req, "nvr"), Some(String::from("b-1-1")));
    assert_eq!(arg(&req, "updates"), Some(String::from("FEDORA-2019-1")));
    assert_eq!(arg(&req, "releases"), Some(String::from("F30")));
}

#[test]
fn single_object_paths() {
    let req = BuildNVRQuery::new(String::from("rust-1.34.1-1.fc29")).request();
    assert_eq!(req.path, "/builds/rust-1.34.1-1.fc29");
    assert!(req.args.is_empty());
    let req = OverrideNVRQuery::new(String::from("wingpanel-2.2.1-1.fc28")).request();
    assert_eq!(req.path, "/overrides/wingpanel-2.2.1-1.fc28");
    assert!(req.args.is_empty());
}

#[test]
fn release_and_update_words() {
    assert_eq!(FedoraRelease::EPEL8M.name(), "EPEL-8M");
    assert_eq!(FedoraRelease::F32C.name(), "F32C");
    assert_eq!(UpdateType::NewPackage.word(), "newpackage");
    assert_eq!(UpdateSeverity::Urgent.word(), "urgent");
    assert_eq!(UpdateSuggestion::Reboot.word(), "reboot");
    assert_eq!(bodhi::UpdateRequest::Stable.word(), "stable");
}

#[test]
fn paginator_two_pages_of_two() {
    let paginator: Paginator<String> = Paginator::new(String::from("/builds/"), FilterSet::new(), 2, MAX_PAGES);
    let first = paginator.request();
    assert_eq!(arg(&first, "rows_per_page"), Some(String::from("2")));
    let (result, fetches) = drive(paginator, |n| match n {
        1 => Ok(page(&["A", "B"], 1, 2, 2, 3)),
        2 => Ok(page(&["C"], 2, 2, 2, 3)),
        _ => panic!("page {} was not expected", n),
    });
    assert_eq!(result.unwrap(), strings(&["A", "B", "C"]));
    assert_eq!(fetches, 2);
}

#[test]
fn paginator_keeps_order_for_any_page_count() {
    let all = ["i0", "i1", "i2", "i3", "i4", "i5", "i6"];
    for size in 1..=8usize {
        let pages = ((all.len() + size - 1) / size) as u32;
        let paginator: Paginator<String> =
            Paginator::new(String::from("/packages/"), FilterSet::new(), size as u32, MAX_PAGES);
        let (result, fetches) = drive(paginator, |n| {
            let chunk: Vec<&str> = all.iter().skip((n as usize - 1) * size).take(size).cloned().collect();
            Ok(page(&chunk, n, pages, size as u32, all.len() as u32))
        });
        assert_eq!(result.unwrap(), strings(&all));
        assert_eq!(fetches, pages);
    }
}

#[test]
fn paginator_counts_items_not_reported_total() {
    let paginator: Paginator<String> = Paginator::new(String::from("/builds/"), FilterSet::new(), 2, MAX_PAGES);
    let (result, _) = drive(paginator, |n| match n {
        1 => Ok(page(&["A", "B"], 1, 2, 2, 10)),
        _ => Ok(page(&["C"], 2, 2, 2, 10)),
    });
    assert_eq!(result.unwrap().len(), 3);
}

#[test]
fn paginator_empty_result() {
    let paginator: Paginator<String> = Paginator::new(String::from("/builds/"), FilterSet::new(), 50, MAX_PAGES);
    let (result, fetches) = drive(paginator, |_| Ok(page(&[], 1, 0, 50, 0)));
    assert_eq!(result.unwrap(), Vec::<String>::new());
    assert_eq!(fetches, 1);
}

#[test]
fn paginator_ceiling_stops_endless_service() {
    let paginator: Paginator<String> = Paginator::new(String::from("/builds/"), FilterSet::new(), 1, 3);
    let (result, fetches) = drive(paginator, |n| Ok(page(&["x"], n, n + 1, 1, n + 1)));
    match result {
        Err(QueryError::PageLimitExceeded { fetched }) => assert_eq!(fetched, 3),
        other => panic!("unexpected {:?}", other),
    }
    assert_eq!(fetches, 3);
}

#[test]
fn paginator_later_failure_discards_items() {
    let paginator: Paginator<String> = Paginator::new(String::from("/builds/"), FilterSet::new(), 1, MAX_PAGES);
    let (result, fetches) = drive(paginator, |n| match n {
        1 => Ok(page(&["A"], 1, 3, 1, 3)),
        _ => Err(QueryError::BodhiError { error: rejection() }),
    });
    assert!(matches!(result, Err(QueryError::BodhiError { .. })));
    assert_eq!(fetches, 2);
}

#[test]
fn retry_recovers_within_budget() {
    let mut replies = malformed(2);
    replies.push(Reply::Success(Ok(String::from("answer"))));
    let (result, attempts) = retried(RetryPolicy { max_attempts: 3, delay_secs: 1 }, replies);
    assert_eq!(result.unwrap(), "answer");
    assert_eq!(attempts, 3);
}

#[test]
fn retry_gives_up_with_every_reason() {
    let mut replies = malformed(2);
    replies.push(Reply::Success(Ok(String::from("answer"))));
    let (result, attempts) = retried(RetryPolicy { max_attempts: 2, delay_secs: 1 }, replies);
    assert_eq!(attempts, 2);
    assert_eq!(
        failure_reasons(&result.unwrap_err()),
        vec![String::from("malformed: garbage 0"), String::from("malformed: garbage 1")]
    );
}

#[test]
fn retry_budget_below_failures() {
    let mut replies = malformed(4);
    replies.push(Reply::Success(Ok(String::from("answer"))));
    let (result, attempts) = retried(RetryPolicy { max_attempts: 1, delay_secs: 5 }, replies);
    assert_eq!(attempts, 1);
    assert_eq!(failure_reasons(&result.unwrap_err()), vec![String::from("malformed: garbage 0")]);
}

#[test]
fn retry_zero_budget_makes_no_attempt() {
    let (result, attempts) = retried(RetryPolicy { max_attempts: 0, delay_secs: 1 }, Vec::new());
    assert_eq!(attempts, 0);
    assert!(failure_reasons(&result.unwrap_err()).is_empty());
}

#[test]
fn retry_transport_and_bad_error_body() {
    let replies = vec![
        Reply::Unreachable(String::from("timed out")),
        Reply::Failure { status: 500, report: Err(String::from("not json")) },
        Reply::Success(Ok(String::from("late answer"))),
    ];
    let (result, attempts) = retried(RetryPolicy { max_attempts: 3, delay_secs: 0 }, replies);
    assert_eq!(result.unwrap(), "late answer");
    assert_eq!(attempts, 3);
}

#[test]
fn structured_error_is_not_retried() {
    let replies = vec![
        Reply::Failure { status: 400, report: Ok(rejection()) },
        Reply::Success(Ok(String::from("never read"))),
    ];
    let (result, attempts) = retried(RetryPolicy { max_attempts: 3, delay_secs: 0 }, replies);
    assert_eq!(attempts, 1);
    match result {
        Err(QueryError::BodhiError { error }) => {
            assert_eq!(error.errors[0].description, "Invalid build");
        }
        other => panic!("unexpected {:?}", other),
    }
}

#[test]
fn lookup_absent_is_not_an_error() {
    let absent = lookup_outcome_of::<String>(Reply::Failure { status: 404, report: Err(String::from("html")) });
    assert!(matches!(absent, Outcome::Settled(Ok(None))));
    let present = lookup_outcome_of(Reply::Success(Ok(String::from("build"))));
    assert!(matches!(present, Outcome::Settled(Ok(Some(ref b))) if b == "build"));
    let refused = lookup_outcome_of::<String>(Reply::Failure { status: 403, report: Ok(rejection()) });
    assert!(matches!(refused, Outcome::Settled(Err(QueryError::BodhiError { .. }))));
}

#[test]
fn list_not_found_returns_service_error() {
    let refused = outcome_of::<String>(Reply::Failure { status: 404, report: Ok(rejection()) });
    match refused {
        Outcome::Settled(Err(QueryError::BodhiError { error })) => {
            assert_eq!(error.errors[0].name, "builds");
        }
        other => panic!("unexpected {:?}", other),
    }
    let unreadable = outcome_of::<String>(Reply::Failure { status: 404, report: Err(String::from("html")) });
    assert!(matches!(unreadable, Outcome::Retryable(Failure::Malformed(ref m)) if m == "html"));
    let garbage = outcome_of::<String>(Reply::Success(Err(String::from("eof"))));
    assert!(matches!(garbage, Outcome::Retryable(Failure::Malformed(_))));
}

#[test]
fn token_failure_stops_creation() {
    let builds = ["rust-1.0-1.fc30"];
    let b = UpdateBuilder::from_builds(&builds, "notes").bugs(99);
    let failed = b.submission_after_token(Err(QueryError::BodhiError { error: rejection() }));
    assert!(matches!(failed, Err(QueryError::BodhiError { .. })));
    let sent = b.submission_after_token(Ok(String::from("token-3"))).unwrap();
    assert_eq!(sent.path, "/updates/");
    assert_eq!(sent.data.csrf_token, "token-3");
    assert_eq!(sent.data.bugs, Some(strings(&["99"])));
}

#[test]
fn validation_messages() {
    assert_eq!(ValidationError::StableKarmaNotPositive.message(), "Stable karma must be positive.");
    assert_eq!(ValidationError::UnstableKarmaNotNegative.message(), "Unstable karma must be negative.");
    assert_eq!(
        ValidationError::SecuritySeverityMissing.message(),
        "For security updates, severity has to be specified."
    );
}

#[test]
fn success_statuses() {
    assert!(is_success(200));
    assert!(is_success(201));
    assert!(is_success(299));
    assert!(!is_success(199));
    assert!(!is_success(300));
    assert!(!is_success(404));
    assert!(!is_success(500));
}

fn invalid(b: &UpdateBuilder) -> Option<ValidationError> {
    match b.begin_create() {
        Err(QueryError::InvalidDataError { error }) => Some(error),
        Err(other) => panic!("unexpected {:?}", other),
        Ok(req) => {
            assert_eq!(req.path, "/csrf");
            None
        }
    }
}

#[test]
fn local_rules_reject_before_sending() {
    let builds = ["rust-1.0-1.fc30"];
    let b = || UpdateBuilder::from_builds(&builds, "notes");
    assert_eq!(invalid(&b()), None);
    assert_eq!(invalid(&b().stable_karma(0)), Some(ValidationError::StableKarmaNotPositive));
    assert_eq!(invalid(&b().stable_karma(-3)), Some(ValidationError::StableKarmaNotPositive));
    assert_eq!(invalid(&b().stable_karma(1)), None);
    assert_eq!(invalid(&b().unstable_karma(0)), Some(ValidationError::UnstableKarmaNotNegative));
    assert_eq!(invalid(&b().unstable_karma(2)), Some(ValidationError::UnstableKarmaNotNegative));
    assert_eq!(invalid(&b().unstable_karma(-1)), None);
    assert_eq!(
        invalid(&b().update_type(UpdateType::Security)),
        Some(ValidationError::SecuritySeverityMissing)
    );
    assert_eq!(
        invalid(&b().update_type(UpdateType::Security).severity(UpdateSeverity::Unspecified)),
        Some(ValidationError::SecuritySeverityMissing)
    );
    assert_eq!(invalid(&b().update_type(UpdateType::Security).severity(UpdateSeverity::High)), None);
    assert_eq!(invalid(&b().update_type(UpdateType::BugFix)), None);
    assert_eq!(
        ValidationError::StableKarmaNotPositive.message(),
        "Stable karma must be positive."
    );
}

#[test]
fn submission_carries_settings() {
    let builds = ["elementary-theme-5.4.0-1.fc30", "granite-5.3.0-1.fc30"];
    let b = UpdateBuilder::from_builds(&builds, "Update to version 5.4.0.")
        .bugs(1234)
        .bugs(7)
        .stable_karma(3)
        .unstable_karma(-3)
        .autokarma(true)
        .display_name(String::from("elementary"))
        .suggest(UpdateSuggestion::Logout)
        .stable_days(7);
    let s = b.submission(String::from("token-1"));
    assert_eq!(s.path, "/updates/");
    assert_eq!(s.data.builds, Some(strings(&builds)));
    assert_eq!(s.data.from_tag, None);
    assert_eq!(s.data.bugs, Some(strings(&["1234", "7"])));
    assert_eq!(s.data.update_type, UpdateType::Unspecified);
    assert_eq!(s.data.notes, "Update to version 5.4.0.");
    assert_eq!(s.data.stable_karma, Some(3));
    assert_eq!(s.data.unstable_karma, Some(-3));
    assert_eq!(s.data.autokarma, Some(true));
    assert_eq!(s.data.display_name, Some(String::from("elementary")));
    assert_eq!(s.data.suggest, Some(UpdateSuggestion::Logout));
    assert_eq!(s.data.stable_days, Some(7));
    assert_eq!(s.data.severity, None);
    assert_eq!(s.data.edited, None);
    assert_eq!(s.data.csrf_token, "token-1");

    let t = UpdateBuilder::from_tag("f30-build-side-1234", "side tag")
        .update_type(UpdateType::Enhancement)
        .submission(String::from("token-2"));
    assert_eq!(t.data.builds, None);
    assert_eq!(t.data.from_tag, Some(String::from("f30-build-side-1234")));
    assert_eq!(t.data.bugs, None);
    assert_eq!(t.data.update_type, UpdateType::Enhancement);
}

#[test]
fn finish_create_reads_reply() {
    let created = finish_create(Reply::Success(Ok(NewUpdate { update: String::from("FEDORA-1"), caveats: Vec::new() })));
    assert_eq!(created.unwrap().update, "FEDORA-1");
    let refused = finish_create::<String>(Reply::Failure { status: 400, report: Ok(rejection()) });
    assert!(matches!(refused, Err(QueryError::BodhiError { .. })));
    let garbled = finish_create::<String>(Reply::Success(Err(String::from("truncated"))));
    assert_eq!(failure_reasons(&garbled.unwrap_err()), vec![String::from("malformed: truncated")]);
}
