use attune::api::error::{ErrorResponse, StatusCode};
use attune::cli::apt::pkg::add::{
    add_change, package_file_checksum, repository_check, upload_decision, CmdAptPkgAdd,
    PackageChangeAction, RepositoryCheck, UploadDecision,
};
use attune::cli::paths::{
    distribution_path, distribution_sync_path, package_path, repository_index_path, repository_path,
};
use attune::cli::{authorization_header, retry_delay_default, retry_step, RetryStep, STATIC_RETRY_DELAY_MS};
use attune::client::cmd::dist::{
    create_distribution_request, created_message, delete_warning, deleted_message,
    edit_distribution_request, list_output as dist_list_output, resynced_message, updated_message,
    CreateArgs, DistMetadata, DistributionInfo, EditMetadata,
};
use attune::client::cmd::pkg::{
    add_failure_message, index_change_retryable, list_output as pkg_list_output, remove_change,
    PackageListing, PkgRemoveCommand,
};
use attune::client::cmd::reply::{command_step, reply_result, request_failed, url_failed, CommandStep};
use attune::client::cmd::repo::{
    created_message as repo_created_message, delete_warning as repo_delete_warning,
    list_output as repo_list_output, renamed_message, RepositoryInfo,
};
use attune::client::http::{
    read_reply, should_retry_reqwest_error, should_retry_response, RequestFailure,
    ResponseDropBody, ResponseDropStatus, ResponseRequiresBody, DEFAULT_ATTEMPTS,
};
use attune::client::retry::{calculate_retry_delay, is_retryable_code, should_retry};
use attune::client::signing::{select_signing_key, KeyChoiceError};

fn error(code: &str, message: &str) -> ErrorResponse {
    ErrorResponse::new(StatusCode(409), code, message)
}

#[test]
fn retryable_responses() {
    assert!(should_retry_response(StatusCode(500)));
    assert!(should_retry_response(StatusCode(503)));
    assert!(should_retry_response(StatusCode(408)));
    assert!(should_retry_response(StatusCode(429)));
    assert!(!should_retry_response(StatusCode(200)));
    assert!(!should_retry_response(StatusCode(404)));
    assert!(!should_retry_response(StatusCode(409)));
    assert_eq!(DEFAULT_ATTEMPTS, 3);
}

#[test]
fn retryable_request_failures() {
    let none = RequestFailure { is_timeout: false, is_connect: false, is_request: false, status: None };
    assert!(!should_retry_reqwest_error(&none));
    assert!(should_retry_reqwest_error(&RequestFailure { is_timeout: true, ..none }));
    assert!(should_retry_reqwest_error(&RequestFailure { is_connect: true, ..none }));
    assert!(should_retry_reqwest_error(&RequestFailure { is_request: true, ..none }));
    assert!(should_retry_reqwest_error(&RequestFailure { status: Some(StatusCode(502)), ..none }));
    assert!(!should_retry_reqwest_error(&RequestFailure { status: Some(StatusCode(400)), ..none }));
}

#[test]
fn retry_delays_stay_in_range() {
    for attempt in 0..50 {
        let d = retry_delay_default(attempt);
        assert!(STATIC_RETRY_DELAY_MS <= d && d < 2 * STATIC_RETRY_DELAY_MS);
        let c = calculate_retry_delay();
        assert!(2000 <= c && c < 4000);
    }
}

#[test]
fn retry_steps() {
    match retry_step::<u8, &str>(4, Ok(1), true) {
        RetryStep::Finish(Ok(1)) => {}
        other => panic!("{other:?}"),
    }
    match retry_step::<u8, &str>(4, Err("x"), true) {
        RetryStep::Wait { attempt: 4, next_attempt: 5 } => {}
        other => panic!("{other:?}"),
    }
    match retry_step::<u8, &str>(4, Err("x"), false) {
        RetryStep::Finish(Err("x")) => {}
        other => panic!("{other:?}"),
    }
}

#[test]
fn retryable_error_codes() {
    assert!(is_retryable_code("CONCURRENT_INDEX_CHANGE"));
    assert!(is_retryable_code("DETACHED_SIGNATURE_VERIFICATION_FAILED"));
    assert!(!is_retryable_code("ALREADY_EXISTS"));
    assert!(should_retry(&error("CONCURRENT_INDEX_CHANGE", "m")));
    assert!(!should_retry(&error("DATABASE_ERROR", "m")));
    assert!(index_change_retryable(Some(&error("DETACHED_SIGNATURE_VERIFICATION_FAILED", "m"))));
    assert!(!index_change_retryable(Some(&error("NOPE", "m"))));
    assert!(!index_change_retryable(None));
}

#[test]
fn request_paths() {
    assert_eq!(authorization_header("tok"), "Bearer tok");
    assert_eq!(repository_path("my repo"), "/api/v0/repositories/my%20repo");
    assert_eq!(repository_index_path("r/1"), "/api/v0/repositories/r%2F1/index");
    assert_eq!(distribution_path("r", None), "/api/v0/repositories/r/distributions");
    assert_eq!(distribution_path("r", Some("stable?")), "/api/v0/repositories/r/distributions/stable%3F");
    assert_eq!(distribution_sync_path("r", "d"), "/api/v0/repositories/r/distributions/d/sync");
    assert_eq!(package_path("abc"), "/api/v0/packages/abc");
}

#[test]
fn package_changes() {
    let cmd = CmdAptPkgAdd {
        repo: String::from("r"),
        distribution: String::from("d"),
        component: String::from("c"),
        key_id: String::from("k"),
        package_file: String::from("f.deb"),
    };
    let change = add_change(&cmd, "sum");
    assert_eq!((change.repository.as_str(), change.distribution.as_str(), change.component.as_str()), ("r", "d", "c"));
    match change.action {
        PackageChangeAction::Add { package_sha256sum } => assert_eq!(package_sha256sum, "sum"),
        other => panic!("{other:?}"),
    }
    let remove = remove_change(&PkgRemoveCommand {
        repo: String::from("r"),
        distribution: String::from("d"),
        component: String::from("c"),
        key_id: String::from("k"),
        package: String::from("p"),
        version: String::from("1"),
        architecture: String::from("amd64"),
    });
    match remove.action {
        PackageChangeAction::Remove { name, version, architecture } => {
            assert_eq!((name.as_str(), version.as_str(), architecture.as_str()), ("p", "1", "amd64"))
        }
        other => panic!("{other:?}"),
    }
    assert_eq!(
        package_file_checksum(b"abc"),
        "ba7816bf8f01cfea414140de5dae2223b00361a396177a9cb410ff61f20015ad"
    );
}

#[test]
fn status_decisions() {
    assert_eq!(repository_check(StatusCode(200)), RepositoryCheck::Exists);
    assert_eq!(repository_check(StatusCode(404)), RepositoryCheck::Missing);
    assert_eq!(repository_check(StatusCode(500)), RepositoryCheck::Failed);
    assert_eq!(upload_decision(StatusCode(200)), UploadDecision::AlreadyUploaded);
    assert_eq!(upload_decision(StatusCode(404)), UploadDecision::Upload);
    assert_eq!(upload_decision(StatusCode(401)), UploadDecision::Failed);
}

#[test]
fn reading_replies() {
    let r = read_reply::<u8>(StatusCode(200), true, None, Some(1)).unwrap();
    assert_eq!(r, (None, StatusCode(200)));
    let e = read_reply::<u8>(StatusCode(409), false, Some(error("X", "m")), None).unwrap_err();
    assert_eq!(e.error, "X");
    let r = read_reply::<u8>(StatusCode(200), false, None, Some(7)).unwrap();
    assert_eq!(r, (Some(7), StatusCode(200)));
    let r = read_reply::<u8>(StatusCode(200), false, None, None).unwrap();
    assert_eq!(r, (None, StatusCode(200)));
}

#[test]
fn reply_extensions() {
    let ok: Result<(Option<u8>, StatusCode), ErrorResponse> = Ok((Some(3), StatusCode(200)));
    assert_eq!(ok.require_body().drop_status().unwrap(), 3);
    let ok: Result<(u8, StatusCode), ErrorResponse> = Ok((3, StatusCode(201)));
    assert_eq!(ok.drop_body().unwrap(), StatusCode(201));
    assert_eq!((Some(4u8), StatusCode(200)).require_body(), (4, StatusCode(200)));
    assert_eq!((4u8, StatusCode(200)).drop_body(), StatusCode(200));
    assert_eq!((4u8, StatusCode(200)).drop_status(), 4);
    let err: Result<(u8, StatusCode), ErrorResponse> = Err(error("E", "m"));
    assert_eq!(err.drop_status().unwrap_err().error, "E");
}

#[test]
fn reply_outcomes() {
    assert_eq!(reply_result(StatusCode(200), Ok(String::from("done")), Err(String::new())).unwrap(), "done");
    let e = reply_result(StatusCode(200), Err(String::from("bad json")), Err(String::new())).unwrap_err();
    assert_eq!((e.status, e.error.as_str(), e.message.as_str()), (StatusCode(500), "PARSE_ERROR", "Failed to parse response: bad json"));
    let e = reply_result(StatusCode(404), Ok(String::new()), Ok(error("NF", "gone"))).unwrap_err();
    assert_eq!(e.error, "NF");
    let e = reply_result(StatusCode(404), Ok(String::new()), Err(String::from("eof"))).unwrap_err();
    assert_eq!(e.message, "Failed to parse error response: eof");
    let e = request_failed("refused");
    assert_eq!((e.status, e.error.as_str(), e.message.as_str()), (StatusCode(500), "REQUEST_FAILED", "Failed to send request: refused"));
    let e = url_failed("bad");
    assert_eq!((e.error.as_str(), e.message.as_str()), ("URL_ERROR", "Failed to build URL: bad"));
}

#[test]
fn command_steps() {
    match command_step(Ok(String::from("ok")), "Failed") {
        CommandStep::Succeed(m) => assert_eq!(m, "ok"),
        other => panic!("{other:?}"),
    }
    assert!(matches!(command_step(Err(error("CONCURRENT_INDEX_CHANGE", "m")), "Failed"), CommandStep::Retry));
    match command_step(Err(error("OTHER", "boom")), "Failed to remove") {
        CommandStep::Fail(m) => assert_eq!(m, "Failed to remove: boom"),
        other => panic!("{other:?}"),
    }
}

#[test]
fn distribution_requests() {
    let args = CreateArgs {
        repo: String::from("r"),
        name: String::from("stable"),
        suite: None,
        codename: Some(String::from("bookworm")),
        metadata: DistMetadata {
            description: Some(String::from("d")),
            origin: None,
            label: Some(String::from("l")),
            version: None,
        },
    };
    let req = create_distribution_request(&args);
    assert_eq!((req.name.as_str(), req.suite.as_str(), req.codename.as_str()), ("stable", "stable", "bookworm"));
    assert_eq!(req.description, Some(String::from("d")));
    assert_eq!(req.label, Some(String::from("l")));
    assert_eq!(req.origin, None);
    let edit = edit_distribution_request(&EditMetadata {
        description: None,
        origin: None,
        label: None,
        version: None,
        suite: None,
        codename: None,
    });
    assert!(!edit.any_some());
    let edit = edit_distribution_request(&EditMetadata {
        description: None,
        origin: None,
        label: None,
        version: Some(String::from("2")),
        suite: None,
        codename: None,
    });
    assert!(edit.any_some());
    assert_eq!(edit.version, Some(String::from("2")));
}

#[test]
fn distribution_messages() {
    assert_eq!(created_message("st\"able"), "Distribution \"st\\\"able\" created successfully");
    assert_eq!(deleted_message("x"), "Distribution \"x\" deleted successfully");
    assert_eq!(resynced_message("x"), "Distribution \"x\" resynced!");
    assert_eq!(
        updated_message("x"),
        "Distribution \"x\" updated successfully\nNote: Changes will be reflected in repository indexes after the next sync."
    );
    assert_eq!(
        delete_warning("r", "d"),
        "Warning: This will irreversibly delete distribution \"d\" from repository \"r\" and all its components, package indexes, and package associations."
    );
    assert_eq!(dist_list_output("r", &vec![]), "No distributions found in repository \"r\"");
}

#[test]
fn distribution_table() {
    let out = dist_list_output(
        "r",
        &vec![DistributionInfo {
            distribution: String::from("stable"),
            suite: String::from("s"),
            codename: String::from("c"),
            description: None,
            origin: Some(String::from("o")),
            label: None,
            version: None,
        }],
    );
    assert!(out.contains("Name"));
    assert!(out.contains("Codename"));
    assert!(out.contains("stable"));
    assert!(out.contains("(unset)"));
    assert!(out.contains('│'));
}

#[test]
fn package_table_in_default_style() {
    let out = pkg_list_output(&vec![PackageListing {
        name: String::from("foo"),
        version: String::from("1.0"),
        architecture: String::from("amd64"),
        repository: String::from("r"),
        distribution: String::from("d"),
        component: String::from("main"),
    }]);
    assert_eq!(
        out,
        "+---------+---------+--------------+------------+--------------+-----------+\n| Package | Version | Architecture | Repository | Distribution | Component |\n+---------+---------+--------------+------------+--------------+-----------+\n| foo     | 1.0     | amd64        | r          | d            | main      |\n+---------+---------+--------------+------------+--------------+-----------+"
    );
}

#[test]
fn package_add_failures() {
    assert_eq!(
        add_failure_message("bad comp", &error("INVALID_COMPONENT_NAME", "invalid")),
        "Error: Invalid component name \"bad comp\": invalid\nComponent names must contain only letters, numbers, underscores, and hyphens."
    );
    assert_eq!(add_failure_message("c", &error("OTHER", "boom")), "Unable to add package to index: boom");
}

#[test]
fn repository_messages() {
    let info = RepositoryInfo {
        name: String::from("r"),
        s3_bucket: String::from("b"),
        s3_prefix: String::from("p"),
    };
    assert_eq!(repo_created_message(&info), "Repository \"r\" created in bucket \"b\" at prefix \"p\"");
    assert_eq!(renamed_message("a", "b"), "Repository name changed from \"a\" to \"b\"");
    assert_eq!(repo_delete_warning("r"), "Warning: this will irreversibly delete repository \"r\"");
    let table = repo_list_output(&vec![info]);
    assert!(table.contains("S3 bucket"));
    assert!(table.contains('│'));
}

#[test]
fn signing_key_choice() {
    assert_eq!(select_signing_key::<u8, &str>(true, vec![Ok(1), Ok(2)]).unwrap(), 1);
    assert!(matches!(select_signing_key::<u8, &str>(true, vec![]), Err(KeyChoiceError::NotFound)));
    assert!(matches!(select_signing_key::<u8, &str>(true, vec![Err("io")]), Err(KeyChoiceError::Lookup("io"))));
    assert_eq!(select_signing_key::<u8, &str>(false, vec![Ok(9)]).unwrap(), 9);
    assert!(matches!(select_signing_key::<u8, &str>(false, vec![Ok(1), Ok(2)]), Err(KeyChoiceError::Ambiguous)));
    assert!(matches!(select_signing_key::<u8, &str>(false, vec![]), Err(KeyChoiceError::Ambiguous)));
    assert!(matches!(select_signing_key::<u8, &str>(false, vec![Ok(1), Err("bad")]), Err(KeyChoiceError::Lookup("bad"))));
}
