use aws_s3_archive::locator::{parse_lines, S3Object};
use aws_s3_archive::report::failure_line;
use aws_s3_archive::retry::{
    after_failure, classify, ErrorClass, RemoteErrorKind, RetryStep, MAX_ATTEMPTS,
    RETRY_WAIT_SECONDS,
};
use aws_s3_archive::sync::{
    select_mode, Action, ConfigError, Event, FailReason, Mode, Outcome, Stage, SyncMachine,
};

fn strings(v: &[&str]) -> Vec<String> {
    v.iter().map(|s| s.to_string()).collect()
}

#[test]
fn parses_locator_with_key_path() {
    let o = S3Object::from("s3://my-bucket/docs/report.pdf").unwrap();
    assert_eq!(o.input, "s3://my-bucket/docs/report.pdf");
    assert_eq!(o.bucket, "my-bucket");
    assert_eq!(o.key_path, strings(&["docs"]));
    assert_eq!(o.file_name, "report.pdf");
}

#[test]
fn parses_locator_without_key_path() {
    let o = S3Object::from("s3://bucket/file.txt").unwrap();
    assert_eq!(o.bucket, "bucket");
    assert!(o.key_path.is_empty());
    assert_eq!(o.file_name, "file.txt");
}

#[test]
fn parses_deep_key_path() {
    let o = S3Object::from("s3://b/a/bb/ccc/f.bin").unwrap();
    assert_eq!(o.key_path, strings(&["a", "bb", "ccc"]));
    assert_eq!(o.file_name, "f.bin");
}

#[test]
fn rejects_short_lines() {
    for line in ["", "s3", "s3://", "abcde"] {
        let e = S3Object::from(line).err().unwrap();
        assert_eq!(e, format!("Invalid line: {}", line));
    }
}

#[test]
fn rejects_other_schemes() {
    let e = S3Object::from("http://bucket/file").err().unwrap();
    assert_eq!(e, "Invalid line: http://bucket/file");
    assert!(S3Object::from("s3:/bucket/file").is_err());
    assert!(S3Object::from("S3://bucket/file").is_err());
}

#[test]
fn rejects_incomplete_locators() {
    assert!(S3Object::from("s3://bucket").is_err());
    assert!(S3Object::from("s3://bucket/dir/").is_err());
    assert!(S3Object::from("s3:///file").is_err());
}

#[test]
fn keeps_empty_key_path_segments() {
    let o = S3Object::from("s3://b/x//f").unwrap();
    assert_eq!(o.bucket, "b");
    assert_eq!(o.key_path, strings(&["x", ""]));
    assert_eq!(o.file_name, "f");
    assert_eq!(o.local_file("/backup"), "/backup/b/x/f");
    let o = S3Object::from("s3://b//x/f").unwrap();
    assert_eq!(o.key_path, strings(&["", "x"]));
    assert_eq!(o.local_file("/backup"), "/backup/b/x/f");
    assert!(o.local_file("/backup").starts_with("/backup"));
}

#[test]
fn resolves_paths_under_empty_root() {
    let o = S3Object::from("s3://b/p/q/f").unwrap();
    assert_eq!(o.local_dir(""), "b/p/q");
    assert_eq!(o.local_file(""), "b/p/q/f");
    assert_eq!(o.key(), "p/q/f");
}

#[test]
fn distinct_lines_get_distinct_local_files() {
    let lines = ["s3://a/b/c", "s3://a/bc", "s3://ab/c", "s3://a/b/c/d"];
    let mut files: Vec<String> = lines
        .iter()
        .map(|l| S3Object::from(l).unwrap().local_file("/backup/"))
        .collect();
    assert_eq!(files[0], "/backup/a/b/c");
    files.sort();
    files.dedup();
    assert_eq!(files.len(), lines.len());
}

#[test]
fn rejected_lines_do_not_affect_others() {
    let lines = strings(&["s3://a/x/1.txt", "bad", "ftp://b/2.txt", "s3://c/3.txt"]);
    let (locators, diagnostics) = parse_lines(&lines);
    let inputs: Vec<&str> = locators.iter().map(|o| o.input.as_str()).collect();
    assert_eq!(inputs, vec!["s3://a/x/1.txt", "s3://c/3.txt"]);
    assert_eq!(
        diagnostics,
        strings(&["Invalid line: bad", "Invalid line: ftp://b/2.txt"])
    );
}

#[test]
fn resolves_example_paths() {
    let o = S3Object::from("s3://my-bucket/docs/report.pdf").unwrap();
    assert_eq!(o.key(), "docs/report.pdf");
    assert_eq!(o.local_dir("/backup"), "/backup/my-bucket/docs");
    assert_eq!(o.local_file("/backup"), "/backup/my-bucket/docs/report.pdf");
}

#[test]
fn resolves_paths_of_single_segment_key_path() {
    let o = S3Object::from("s3://b/p/f").unwrap();
    assert_eq!(o.local_file("R"), "R/b/p/f");
    assert_eq!(o.key(), "p/f");
}

#[test]
fn resolves_paths_without_key_path() {
    let o = S3Object::from("s3://bucket/file.txt").unwrap();
    assert_eq!(o.key(), "file.txt");
    assert_eq!(o.local_dir("/backup"), "/backup/bucket");
    assert_eq!(o.local_file("/backup"), "/backup/bucket/file.txt");
}

#[test]
fn resolves_paths_under_root_with_trailing_separator() {
    let o = S3Object::from("s3://my-bucket/docs/a/report.pdf").unwrap();
    assert_eq!(o.key(), "docs/a/report.pdf");
    assert_eq!(o.local_file("/backup/"), "/backup/my-bucket/docs/a/report.pdf");
}

#[test]
fn classifies_remote_errors() {
    assert_eq!(classify(RemoteErrorKind::Dispatch), ErrorClass::Transient);
    assert_eq!(classify(RemoteErrorKind::Unknown), ErrorClass::Transient);
    assert_eq!(classify(RemoteErrorKind::Service), ErrorClass::Permanent);
}

#[test]
fn retry_policy_steps() {
    let again = RetryStep::Again { delay_secs: 3 };
    assert_eq!(after_failure(1, ErrorClass::Transient), again);
    assert_eq!(after_failure(2, ErrorClass::Transient), again);
    assert_eq!(after_failure(3, ErrorClass::Transient), RetryStep::GiveUp);
    assert_eq!(after_failure(1, ErrorClass::Permanent), RetryStep::GiveUp);
}

#[test]
fn transient_failures_use_all_attempts() {
    let mut attempts = 1u32;
    let mut waits = Vec::new();
    loop {
        match after_failure(attempts, ErrorClass::Transient) {
            RetryStep::Again { delay_secs } => {
                waits.push(delay_secs);
                attempts += 1;
            }
            RetryStep::GiveUp => break,
        }
    }
    assert_eq!(attempts, MAX_ATTEMPTS);
    assert_eq!(attempts, 3);
    assert_eq!(waits, vec![RETRY_WAIT_SECONDS; 2]);
    assert_eq!(RETRY_WAIT_SECONDS, 3);
}

#[test]
fn selects_modes() {
    assert_eq!(select_mode(false, false), Ok(Mode::Download));
    assert_eq!(select_mode(true, false), Ok(Mode::VerifyOnly));
    assert_eq!(select_mode(false, true), Ok(Mode::DeleteAfterVerify));
    assert_eq!(select_mode(true, true), Err(ConfigError::ConflictingModes));
    assert_eq!(
        ConfigError::ConflictingModes.message(),
        "Cannot provide verify-only and delete flags together"
    );
}

fn run(mode: Mode, events: Vec<Event>) -> Vec<Action> {
    let mut m = SyncMachine::new(mode);
    events.into_iter().map(|e| m.step(e)).collect()
}

fn remote(kind: RemoteErrorKind) -> Event {
    Event::ProbeFailed { kind, detail: "boom".to_string() }
}

#[test]
fn missing_file_is_downloaded() {
    let actions = run(
        Mode::Download,
        vec![
            Event::Begin,
            Event::DirReady,
            Event::LocalAbsent,
            Event::Fetched { content_length: 1024, written: 1024 },
        ],
    );
    assert_eq!(
        actions,
        vec![
            Action::CreateDir,
            Action::CheckLocal,
            Action::Fetch { delay_secs: 0 },
            Action::Finish(Outcome::Synced),
        ]
    );
}

#[test]
fn verify_only_reports_size_mismatch() {
    let actions = run(
        Mode::VerifyOnly,
        vec![
            Event::Begin,
            Event::DirReady,
            Event::LocalPresent { len: 500 },
            Event::Probed { content_length: 1024 },
        ],
    );
    assert_eq!(
        actions,
        vec![
            Action::CreateDir,
            Action::CheckLocal,
            Action::Probe { delay_secs: 0 },
            Action::Finish(Outcome::Failed(FailReason::LocalMismatch)),
        ]
    );
    assert_eq!(
        failure_line("s3://my-bucket/docs/report.pdf", &FailReason::LocalMismatch),
        "ERROR s3://my-bucket/docs/report.pdf: local file does not match remote"
    );
}

#[test]
fn verify_only_reports_missing_file() {
    let actions = run(Mode::VerifyOnly, vec![Event::Begin, Event::DirReady, Event::LocalAbsent]);
    assert_eq!(actions[2], Action::Finish(Outcome::Failed(FailReason::MissingLocally)));
    assert_eq!(FailReason::MissingLocally.message(), "missing locally");
}

#[test]
fn stale_copy_is_downloaded_again() {
    let actions = run(
        Mode::Download,
        vec![
            Event::Begin,
            Event::DirReady,
            Event::LocalPresent { len: 500 },
            Event::Probed { content_length: 1024 },
            Event::Fetched { content_length: 1024, written: 1000 },
        ],
    );
    assert_eq!(actions[3], Action::Fetch { delay_secs: 0 });
    assert_eq!(actions[4], Action::Finish(Outcome::Failed(FailReason::SizeMismatch)));
    assert_eq!(FailReason::SizeMismatch.message(), "file sizes do not match");
}

#[test]
fn verified_copy_twice_fetches_nothing() {
    for _ in 0..2 {
        let actions = run(
            Mode::Download,
            vec![
                Event::Begin,
                Event::DirReady,
                Event::LocalPresent { len: 77 },
                Event::Probed { content_length: 77 },
            ],
        );
        assert!(!actions.iter().any(|a| matches!(a, Action::Fetch { .. })));
        assert_eq!(actions[3], Action::Finish(Outcome::Synced));
    }
}

#[test]
fn delete_follows_verification() {
    let actions = run(
        Mode::DeleteAfterVerify,
        vec![
            Event::Begin,
            Event::DirReady,
            Event::LocalPresent { len: 9 },
            Event::Probed { content_length: 9 },
            Event::Deleted,
        ],
    );
    assert_eq!(actions[3], Action::Delete { delay_secs: 0 });
    assert_eq!(actions[4], Action::Finish(Outcome::Synced));
}

#[test]
fn delete_follows_download() {
    let actions = run(
        Mode::DeleteAfterVerify,
        vec![
            Event::Begin,
            Event::DirReady,
            Event::LocalAbsent,
            Event::Fetched { content_length: 4, written: 4 },
            Event::DeleteFailed { kind: RemoteErrorKind::Service, detail: "denied".to_string() },
        ],
    );
    assert_eq!(actions[3], Action::Delete { delay_secs: 0 });
    assert_eq!(
        actions[4],
        Action::Finish(Outcome::Failed(FailReason::Remote("denied".to_string())))
    );
}

#[test]
fn failed_download_is_never_deleted() {
    let actions = run(
        Mode::DeleteAfterVerify,
        vec![
            Event::Begin,
            Event::DirReady,
            Event::LocalAbsent,
            Event::Fetched { content_length: 4, written: 3 },
        ],
    );
    assert!(!actions.iter().any(|a| matches!(a, Action::Delete { .. })));
    assert_eq!(actions[3], Action::Finish(Outcome::Failed(FailReason::SizeMismatch)));
}

#[test]
fn transient_probe_failures_are_retried_then_reported() {
    let actions = run(
        Mode::Download,
        vec![
            Event::Begin,
            Event::DirReady,
            Event::LocalPresent { len: 1 },
            remote(RemoteErrorKind::Dispatch),
            remote(RemoteErrorKind::Unknown),
            remote(RemoteErrorKind::Dispatch),
        ],
    );
    assert_eq!(actions[3], Action::Probe { delay_secs: 3 });
    assert_eq!(actions[4], Action::Probe { delay_secs: 3 });
    assert_eq!(
        actions[5],
        Action::Finish(Outcome::Failed(FailReason::Remote("boom".to_string())))
    );
}

#[test]
fn transient_probe_failure_then_success() {
    let actions = run(
        Mode::Download,
        vec![
            Event::Begin,
            Event::DirReady,
            Event::LocalPresent { len: 5 },
            remote(RemoteErrorKind::Dispatch),
            Event::Probed { content_length: 5 },
        ],
    );
    assert_eq!(actions[4], Action::Finish(Outcome::Synced));
}

#[test]
fn fetch_without_body_is_retried_then_reported() {
    let actions = run(
        Mode::Download,
        vec![
            Event::Begin,
            Event::DirReady,
            Event::LocalAbsent,
            Event::FetchWithoutBody,
            Event::FetchWithoutBody,
            Event::FetchWithoutBody,
        ],
    );
    assert_eq!(actions[3], Action::Fetch { delay_secs: 3 });
    assert_eq!(actions[4], Action::Fetch { delay_secs: 3 });
    assert_eq!(actions[5], Action::Finish(Outcome::Failed(FailReason::NoContent)));
}

#[test]
fn permanent_fetch_failure_is_not_retried() {
    let actions = run(
        Mode::Download,
        vec![
            Event::Begin,
            Event::DirReady,
            Event::LocalAbsent,
            Event::FetchFailed { kind: RemoteErrorKind::Service, detail: "NoSuchKey".to_string() },
        ],
    );
    assert_eq!(
        actions[3],
        Action::Finish(Outcome::Failed(FailReason::Remote("NoSuchKey".to_string())))
    );
}

#[test]
fn filesystem_failures_end_the_object() {
    let actions = run(Mode::Download, vec![Event::Begin, Event::DirFailed("denied".to_string())]);
    assert_eq!(
        actions[1],
        Action::Finish(Outcome::Failed(FailReason::CreateDir("denied".to_string())))
    );
    let actions = run(
        Mode::Download,
        vec![
            Event::Begin,
            Event::DirReady,
            Event::LocalAbsent,
            Event::WriteFailed("disk full".to_string()),
        ],
    );
    assert_eq!(
        actions[3],
        Action::Finish(Outcome::Failed(FailReason::Write("disk full".to_string())))
    );
}

#[test]
fn probe_without_length_fails() {
    let actions = run(
        Mode::Download,
        vec![Event::Begin, Event::DirReady, Event::LocalPresent { len: 3 }, Event::ProbeWithoutLength],
    );
    assert_eq!(actions[3], Action::Finish(Outcome::Failed(FailReason::NoLength)));
    assert_eq!(FailReason::NoLength.message(), "remote object reported no length");
}

#[test]
fn out_of_order_event_fails() {
    let mut m = SyncMachine::new(Mode::Download);
    assert_eq!(m.step(Event::Deleted), Action::Finish(Outcome::Failed(FailReason::OutOfOrder)));
    assert_eq!(m.stage, Stage::Finished);
}

#[test]
fn one_permanent_probe_failure_among_many() {
    let n = 5;
    let mut ok = 0;
    let mut failed = Vec::new();
    for i in 0..n {
        let mut events = vec![Event::Begin, Event::DirReady, Event::LocalPresent { len: 10 }];
        if i == 2 {
            events.push(remote(RemoteErrorKind::Service));
        } else {
            events.push(Event::Probed { content_length: 10 });
        }
        let actions = run(Mode::Download, events);
        match actions.last().unwrap() {
            Action::Finish(Outcome::Synced) => ok += 1,
            Action::Finish(Outcome::Failed(r)) => failed.push((i, r.clone())),
            a => panic!("unexpected action {:?}", a),
        }
    }
    assert_eq!(ok, n - 1);
    assert_eq!(failed, vec![(2, FailReason::Remote("boom".to_string()))]);
}

#[test]
fn formats_failure_lines() {
    assert_eq!(
        failure_line("s3://b/f", &FailReason::Remote("timeout".to_string())),
        "ERROR s3://b/f: timeout"
    );
    assert_eq!(
        failure_line("s3://b/f", &FailReason::NoContent),
        "ERROR s3://b/f: Could not retrieve the object's content"
    );
}
