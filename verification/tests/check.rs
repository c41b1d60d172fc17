use chrono::prelude::{SecondsFormat, Utc};
use s3mon::check::{check, check_at, encode, evaluate, CheckResult};
use s3mon::config::Object;
use s3mon::s3::{Listing, StorageError, StorageObject};

fn file(age: i64, size: i64) -> Object {
    Object {
        prefix: "E".to_string(),
        age,
        size,
    }
}

fn example_object(last_modified: String) -> StorageObject {
    StorageObject {
        key: "ExampleObject.txt".to_string(),
        last_modified,
        size: Some(857),
    }
}

fn run(file: Object, answer: Result<Vec<StorageObject>, StorageError>) -> String {
    let listing = Listing::begin("cubeta".to_string(), file.prefix.clone(), file.age);
    check_at("cubeta".to_string(), file, answer, listing.asked_at)
}

#[test]
fn check_object() {
    let last_modified = Utc::now().to_rfc3339_opts(SecondsFormat::Millis, true);
    let answer = Ok(vec![example_object(last_modified)]);
    assert_eq!(
        run(file(30, 0), answer),
        "cubeta,prefix=E error=0i,exist=1i,size_mismatch=0i",
    );
}

#[test]
fn check_object_size_mismatch() {
    let last_modified = Utc::now().to_rfc3339_opts(SecondsFormat::Millis, true);
    let answer = Ok(vec![example_object(last_modified)]);
    assert_eq!(
        run(file(30, 1024), answer),
        "cubeta,prefix=E error=0i,exist=1i,size_mismatch=1i",
    );
}

#[test]
fn check_object_age_expired() {
    let answer = Ok(vec![example_object("2019-10-14T08:52:23.231Z".to_string())]);
    assert_eq!(
        run(file(30, 1024), answer),
        "cubeta,prefix=E error=0i,exist=0i,size_mismatch=0i",
    );
}

#[test]
fn check_object_no_bucket() {
    let answer = Err(StorageError {
        message: "404: The specified bucket does not exist".to_string(),
    });
    assert_eq!(
        run(file(30, 512), answer),
        "cubeta,prefix=E error=1i,exist=0i,size_mismatch=0i",
    );
}

#[test]
fn check_two_fresh_objects_one_undersized() {
    let last_modified = Utc::now().to_rfc3339_opts(SecondsFormat::Millis, true);
    let large = StorageObject {
        key: "ExampleArchive.tar".to_string(),
        last_modified: last_modified.clone(),
        size: Some(4096),
    };
    let answer = Ok(vec![large, example_object(last_modified)]);
    assert_eq!(
        run(file(30, 1024), answer),
        "cubeta,prefix=E error=0i,exist=1i,size_mismatch=1i",
    );
}

#[test]
fn check_empty_listing() {
    assert_eq!(
        run(file(30, 1024), Ok(vec![])),
        "cubeta,prefix=E error=0i,exist=0i,size_mismatch=0i",
    );
}

#[test]
fn check_failure_hides_nothing_behind_defaults() {
    let failed = Err(StorageError {
        message: "connection refused".to_string(),
    });
    let result = CheckResult::from_answer("cubeta".to_string(), &file(30, 0), &failed);
    assert_eq!(
        result,
        CheckResult {
            bucket: "cubeta".to_string(),
            prefix: "E".to_string(),
            exists: false,
            size_mismatch: false,
            query_failed: true,
        }
    );
}

#[test]
fn check_result_from_listing() {
    let fresh = Ok(vec![example_object("whenever".to_string())]);
    let result = CheckResult::from_answer("cubeta".to_string(), &file(30, 858), &fresh);
    assert_eq!(
        result,
        CheckResult {
            bucket: "cubeta".to_string(),
            prefix: "E".to_string(),
            exists: true,
            size_mismatch: true,
            query_failed: false,
        }
    );
}

#[test]
fn evaluate_compares_strictly() {
    let objects = vec![example_object("whenever".to_string())];
    assert_eq!(evaluate(&objects, 857), (true, false));
    assert_eq!(evaluate(&objects, 858), (true, true));
    assert_eq!(evaluate(&objects, 856), (true, false));
}

#[test]
fn evaluate_without_minimum_never_mismatches() {
    let tiny = StorageObject {
        key: "empty".to_string(),
        last_modified: String::new(),
        size: Some(0),
    };
    let negative = StorageObject {
        key: "odd".to_string(),
        last_modified: String::new(),
        size: Some(-5),
    };
    assert_eq!(evaluate(&vec![tiny.clone(), negative.clone()], 0), (true, false));
    assert_eq!(evaluate(&vec![tiny, negative], -1), (true, false));
}

#[test]
fn evaluate_empty_listing() {
    assert_eq!(evaluate(&vec![], 0), (false, false));
    assert_eq!(evaluate(&vec![], 1024), (false, false));
    assert_eq!(evaluate(&vec![], i64::MAX), (false, false));
}

#[test]
fn evaluate_skips_unknown_sizes() {
    let unknown = StorageObject {
        key: "k".to_string(),
        last_modified: String::new(),
        size: None,
    };
    assert_eq!(evaluate(&vec![unknown.clone()], 1024), (true, false));
    let small = StorageObject {
        key: "s".to_string(),
        last_modified: String::new(),
        size: Some(1),
    };
    assert_eq!(evaluate(&vec![unknown.clone(), small, unknown], 1024), (true, true));
}

#[test]
fn evaluate_any_undersized_wherever_it_stands() {
    let sized = |size: i64| StorageObject {
        key: "k".to_string(),
        last_modified: String::new(),
        size: Some(size),
    };
    assert_eq!(evaluate(&vec![sized(10), sized(2000), sized(3000)], 1024), (true, true));
    assert_eq!(evaluate(&vec![sized(2000), sized(3000), sized(10)], 1024), (true, true));
    assert_eq!(evaluate(&vec![sized(2000), sized(1024), sized(3000)], 1024), (true, false));
}

fn result(exists: bool, size_mismatch: bool, query_failed: bool) -> CheckResult {
    CheckResult {
        bucket: "backups".to_string(),
        prefix: "daily/".to_string(),
        exists,
        size_mismatch,
        query_failed,
    }
}

#[test]
fn encode_every_flag_combination() {
    assert_eq!(
        encode(&result(false, false, false)),
        "backups,prefix=daily/ error=0i,exist=0i,size_mismatch=0i"
    );
    assert_eq!(
        encode(&result(true, false, false)),
        "backups,prefix=daily/ error=0i,exist=1i,size_mismatch=0i"
    );
    assert_eq!(
        encode(&result(true, true, false)),
        "backups,prefix=daily/ error=0i,exist=1i,size_mismatch=1i"
    );
    assert_eq!(
        encode(&result(false, false, true)),
        "backups,prefix=daily/ error=1i,exist=0i,size_mismatch=0i"
    );
    assert_eq!(
        encode(&result(false, true, true)),
        "backups,prefix=daily/ error=1i,exist=0i,size_mismatch=1i"
    );
    assert_eq!(
        encode(&result(true, true, true)),
        "backups,prefix=daily/ error=1i,exist=1i,size_mismatch=1i"
    );
}

#[test]
fn encode_escapes_nothing() {
    let odd = CheckResult {
        bucket: "my bucket,x=1".to_string(),
        prefix: "a b=c,\"d\"\\".to_string(),
        exists: true,
        size_mismatch: false,
        query_failed: false,
    };
    assert_eq!(
        encode(&odd),
        "my bucket,x=1,prefix=a b=c,\"d\"\\ error=0i,exist=1i,size_mismatch=0i"
    );
}

#[test]
fn encode_empty_names() {
    let bare = CheckResult {
        bucket: String::new(),
        prefix: String::new(),
        exists: false,
        size_mismatch: false,
        query_failed: false,
    };
    assert_eq!(encode(&bare), ",prefix= error=0i,exist=0i,size_mismatch=0i");
}

#[test]
fn check_line_is_the_encoded_result() {
    let fresh = vec![example_object("whenever".to_string())];
    let expected = CheckResult::from_answer("cubeta".to_string(), &file(30, 0), &Ok(fresh.clone()));
    let line = check("cubeta".to_string(), file(30, 0), Ok(fresh));
    assert_eq!(line, encode(&expected));
    assert_eq!(line, "cubeta,prefix=E error=0i,exist=1i,size_mismatch=0i");
}

#[test]
fn check_judges_what_it_is_given() {
    // The time of the object is no date: `check` takes its answer as fresh.
    let given = Ok(vec![example_object("whenever".to_string())]);
    assert_eq!(
        check("cubeta".to_string(), file(30, 1024), given),
        "cubeta,prefix=E error=0i,exist=1i,size_mismatch=1i",
    );
}

// 2019-10-14T08:52:23Z
const MODIFIED_AT: i64 = 1571043143;

#[test]
fn check_at_filters_by_the_checks_own_window() {
    let listing = || {
        Ok(vec![
            example_object("2019-10-14T08:52:23.231Z".to_string()),
            example_object("not a date".to_string()),
        ])
    };
    assert_eq!(
        check_at("cubeta".to_string(), file(30, 1024), listing(), MODIFIED_AT + 29),
        "cubeta,prefix=E error=0i,exist=1i,size_mismatch=1i",
    );
    assert_eq!(
        check_at("cubeta".to_string(), file(30, 1024), listing(), MODIFIED_AT + 30),
        "cubeta,prefix=E error=0i,exist=0i,size_mismatch=0i",
    );
    assert_eq!(
        check_at("cubeta".to_string(), file(31, 0), listing(), MODIFIED_AT + 30),
        "cubeta,prefix=E error=0i,exist=1i,size_mismatch=0i",
    );
}

#[test]
fn check_at_agrees_with_filter_then_check() {
    let found = vec![
        example_object("2019-10-14T08:52:23Z".to_string()),
        example_object("2019-10-14T08:51:00Z".to_string()),
    ];
    let listing = Listing {
        bucket: "cubeta".to_string(),
        prefix: "E".to_string(),
        max_age: 30,
        asked_at: MODIFIED_AT + 10,
    };
    let fresh = listing.objects(Ok(found.clone()));
    assert_eq!(
        check_at("cubeta".to_string(), file(30, 900), Ok(found), MODIFIED_AT + 10),
        check("cubeta".to_string(), file(30, 900), fresh),
    );
}

#[test]
fn check_at_reports_a_failure_whatever_the_time() {
    let failure = || {
        Err(StorageError {
            message: "The specified bucket does not exist".to_string(),
        })
    };
    assert_eq!(
        check_at("cubeta".to_string(), file(30, 512), failure(), 0),
        "cubeta,prefix=E error=1i,exist=0i,size_mismatch=0i",
    );
    assert_eq!(
        check_at("cubeta".to_string(), file(30, 512), failure(), i64::MAX),
        "cubeta,prefix=E error=1i,exist=0i,size_mismatch=0i",
    );
}
