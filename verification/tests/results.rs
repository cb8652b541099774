//! Result records and the point query over version and compiler.

use std::cmp::Ordering;
use vmatrix::{ResultInfo, ResultList, ResultType};

fn record(num: &str, fail: &[&str], pass: &[&str]) -> ResultInfo {
    ResultInfo::new(
        "demo".to_string(),
        num.to_string(),
        fail.iter().map(|s| s.to_string()).collect(),
        pass.iter().map(|s| s.to_string()).collect(),
    )
}

#[test]
fn round_trip_point_query() {
    let list = ResultList::new(vec![record("1.0.0", &[], &["1.50.0"])]);
    assert_eq!(list.rustc_result("1.0.0", "1.50.0"), ResultType::Pass);
    assert_eq!(list.rustc_result("1.0.0", "1.60.0"), ResultType::Unknown);
    assert_eq!(list.rustc_result("9.9.9", "1.50.0"), ResultType::Unknown);
    assert_eq!(list.rustc_result("9.9.9", "1.60.0"), ResultType::Unknown);
}

#[test]
fn fail_takes_precedence_over_pass() {
    let info = record("1.0.0", &["1.50.0"], &["1.50.0", "1.60.0"]);
    assert_eq!(info.rustc_result("1.50.0"), ResultType::Fail);
    assert_eq!(info.rustc_result("1.60.0"), ResultType::Pass);
    assert_eq!(info.rustc_result("1.70.0"), ResultType::Unknown);
}

#[test]
fn lookup_searches_a_sorted_list() {
    let list = ResultList::new(vec![
        record("0.9.0", &["1.40.0"], &[]),
        record("1.0.0", &[], &["1.50.0"]),
        record("1.1.0", &[], &["1.60.0"]),
        record("2.0.0", &["1.50.0"], &["1.60.0"]),
    ]);
    assert_eq!(list.rustc_result("0.9.0", "1.40.0"), ResultType::Fail);
    assert_eq!(list.rustc_result("1.0.0", "1.50.0"), ResultType::Pass);
    assert_eq!(list.rustc_result("1.1.0", "1.60.0"), ResultType::Pass);
    assert_eq!(list.rustc_result("2.0.0", "1.50.0"), ResultType::Fail);
    assert_eq!(list.rustc_result("1.0.5", "1.50.0"), ResultType::Unknown);
    assert_eq!(list.len(), 4);
    assert_eq!(list.get(1).version(), "1.0.0");
}

#[test]
fn version_cmp_orders_by_code_points() {
    let info = record("1.0.0", &[], &[]);
    assert_eq!(info.version_cmp("1.0.0"), Ordering::Equal);
    assert_eq!(info.version_cmp("1.0.1"), Ordering::Less);
    assert_eq!(info.version_cmp("0.9.9"), Ordering::Greater);
}

#[test]
fn empty_list_knows_nothing() {
    let list = ResultList::new(Vec::new());
    assert_eq!(list.rustc_result("1.0.0", "1.50.0"), ResultType::Unknown);
}

#[test]
fn cloned_lists_answer_alike() {
    let list = ResultList::new(vec![record("1.0.0", &[], &["1.50.0"])]);
    let copy = list.clone();
    assert_eq!(copy.rustc_result("1.0.0", "1.50.0"), ResultType::Pass);
    assert_eq!(copy.len(), list.len());
}
