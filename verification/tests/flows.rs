//! Tests of the get flow's fan-out planning and race settlement, and of the
//! provide flow's answering policy.

use file_sharing::events::Event;
use file_sharing::flows::{plan_fetch, provide_decision, race_result, GetError};

#[test]
fn empty_provider_set_fails_fast_without_requests() {
    let providers: Vec<u64> = vec![];
    let planned = plan_fetch(&providers, &"report.txt".to_string());
    assert_eq!(planned.err(), Some(GetError::NoProviderFound));
}

#[test]
fn fan_out_addresses_every_provider() {
    let providers: Vec<u64> = vec![3, 5, 8];
    let reqs = plan_fetch(&providers, &"report.txt".to_string()).expect("providers exist");
    assert_eq!(reqs.len(), 3);
    for (i, req) in reqs.iter().enumerate() {
        assert_eq!(req.peer, providers[i]);
        assert_eq!(req.file_name, "report.txt".to_string());
    }
}

#[test]
fn single_success_wins_regardless_of_failure_order() {
    // The one success arrives after two failures ...
    let late: Vec<Result<String, String>> = vec![
        Err("timed out".to_string()),
        Err("refused".to_string()),
        Ok("content".to_string()),
    ];
    assert_eq!(race_result(&late), Ok("content".to_string()));
    // ... or before any of them: the race returns it either way.
    let early: Vec<Result<String, String>> = vec![
        Ok("content".to_string()),
        Err("timed out".to_string()),
        Err("refused".to_string()),
    ];
    assert_eq!(race_result(&early), Ok("content".to_string()));
    let middle: Vec<Result<String, String>> = vec![
        Err("timed out".to_string()),
        Ok("content".to_string()),
        Err("refused".to_string()),
    ];
    assert_eq!(race_result(&middle), Ok("content".to_string()));
}

#[test]
fn first_of_several_successes_wins() {
    let outcomes: Vec<Result<String, String>> = vec![
        Err("refused".to_string()),
        Ok("first".to_string()),
        Ok("second".to_string()),
    ];
    assert_eq!(race_result(&outcomes), Ok("first".to_string()));
}

#[test]
fn all_failures_give_the_distinct_no_provider_outcome() {
    let outcomes: Vec<Result<String, String>> = vec![
        Err("timed out".to_string()),
        Err("refused".to_string()),
        Err("reset".to_string()),
    ];
    assert_eq!(race_result(&outcomes), Err(GetError::NoProviderReturnedFile));
}

#[test]
fn race_with_no_outcome_has_no_winner() {
    let outcomes: Vec<Result<String, String>> = vec![];
    assert_eq!(race_result(&outcomes), Err(GetError::NoProviderReturnedFile));
}

#[test]
fn provide_flow_answers_only_the_advertised_name() {
    let advertised = "report.txt".to_string();
    let matching = Event::InboundRequest { request: "report.txt".to_string(), channel: 5 };
    assert_eq!(provide_decision(&advertised, &matching), Some(5));
    let other = Event::InboundRequest { request: "other.txt".to_string(), channel: 6 };
    assert_eq!(provide_decision(&advertised, &other), None);
}
