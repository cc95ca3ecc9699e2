use sidecar_runner::errors::TaskError;
use sidecar_runner::event::aggregate;
use sidecar_runner::event::Aggregator;
use sidecar_runner::event::StreamEvent;
use sidecar_runner::launch::calculate_cot_metrics_plan;
use sidecar_runner::launch::calculate_seasonality_plan;
use sidecar_runner::launch::fetch_cot_data_plan;
use sidecar_runner::launch::fetch_data_plan;
use sidecar_runner::launch::resolve_worker;
use sidecar_runner::launch::worker_registered;
use sidecar_runner::task::complete_cot;
use sidecar_runner::task::complete_seasonality;
use sidecar_runner::task::LaunchOutcome;

fn out(bytes: &[u8]) -> StreamEvent {
    StreamEvent::Stdout(bytes.to_vec())
}

fn err(bytes: &[u8]) -> StreamEvent {
    StreamEvent::Stderr(bytes.to_vec())
}

fn done() -> StreamEvent {
    StreamEvent::Terminated(Some(0))
}

#[test]
fn successful_run_returns_decoded_document() {
    let events = vec![
        out(b"{\"success\":true,\"rows_added\":12,\"last_date\":\"2024-01-05\"}"),
        done(),
    ];
    let r = complete_seasonality(&LaunchOutcome::Completed(events)).unwrap();
    assert!(r.success);
    assert_eq!(r.rows_added, Some(12));
    assert_eq!(r.last_date, Some("2024-01-05".to_string()));
    assert_eq!(r.message, None);
    assert!(r.avg_2yr.is_none());
    assert!(r.avg_5yr.is_none());
    assert!(r.avg_6yr.is_none());
    assert!(r.avg_10yr.is_none());
    assert!(r.actual.is_none());
    assert_eq!(r.target_year, None);
}

#[test]
fn partial_garbage_reports_stdout_length() {
    let events = vec![out(b"{\"success\":"), StreamEvent::Terminated(None)];
    let r = complete_seasonality(&LaunchOutcome::Completed(events));
    match r {
        Err(TaskError::DecodeFailed { stdout_len, .. }) => {
            assert_eq!(stdout_len, b"{\"success\":".len());
        }
        _ => panic!("expected DecodeFailed"),
    }
}

#[test]
fn empty_stdout_fails_and_reports_stderr_verbatim() {
    let events = vec![err(b"first line\n"), err(b"second line"), done()];
    let r = complete_seasonality(&LaunchOutcome::Completed(events));
    match r {
        Err(TaskError::DecodeFailed { stdout_len, stderr, .. }) => {
            assert_eq!(stdout_len, 0);
            assert_eq!(stderr, "first line\nsecond line");
        }
        _ => panic!("expected DecodeFailed"),
    }
}

#[test]
fn stdout_order_survives_stderr_interleaving() {
    let events = vec![
        out(b"{\"succ"),
        err(b"warning: slow fetch\n"),
        out(b"ess\":"),
        err(b"warning: retrying upstream\n"),
        out(b"true}"),
        done(),
    ];
    let agg = aggregate(&events);
    assert_eq!(agg.stdout, b"{\"success\":true}".to_vec());
    assert_eq!(agg.stderr, b"warning: slow fetch\nwarning: retrying upstream\n".to_vec());
    let r = complete_seasonality(&LaunchOutcome::Completed(events)).unwrap();
    assert!(r.success);
}

#[test]
fn unknown_worker_is_not_found() {
    assert!(worker_registered("seasonality"));
    assert!(worker_registered("cot_data"));
    assert!(!worker_registered("imaginary"));
    match resolve_worker("imaginary") {
        Err(TaskError::WorkerNotFound { name }) => assert_eq!(name, "imaginary"),
        _ => panic!("expected WorkerNotFound"),
    }
    assert!(resolve_worker("seasonality").is_ok());
}

#[test]
fn fetch_plan_names_worker_and_arguments() {
    let p = fetch_data_plan("GC=F", "/data/gold.json");
    assert_eq!(p.command.name, "seasonality");
    assert_eq!(
        p.command.args,
        vec!["fetch", "--symbol", "GC=F", "--file", "/data/gold.json"]
    );
    assert_eq!(p.ensure_parent_of, Some("/data/gold.json".to_string()));
}

#[test]
fn calculate_plan_renders_year_and_needs_no_directory() {
    let p = calculate_seasonality_plan("/data/gold.json", 2024);
    assert_eq!(p.command.name, "seasonality");
    assert_eq!(
        p.command.args,
        vec!["calculate", "--file", "/data/gold.json", "--year", "2024"]
    );
    assert_eq!(p.ensure_parent_of, None);
}

#[test]
fn cot_plans_name_their_worker() {
    let f = fetch_cot_data_plan("GC", "/data/cot.json");
    assert_eq!(f.command.name, "cot_data");
    assert_eq!(f.command.args, vec!["fetch", "--symbol", "GC", "--file", "/data/cot.json"]);
    assert_eq!(f.ensure_parent_of, Some("/data/cot.json".to_string()));
    let c = calculate_cot_metrics_plan("/data/cot.json", 5);
    assert_eq!(c.command.name, "cot_data");
    assert_eq!(c.command.args, vec!["calculate", "--file", "/data/cot.json", "--years", "5"]);
    assert_eq!(c.ensure_parent_of, None);
}

#[test]
fn identical_fetch_plans_request_the_same_directory() {
    let first = fetch_data_plan("SI=F", "/fresh/dir/silver.json");
    let second = fetch_data_plan("SI=F", "/fresh/dir/silver.json");
    assert_eq!(first.ensure_parent_of, second.ensure_parent_of);
    assert_eq!(first.command.args, second.command.args);
}

#[test]
fn interleaved_aggregations_do_not_interfere() {
    let events_a = vec![out(b"{\"success\":true,"), out(b"\"rows_added\":1}"), done()];
    let events_b = vec![
        out(b"{\"success\":false,\"message\":\"empty upstream\"}"),
        err(b"no rows"),
        done(),
    ];
    // Drive two aggregators in lock step, as two concurrent calls would.
    let mut a = Aggregator::new();
    let mut b = Aggregator::new();
    let mut ia = events_a.iter();
    let mut ib = events_b.iter();
    loop {
        let na = ia.next();
        let nb = ib.next();
        if let Some(e) = na {
            a.absorb(e);
        }
        if let Some(e) = nb {
            b.absorb(e);
        }
        if na.is_none() && nb.is_none() {
            break;
        }
    }
    let solo_a = aggregate(&events_a);
    let solo_b = aggregate(&events_b);
    let got_a = a.into_output();
    let got_b = b.into_output();
    assert_eq!(got_a.stdout, solo_a.stdout);
    assert_eq!(got_b.stdout, solo_b.stdout);
    assert_eq!(got_b.stderr, solo_b.stderr);
    let ra = complete_seasonality(&LaunchOutcome::Completed(events_a)).unwrap();
    let rb = complete_seasonality(&LaunchOutcome::Completed(events_b)).unwrap();
    assert!(ra.success);
    assert_eq!(ra.rows_added, Some(1));
    assert!(!rb.success);
    assert_eq!(rb.message, Some("empty upstream".to_string()));
}

#[test]
fn full_seasonality_document_round_trips() {
    let doc = "{\"success\":true,\"message\":\"ok\",\"rows_added\":3,\"last_date\":\"2023-12-29\",\"avg_2yr\":[1.5,null,2],\"avg_5yr\":null,\"actual\":[-0.25],\"target_year\":2024}";
    let events = vec![out(doc.as_bytes()), done()];
    let r = complete_seasonality(&LaunchOutcome::Completed(events)).unwrap();
    assert!(r.success);
    assert_eq!(r.message, Some("ok".to_string()));
    assert_eq!(r.rows_added, Some(3));
    assert_eq!(r.last_date, Some("2023-12-29".to_string()));
    let avg = r.avg_2yr.unwrap();
    assert_eq!(avg.len(), 3);
    assert_eq!(avg[0], Some(serde_json::Number::from_f64(1.5).unwrap()));
    assert_eq!(avg[1], None);
    assert_eq!(avg[2], Some(serde_json::Number::from(2u64)));
    assert!(r.avg_5yr.is_none());
    assert!(r.avg_6yr.is_none());
    assert!(r.avg_10yr.is_none());
    let actual = r.actual.unwrap();
    assert_eq!(actual, vec![Some(serde_json::Number::from_f64(-0.25).unwrap())]);
    assert_eq!(r.target_year, Some(2024));
}

#[test]
fn full_cot_document_decodes() {
    let doc = "{\"success\":true,\"rows_added\":2,\"last_date\":\"2024-02-06\",\"dates\":[\"2024-01-30\",\"2024-02-06\"],\"open_interest\":[500000,501250.5],\"noncomm_net\":[1200,null],\"comm_net\":[-1200,null],\"noncomm_long\":[10,20],\"noncomm_short\":[5,15],\"comm_long\":[7,8],\"comm_short\":[9,11],\"noncomm_net_change\":[null,300],\"comm_net_change\":[null,-300],\"oi_change\":[null,1250.5]}";
    let events = vec![out(doc.as_bytes()), done()];
    let r = complete_cot(&LaunchOutcome::Completed(events)).unwrap();
    assert!(r.success);
    assert_eq!(r.rows_added, Some(2));
    assert_eq!(
        r.dates,
        Some(vec!["2024-01-30".to_string(), "2024-02-06".to_string()])
    );
    let oi = r.open_interest.unwrap();
    assert_eq!(oi[0], Some(serde_json::Number::from(500000u64)));
    assert_eq!(oi[1], Some(serde_json::Number::from_f64(501250.5).unwrap()));
    let nn = r.noncomm_net.unwrap();
    assert_eq!(nn, vec![Some(serde_json::Number::from(1200u64)), None]);
    let cn = r.comm_net.unwrap();
    assert_eq!(cn[0], Some(serde_json::Number::from(-1200i64)));
    assert_eq!(r.message, None);
}

#[test]
fn mistyped_fields_fail_the_decode() {
    let cases: Vec<&[u8]> = vec![
        b"{\"rows_added\":1}",                      // success missing
        b"{\"success\":\"yes\"}",                   // success not a boolean
        b"{\"success\":null}",                      // success may not be null
        b"{\"success\":true,\"rows_added\":\"x\"}", // integer field holds a string
        b"{\"success\":true,\"rows_added\":2.5}",   // integer field holds a fraction
        b"{\"success\":true,\"rows_added\":3000000000}", // outside the i32 range
        b"{\"success\":true,\"last_date\":7}",      // string field holds a number
        b"{\"success\":true,\"avg_2yr\":[\"a\"]}",  // numeric sequence holds a string
        b"{\"success\":true,\"avg_2yr\":7}",        // sequence field holds a scalar
        b"[1,2,3]",                                 // not an object
    ];
    for doc in cases {
        let events = vec![out(doc), done()];
        let r = complete_seasonality(&LaunchOutcome::Completed(events));
        assert!(
            matches!(r, Err(TaskError::DecodeFailed { .. })),
            "expected DecodeFailed for {:?}",
            String::from_utf8_lossy(doc)
        );
    }
}

#[test]
fn null_date_entry_fails_the_cot_decode() {
    let events = vec![out(b"{\"success\":true,\"dates\":[\"2024-01-30\",null]}"), done()];
    let r = complete_cot(&LaunchOutcome::Completed(events));
    assert!(matches!(r, Err(TaskError::DecodeFailed { .. })));
}

#[test]
fn channel_error_keeps_partial_buffers() {
    let events = vec![
        out(b"{\"succ"),
        err(b"collector died"),
        StreamEvent::Error("channel closed early".to_string()),
        out(b"ess\":true}"),
    ];
    let r = complete_seasonality(&LaunchOutcome::Completed(events));
    match r {
        Err(TaskError::StreamError { cause, stderr }) => {
            assert_eq!(cause, "channel closed early");
            assert_eq!(stderr, "collector died");
        }
        _ => panic!("expected StreamError"),
    }
}

#[test]
fn events_after_termination_are_ignored() {
    let events = vec![out(b"{\"success\":true}"), done(), out(b"trailing junk")];
    let r = complete_seasonality(&LaunchOutcome::Completed(events)).unwrap();
    assert!(r.success);
}

#[test]
fn spawn_refusal_maps_to_spawn_failed() {
    let r = complete_seasonality(&LaunchOutcome::SpawnError("no such sidecar".to_string()));
    match r {
        Err(TaskError::SpawnFailed { cause }) => assert_eq!(cause, "no such sidecar"),
        _ => panic!("expected SpawnFailed"),
    }
}

#[test]
fn surrounding_whitespace_is_trimmed() {
    let events = vec![out(b"\n  \t{\"success\":true}  \r\n"), done()];
    let r = complete_seasonality(&LaunchOutcome::Completed(events)).unwrap();
    assert!(r.success);
}

#[test]
fn invalid_utf8_is_replaced_not_fatal() {
    let mut bytes = b"{\"success\":true,\"message\":\"".to_vec();
    bytes.push(0xff);
    bytes.extend_from_slice(b"\"}");
    let events = vec![StreamEvent::Stdout(bytes), done()];
    // The replacement character still yields a valid document here.
    let r = complete_seasonality(&LaunchOutcome::Completed(events)).unwrap();
    assert!(r.success);
    assert_eq!(r.message, Some("\u{fffd}".to_string()));
    // A replacement character outside a string breaks the parse instead.
    let mut broken = b"{\"success\":".to_vec();
    broken.push(0xfe);
    broken.extend_from_slice(b"}");
    let broken_len = broken.len();
    let events = vec![StreamEvent::Stdout(broken), done()];
    match complete_seasonality(&LaunchOutcome::Completed(events)) {
        Err(TaskError::DecodeFailed { stdout_len, .. }) => assert_eq!(stdout_len, broken_len),
        _ => panic!("expected DecodeFailed"),
    }
}

#[test]
fn error_messages_name_the_stage() {
    let e = TaskError::DecodeFailed {
        cause: "expected value".to_string(),
        stdout_len: 11,
        stderr: "S".to_string(),
    };
    assert_eq!(
        e.message(),
        "Failed to parse JSON: expected value (output length: 11, stderr: S)"
    );
    let e = TaskError::SpawnFailed { cause: "exec format error".to_string() };
    assert_eq!(e.message(), "Failed to spawn sidecar: exec format error");
    let e = TaskError::WorkerNotFound { name: "imaginary".to_string() };
    assert_eq!(
        e.message(),
        "Failed to create sidecar command: unknown worker imaginary"
    );
    let e = TaskError::StreamError {
        cause: "channel closed".to_string(),
        stderr: "diag".to_string(),
    };
    assert_eq!(e.message(), "Worker stream failed: channel closed (stderr: diag)");
}

#[test]
fn negative_year_renders_with_sign() {
    let p = calculate_seasonality_plan("/d/f.json", -7);
    assert_eq!(p.command.args[4], "-7");
    let p = calculate_seasonality_plan("/d/f.json", 0);
    assert_eq!(p.command.args[4], "0");
    let p = calculate_cot_metrics_plan("/d/f.json", i32::MIN);
    assert_eq!(p.command.args[4], "-2147483648");
}
