use zeckit_up::devnet::{Action, Devnet, RunError, Step};
use zeckit_up::report::{connection_report, ConnectionReport};
use zeckit_up::topology::{Backend, Service};

struct Outcome {
    calls: Vec<String>,
    report: Option<ConnectionReport>,
    finish_message: Option<String>,
    result: Result<(), RunError>,
}

/// Drives a run against collaborators that all succeed but for `fail`.
fn drive(backend_id: &str, fresh: bool, fail: Option<Step>) -> Outcome {
    let mut dev = Devnet::new(backend_id, fresh);
    let mut calls = Vec::new();
    let mut report = None;
    let mut finish_message = None;
    loop {
        let step = dev.current_step();
        let action = dev.next_action();
        match action {
            Action::Reset => calls.push("reset".to_string()),
            Action::Start { services } => {
                let names: Vec<&str> = services.iter().map(|s| s.compose_name()).collect();
                calls.push(format!("start {}", names.join(",")));
            }
            Action::WaitNode { message } => calls.push(format!("wait node: {}", message)),
            Action::WaitFaucet { message } => calls.push(format!("wait faucet: {}", message)),
            Action::WaitBackend { backend_id, message } => {
                calls.push(format!("wait backend {}: {}", backend_id, message))
            }
            Action::Finish { message, report: r } => {
                finish_message = Some(message);
                report = Some(r);
            }
            Action::Abort(e) => {
                return Outcome { calls, report, finish_message, result: Err(e) };
            }
            Action::Done => {
                return Outcome { calls, report, finish_message, result: Ok(()) };
            }
        }
        dev.advance(step != fail);
    }
}

fn labels(r: &ConnectionReport) -> Vec<&str> {
    r.endpoints.iter().map(|e| e.label.as_str()).collect()
}

#[test]
fn lwd_run_reports_wallet_server() {
    let o = drive("lwd", false, None);
    assert_eq!(o.result, Ok(()));
    assert_eq!(
        o.calls,
        vec![
            "start zebra,faucet,lightwalletd",
            "wait node: Waiting for Zebra...",
            "wait faucet: Waiting for Faucet...",
            "wait backend lwd: Waiting for lwd...",
        ]
    );
    assert_eq!(o.finish_message.as_deref(), Some("All services ready!"));
    let r = o.report.unwrap();
    assert_eq!(labels(&r), vec!["Zebra RPC:", "Faucet API:", "LightwalletD:"]);
    let urls: Vec<&str> = r.endpoints.iter().map(|e| e.url.as_str()).collect();
    assert_eq!(urls, vec!["http://127.0.0.1:8232", "http://127.0.0.1:8080", "http://127.0.0.1:9067"]);
    assert!(r.endpoints.iter().all(|e| !e.experimental));
}

#[test]
fn zaino_run_marks_backend_experimental() {
    let o = drive("zaino", false, None);
    assert_eq!(o.result, Ok(()));
    assert_eq!(o.calls[0], "start zebra,faucet,zaino");
    assert_eq!(o.calls[3], "wait backend zaino: Waiting for zaino...");
    let r = o.report.unwrap();
    assert_eq!(labels(&r), vec!["Zebra RPC:", "Faucet API:", "Zaino:"]);
    assert!(r.endpoints[2].experimental);
    assert!(!r.endpoints[0].experimental && !r.endpoints[1].experimental);
}

#[test]
fn fresh_run_without_backend_resets_first() {
    let o = drive("none", true, None);
    assert_eq!(o.result, Ok(()));
    assert_eq!(
        o.calls,
        vec![
            "reset",
            "start zebra,faucet",
            "wait node: Waiting for Zebra...",
            "wait faucet: Waiting for Faucet...",
        ]
    );
    let r = o.report.unwrap();
    assert_eq!(labels(&r), vec!["Zebra RPC:", "Faucet API:"]);
}

#[test]
fn faucet_failure_stops_the_run() {
    let o = drive("lwd", false, Some(Step::WaitFaucet));
    assert_eq!(o.result, Err(RunError::ReadinessFailure(Service::Faucet)));
    assert_eq!(
        o.calls,
        vec![
            "start zebra,faucet,lightwalletd",
            "wait node: Waiting for Zebra...",
            "wait faucet: Waiting for Faucet...",
        ]
    );
    assert!(o.report.is_none());
    assert!(o.finish_message.is_none());
}

#[test]
fn node_failure_skips_later_waits() {
    let o = drive("zaino", true, Some(Step::WaitNode));
    assert_eq!(o.result, Err(RunError::ReadinessFailure(Service::Node)));
    assert_eq!(o.calls, vec!["reset", "start zebra,faucet,zaino", "wait node: Waiting for Zebra..."]);
    assert!(o.report.is_none());
}

#[test]
fn reset_failure_starts_nothing() {
    let o = drive("lwd", true, Some(Step::Reset));
    assert_eq!(o.result, Err(RunError::ResetFailure));
    assert_eq!(o.calls, vec!["reset"]);
    assert!(o.report.is_none());
}

#[test]
fn start_failure_waits_on_nothing() {
    let o = drive("none", false, Some(Step::Start));
    assert_eq!(o.result, Err(RunError::StartFailure));
    assert_eq!(o.calls, vec!["start zebra,faucet"]);
    assert!(o.report.is_none());
}

#[test]
fn backend_failure_names_the_backend() {
    let o = drive("lwd", false, Some(Step::WaitBackend));
    assert_eq!(o.result, Err(RunError::ReadinessFailure(Service::WalletServer)));
    let o = drive("zaino", false, Some(Step::WaitBackend));
    assert_eq!(o.result, Err(RunError::ReadinessFailure(Service::WalletIndexer)));
    assert!(o.report.is_none());
}

#[test]
fn run_without_fresh_never_resets() {
    for id in ["lwd", "zaino", "none", "other"] {
        let o = drive(id, false, None);
        assert!(o.calls.iter().all(|c| c != "reset"));
    }
}

#[test]
fn unknown_backend_skips_backend_wait() {
    let o = drive("other", false, None);
    assert_eq!(o.result, Ok(()));
    assert!(o.calls.iter().all(|c| !c.starts_with("wait backend")));
    assert_eq!(o.report.unwrap().endpoints.len(), 2);
}

#[test]
fn aborted_run_keeps_aborting() {
    let mut dev = Devnet::new("lwd", false);
    dev.advance(true);
    dev.advance(false);
    assert_eq!(dev.current_step(), None);
    for _ in 0..3 {
        assert!(matches!(dev.next_action(), Action::Abort(RunError::ReadinessFailure(Service::Node))));
    }
}

#[test]
fn report_hints_are_fixed() {
    for b in [Backend::NoBackend, Backend::WalletServer, Backend::ZainoIndexer] {
        let r = connection_report(b);
        assert_eq!(
            r.hints,
            vec![
                "Test faucet: curl http://127.0.0.1:8080/stats",
                "Run tests: zecdev test",
                "Check status: zecdev status",
            ]
        );
    }
}
