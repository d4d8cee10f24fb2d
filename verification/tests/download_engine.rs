use stools::commands::download::{Action, Handler, Params, Phase, Run, RunPhase, Worker};
use stools::commands::list::{Asset, Release};
use stools::commands::Target;

fn asset(name: &str, url: &str) -> Asset {
    Asset {
        browser_download_url: url.to_string(),
        name: name.to_string(),
        content_type: "application/octet-stream".to_string(),
        size: 0,
        updated_at: 0,
    }
}

fn release(tag: &str, assets: Vec<Asset>) -> Release {
    Release {
        tag_name: tag.to_string(),
        assets,
    }
}

/// Drives one worker through a successful download, handing it the given
/// chunks and honouring every requested action; returns the bytes the worker
/// asked to have written, in order.
fn drive_to_completion(w: &mut Worker, mut chunks: Vec<Vec<u8>>, short_writes: bool) -> Vec<u8> {
    let mut written: Vec<u8> = Vec::new();
    chunks.reverse();
    loop {
        match w.next_action() {
            Action::OpenFile => w.on_file_opened(),
            Action::SendRequest => w.on_request_ok(),
            Action::PullChunk => match chunks.pop() {
                Some(c) => w.on_chunk(c),
                None => {
                    let r = w.on_body_end();
                    assert!(r.is_ok());
                    return written;
                }
            },
            Action::WriteChunk => {
                let off = w.write_offset();
                let pending: Vec<u8> = w.pending_chunk()[off..].to_vec();
                let n = if short_writes && pending.len() > 1 {
                    1
                } else {
                    pending.len()
                };
                written.extend_from_slice(&pending[..n]);
                w.on_wrote(n);
            }
            Action::Finish => panic!("worker finished before the body ended"),
        }
    }
}

#[test]
fn worker_writes_the_stream_in_order() {
    let mut w = Worker::new(asset("app.zip", "u"), &"out".to_string());
    assert_eq!(w.current_phase(), Phase::Created);
    let written = drive_to_completion(&mut w, vec![vec![1, 2, 3], vec![4, 5]], false);
    assert_eq!(w.current_phase(), Phase::Completed);
    assert_eq!(written, vec![1, 2, 3, 4, 5]);
}

#[test]
fn worker_short_write_retries_the_same_chunk() {
    let mut w = Worker::new(asset("app.zip", "u"), &"out".to_string());
    let written = drive_to_completion(&mut w, vec![vec![9, 8, 7, 6], vec![5]], true);
    assert_eq!(written, vec![9, 8, 7, 6, 5]);
    assert_eq!(w.current_phase(), Phase::Completed);
}

#[test]
fn worker_empty_body_completes_with_empty_file() {
    let mut w = Worker::new(asset("a", "u"), &"out".to_string());
    let written = drive_to_completion(&mut w, vec![], false);
    assert!(written.is_empty());
    assert_eq!(w.current_phase(), Phase::Completed);
}

#[test]
fn worker_destination_joins_output_and_name() {
    let w = Worker::new(asset("app.zip", "u"), &"./stools".to_string());
    assert_eq!(w.dest, "./stools/app.zip");
}

#[test]
fn worker_request_failure_is_terminal() {
    let mut w = Worker::new(asset("a", "u"), &"out".to_string());
    w.on_file_opened();
    let r = w.on_request_failed("connection refused".to_string());
    assert!(matches!(
        r,
        Err(stools::commands::download::Error::Request(ref d)) if d == "connection refused"
    ));
    assert_eq!(w.current_phase(), Phase::Failed);
    assert_eq!(w.next_action(), Action::Finish);
}

#[test]
fn worker_file_open_failure_is_terminal() {
    let mut w = Worker::new(asset("a", "u"), &"out".to_string());
    let r = w.on_file_open_failed("permission denied".to_string());
    assert!(matches!(
        r,
        Err(stools::commands::download::Error::File(ref d)) if d == "permission denied"
    ));
    assert_eq!(w.current_phase(), Phase::Failed);
}

#[test]
fn worker_write_failure_is_terminal() {
    let mut w = Worker::new(asset("a", "u"), &"out".to_string());
    w.on_file_opened();
    w.on_request_ok();
    w.on_chunk(vec![1, 2]);
    let r = w.on_write_failed("disk full".to_string());
    assert!(matches!(
        r,
        Err(stools::commands::download::Error::File(ref d)) if d == "disk full"
    ));
    assert_eq!(w.current_phase(), Phase::Failed);
}

#[test]
fn worker_read_failure_is_terminal() {
    let mut w = Worker::new(asset("a", "u"), &"out".to_string());
    w.on_file_opened();
    w.on_request_ok();
    let r = w.on_read_failed("reset by peer".to_string());
    assert!(matches!(
        r,
        Err(stools::commands::download::Error::Request(ref d)) if d == "reset by peer"
    ));
    assert_eq!(w.current_phase(), Phase::Failed);
}

#[test]
fn handler_reports_in_dispatch_order_whatever_finishes_first() {
    let out = "out".to_string();
    let w0 = Worker::new(asset("a", "u"), &out);
    let w1 = Worker::new(asset("b", "u"), &out);
    let w2 = Worker::new(asset("c", "u"), &out);
    let mut h = Handler::new();
    h.add_worker(&w0);
    h.add_worker(&w1);
    h.add_worker(&w2);
    // Outcomes arrive in a different order than the workers were dispatched.
    h.record(2, Ok((w2, Ok(()))));
    h.record(0, Ok((w0, Ok(()))));
    h.record(1, Ok((w1, Ok(()))));
    let report = h.join();
    assert_eq!(report.len(), 3);
    let names: Vec<&str> = report
        .iter()
        .map(|o| o.as_ref().unwrap().0.asset.name.as_str())
        .collect();
    assert_eq!(names, vec!["a", "b", "c"]);
}

#[test]
fn handler_sibling_failure_leaves_other_outcomes_alone() {
    let out = "out".to_string();
    let mut h = Handler::new();
    let mut workers = Vec::new();
    for name in ["a", "b", "c"] {
        let w = Worker::new(asset(name, "u"), &out);
        h.add_worker(&w);
        workers.push(w);
    }
    let mut i: usize = 0;
    for mut w in workers {
        if i == 1 {
            w.on_file_opened();
            let r = w.on_request_failed("boom".to_string());
            h.record(i, Ok((w, r)));
        } else {
            drive_to_completion(&mut w, vec![vec![0]], false);
            h.record(i, Ok((w, Ok(()))));
        }
        i += 1;
    }
    let report = h.join();
    assert_eq!(report.len(), 3);
    assert!(report[0].as_ref().unwrap().1.is_ok());
    assert!(report[1].as_ref().unwrap().1.is_err());
    assert!(report[2].as_ref().unwrap().1.is_ok());
}

#[test]
fn handler_crash_is_distinct_from_download_error() {
    let out = "out".to_string();
    let w0 = Worker::new(asset("a", "u"), &out);
    let w1 = Worker::new(asset("b", "u"), &out);
    let mut h = Handler::new();
    h.add_worker(&w0);
    h.add_worker(&w1);
    h.record(0, Ok((w0, Ok(()))));
    h.record(
        1,
        Err(stools::commands::download::WorkerCrash {
            detail: "task aborted".to_string(),
        }),
    );
    let report = h.join();
    assert!(report[0].is_ok());
    assert!(matches!(report[1], Err(ref c) if c.detail == "task aborted"));
}

#[test]
fn run_defaults_to_the_newest_release() {
    let params = Params {
        target: Target::Backend,
        tag: None,
        output: "out".to_string(),
    };
    let mut m = Run::new(params);
    let r = m.on_releases(vec![
        release("v2.0.0", vec![asset("new", "u")]),
        release("v1.0.0", vec![asset("old", "u")]),
    ]);
    assert!(r.is_ok());
    m.on_dir_ready();
    let ws = m.dispatch_all();
    assert_eq!(ws.len(), 1);
    assert_eq!(ws[0].asset.name, "new");
}

#[test]
fn run_selects_the_release_by_tag() {
    let params = Params {
        target: Target::Backend,
        tag: Some("v1.0.0".to_string()),
        output: "out".to_string(),
    };
    let mut m = Run::new(params);
    let r = m.on_releases(vec![
        release("v2.0.0", vec![asset("new", "u")]),
        release("v1.0.0", vec![asset("old", "u")]),
    ]);
    assert!(r.is_ok());
    m.on_dir_ready();
    let ws = m.dispatch_all();
    assert_eq!(ws.len(), 1);
    assert_eq!(ws[0].asset.name, "old");
}

#[test]
fn run_unknown_tag_stops_before_any_download() {
    let params = Params {
        target: Target::Backend,
        tag: Some("v9.9.9".to_string()),
        output: "out".to_string(),
    };
    let mut m = Run::new(params);
    let r = m.on_releases(vec![release("v2.0.0", vec![asset("new", "u")])]);
    assert!(matches!(
        r,
        Err(stools::commands::download::Error::TagNotFound(ref t)) if t == "v9.9.9"
    ));
    assert_eq!(m.current_phase(), RunPhase::Stopped);
    assert_eq!(m.dispatched_count(), 0);
}

#[test]
fn run_prepares_the_directory_before_any_worker() {
    let params = Params {
        target: Target::Backend,
        tag: None,
        output: "out".to_string(),
    };
    let mut m = Run::new(params);
    let r = m.on_releases(vec![release("v1", vec![asset("a", "u"), asset("b", "u")])]);
    assert!(r.is_ok());
    // Until the directory step completes, no worker is available.
    assert_eq!(m.current_phase(), RunPhase::PreparingDir);
    assert_eq!(m.dispatched_count(), 0);
    assert!(!m.has_next_worker());
    m.on_dir_ready();
    assert!(m.has_next_worker());
}

#[test]
fn run_dispatches_one_worker_per_asset_in_order() {
    let params = Params {
        target: Target::Backend,
        tag: None,
        output: "./stools".to_string(),
    };
    let mut m = Run::new(params);
    let r = m.on_releases(vec![release(
        "v1",
        vec![asset("a", "u1"), asset("b", "u2"), asset("c", "u3")],
    )]);
    assert!(r.is_ok());
    m.on_dir_ready();
    let ws = m.dispatch_all();
    assert_eq!(ws.len(), 3);
    let names: Vec<&str> = ws.iter().map(|w| w.asset.name.as_str()).collect();
    assert_eq!(names, vec!["a", "b", "c"]);
    assert_eq!(ws[1].dest, "./stools/b");
    assert!(!m.has_next_worker());
}

#[test]
fn run_listing_failure_stops_the_run() {
    let params = Params {
        target: Target::Backend,
        tag: None,
        output: "out".to_string(),
    };
    let mut m = Run::new(params);
    let e = m.on_releases_failed(stools::commands::list::Error::Request("timeout".to_string()));
    assert!(matches!(
        e,
        stools::commands::download::Error::Request(ref d) if d == "timeout"
    ));
    assert_eq!(m.current_phase(), RunPhase::Stopped);
    assert_eq!(m.dispatched_count(), 0);
}

#[test]
fn run_directory_failure_stops_the_run() {
    let params = Params {
        target: Target::Backend,
        tag: None,
        output: "out".to_string(),
    };
    let mut m = Run::new(params);
    let r = m.on_releases(vec![release("v1", vec![asset("a", "u")])]);
    assert!(r.is_ok());
    let e = m.on_dir_failed("read-only file system".to_string());
    assert!(matches!(
        e,
        stools::commands::download::Error::File(ref d) if d == "read-only file system"
    ));
    assert_eq!(m.current_phase(), RunPhase::Stopped);
    assert_eq!(m.dispatched_count(), 0);
}

#[test]
fn one_good_and_one_failing_asset_yield_two_independent_outcomes() {
    let params = Params {
        target: Target::Backend,
        tag: Some("v1.2.0".to_string()),
        output: "out".to_string(),
    };
    let mut m = Run::new(params);
    let r = m.on_releases(vec![release(
        "v1.2.0",
        vec![asset("app.zip", "u1"), asset("checksums.txt", "u2")],
    )]);
    assert!(r.is_ok());
    m.on_dir_ready();
    let mut ws = m.dispatch_all();
    let mut h = Handler::new();
    for w in ws.iter() {
        h.add_worker(w);
    }
    let mut failing = ws.pop().unwrap();
    let mut good = ws.pop().unwrap();

    let written = drive_to_completion(&mut good, vec![b"full content".to_vec()], false);
    assert_eq!(written, b"full content".to_vec());
    h.record(0, Ok((good, Ok(()))));

    failing.on_file_opened();
    let rf = failing.on_request_failed("network error".to_string());
    h.record(1, Ok((failing, rf)));

    let report = h.join();
    assert_eq!(report.len(), 2);
    let (w0, r0) = report[0].as_ref().unwrap();
    assert_eq!(w0.asset.name, "app.zip");
    assert!(r0.is_ok());
    let (w1, r1) = report[1].as_ref().unwrap();
    assert_eq!(w1.asset.name, "checksums.txt");
    assert!(matches!(
        r1,
        Err(stools::commands::download::Error::Request(ref d)) if d == "network error"
    ));
}

#[test]
fn releases_endpoint_names_each_target_repository() {
    assert_eq!(
        Target::Ethernet.releases_endpoint(),
        "https://api.github.com/repos/HyperloopUPV-H8/ev-frontend/releases"
    );
    assert_eq!(
        Target::Control.releases_endpoint(),
        "https://api.github.com/repos/HyperloopUPV-H8/cs-frontend/releases"
    );
    assert_eq!(
        Target::Backend.releases_endpoint(),
        "https://api.github.com/repos/HyperloopUPV-H8/h8-backend/releases"
    );
}
