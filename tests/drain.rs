use flipperzero_rt::drain::{DrainAction, DrainState, Drainer, POLL_INTERVAL_MS};
use flipperzero_rt::exit::{log_tag, LogLine, Shutdown};
use flipperzero_rt::thread::{
    is_service_name, Snapshot, ThreadDescriptor, ThreadHandle, MAX_THREADS,
};

const SELF_ID: usize = 1;

fn handle(id: usize) -> ThreadHandle {
    ThreadHandle { id }
}

fn thread(id: usize, tag: &str, name: &str) -> ThreadDescriptor {
    ThreadDescriptor::new(handle(id), tag.as_bytes().to_vec(), name.as_bytes().to_vec())
}

fn own() -> ThreadDescriptor {
    thread(SELF_ID, "myapp", "MyAppMain")
}

fn snapshot(threads: Vec<ThreadDescriptor>) -> Snapshot {
    let n = threads.len();
    Snapshot::new(threads, n)
}

struct Run {
    exit_code: i32,
    scans: usize,
    sleeps: usize,
}

/// Drives a shutdown through scripted registry passes; the last pass repeats.
fn run(exit_code: i32, passes: Vec<Vec<ThreadDescriptor>>) -> Run {
    let mut shutdown = Shutdown::begin(exit_code, handle(SELF_ID), b"myapp".to_vec());
    assert_eq!(shutdown.opening_line(), LogLine::Draining);
    let mut scans = 0;
    let mut sleeps = 0;
    let mut passes = passes.into_iter();
    let mut last: Vec<ThreadDescriptor> = Vec::new();
    loop {
        match shutdown.next_action() {
            DrainAction::Enumerate => {
                let pass = match passes.next() {
                    Some(p) => {
                        last = p.iter().map(|d| thread_copy(d)).collect();
                        p
                    }
                    None => last.iter().map(|d| thread_copy(d)).collect(),
                };
                scans += 1;
                shutdown.on_snapshot(&snapshot(pass));
            }
            DrainAction::Sleep { ms } => {
                assert_eq!(ms, POLL_INTERVAL_MS);
                sleeps += 1;
                shutdown.on_slept();
            }
            DrainAction::Finish => break,
        }
        assert!(scans < 1000, "drain did not end");
    }
    assert_eq!(shutdown.closing_line(), LogLine::Drained);
    Run { exit_code: shutdown.finish(), scans, sleeps }
}

fn thread_copy(d: &ThreadDescriptor) -> ThreadDescriptor {
    ThreadDescriptor::new(d.handle, d.app_tag.clone(), d.name.clone())
}

#[test]
fn no_live_threads_finishes_without_sleeping() {
    let r = run(0, vec![vec![]]);
    assert_eq!(r.scans, 1);
    assert_eq!(r.sleeps, 0);
}

#[test]
fn own_and_service_threads_are_excluded() {
    let r = run(0, vec![vec![own(), thread(2, "myapp", "OtherAppSrv")]]);
    assert_eq!(r.scans, 1);
    assert_eq!(r.sleeps, 0);
}

#[test]
fn worker_that_exits_costs_one_sleep() {
    let r = run(0, vec![vec![own(), thread(2, "myapp", "Worker")], vec![own()]]);
    assert_eq!(r.scans, 2);
    assert_eq!(r.sleeps, 1);
}

#[test]
fn truncated_snapshot_can_end_with_siblings_alive() {
    // Forty live threads: the caller, thirty-one of other applications, then
    // eight siblings that fall past the capacity of one enumeration.
    let mut listed = vec![own()];
    for id in 2..33 {
        listed.push(thread(id, "other", "Worker"));
    }
    for id in 33..41 {
        listed.push(thread(id, "myapp", "Worker"));
    }
    assert_eq!(listed.len(), 40);
    let snap = Snapshot::new(listed, 40);
    assert_eq!(snap.len(), MAX_THREADS);
    assert_eq!(snap.live_count(), 40);
    assert!(snap.is_truncated());
    assert_eq!(snap.hidden_count(), 8);
    let mut drainer = Drainer::new(handle(SELF_ID), b"myapp".to_vec());
    assert_eq!(drainer.find_sibling(&snap), None);
    assert_eq!(drainer.on_snapshot(&snap), DrainAction::Finish);
    assert_eq!(drainer.state(), DrainState::Done);
}

#[test]
fn full_snapshot_of_siblings_waits() {
    let mut listed = Vec::new();
    for id in 2..42 {
        listed.push(thread(id, "myapp", "Worker"));
    }
    let snap = Snapshot::new(listed, 40);
    assert_eq!(snap.len(), 32);
    assert_eq!(snap.hidden_count(), 8);
    let mut drainer = Drainer::new(handle(SELF_ID), b"myapp".to_vec());
    assert_eq!(drainer.find_sibling(&snap), Some(0));
    assert_eq!(drainer.on_snapshot(&snap), DrainAction::Sleep { ms: 10 });
}

#[test]
fn clear_snapshot_of_other_apps_finishes_at_once() {
    let r = run(
        3,
        vec![vec![own(), thread(2, "other", "Worker"), thread(3, "myapp", "GuiSrv")]],
    );
    assert_eq!((r.scans, r.sleeps, r.exit_code), (1, 0, 3));
}

#[test]
fn single_sibling_waits_until_gone() {
    let w = || thread(5, "myapp", "Worker");
    let r = run(
        0,
        vec![
            vec![own(), w()],
            vec![w(), own()],
            vec![own(), thread(6, "myapp", "Srv"), w()],
            vec![own(), thread(6, "myapp", "Srv")],
        ],
    );
    assert_eq!(r.scans, 4);
    assert_eq!(r.sleeps, 3);
}

#[test]
fn service_suffix_excludes_matching_tag() {
    let drainer = Drainer::new(handle(SELF_ID), b"gui".to_vec());
    assert!(!drainer.qualifies(&thread(2, "gui", "GuiSrv")));
    assert!(!drainer.qualifies(&thread(2, "gui", "Srv")));
    assert!(drainer.qualifies(&thread(2, "gui", "GuiSrvWorker")));
    assert!(drainer.qualifies(&thread(2, "gui", "Gui")));
    assert!(drainer.qualifies(&thread(2, "gui", "")));
    assert!(drainer.qualifies(&thread(2, "gui", "srv")));
}

#[test]
fn own_handle_excluded_even_when_qualifying() {
    let drainer = Drainer::new(handle(SELF_ID), b"myapp".to_vec());
    assert!(!drainer.qualifies(&thread(SELF_ID, "myapp", "Worker")));
    assert!(drainer.qualifies(&thread(SELF_ID + 1, "myapp", "Worker")));
    let r = run(0, vec![vec![thread(SELF_ID, "myapp", "Worker")]]);
    assert_eq!(r.sleeps, 0);
}

#[test]
fn tag_must_match_exactly() {
    let drainer = Drainer::new(handle(SELF_ID), b"myapp".to_vec());
    assert!(!drainer.qualifies(&thread(2, "myap", "Worker")));
    assert!(!drainer.qualifies(&thread(2, "myapp2", "Worker")));
    assert!(!drainer.qualifies(&thread(2, "Myapp", "Worker")));
    assert!(!drainer.qualifies(&thread(2, "", "Worker")));
}

#[test]
fn exit_code_passes_through_any_number_of_waits() {
    for (code, waits) in [(0, 0usize), (-1, 1), (i32::MAX, 3), (i32::MIN, 5), (42, 2)] {
        let mut passes = Vec::new();
        for _ in 0..waits {
            passes.push(vec![own(), thread(9, "myapp", "Worker")]);
        }
        passes.push(vec![own()]);
        let r = run(code, passes);
        assert_eq!(r.sleeps, waits);
        assert_eq!(r.exit_code, code);
    }
}

#[test]
fn find_sibling_reports_first_in_order() {
    let drainer = Drainer::new(handle(SELF_ID), b"myapp".to_vec());
    let snap = snapshot(vec![
        own(),
        thread(2, "other", "A"),
        thread(3, "myapp", "BSrv"),
        thread(4, "myapp", "C"),
        thread(5, "myapp", "D"),
    ]);
    assert_eq!(drainer.find_sibling(&snap), Some(3));
    assert_eq!(snap.get(3).handle, handle(4));
}

#[test]
fn drainer_state_machine_steps() {
    let mut d = Drainer::new(handle(7), b"t".to_vec());
    assert_eq!(d.self_handle(), handle(7));
    assert_eq!(d.app_tag(), b"t");
    assert_eq!(d.state(), DrainState::Scanning);
    assert_eq!(d.next_action(), DrainAction::Enumerate);
    let busy = snapshot(vec![thread(8, "t", "w")]);
    assert_eq!(d.on_snapshot(&busy), DrainAction::Sleep { ms: 10 });
    assert_eq!(d.state(), DrainState::Waiting);
    assert_eq!(d.next_action(), DrainAction::Sleep { ms: 10 });
    assert_eq!(d.on_slept(), DrainAction::Enumerate);
    assert_eq!(d.state(), DrainState::Scanning);
    assert_eq!(d.on_snapshot(&snapshot(vec![])), DrainAction::Finish);
    assert_eq!(d.next_action(), DrainAction::Finish);
}

#[test]
fn snapshot_within_capacity_is_kept_whole() {
    let snap = Snapshot::new(vec![own(), thread(2, "a", "b")], 2);
    assert_eq!(snap.len(), 2);
    assert!(!snap.is_truncated());
    assert_eq!(snap.hidden_count(), 0);
    assert_eq!(snap.get(1).name, b"b".to_vec());
}

#[test]
fn service_name_suffix() {
    assert!(is_service_name(b"GuiSrv"));
    assert!(is_service_name(b"Srv"));
    assert!(!is_service_name(b"Sr"));
    assert!(!is_service_name(b""));
    assert!(!is_service_name(b"SrvX"));
    assert!(!is_service_name(b"GuiSRV"));
}

#[test]
fn log_lines_and_tag() {
    assert_eq!(log_tag(), "flipperzero-rt");
    assert_eq!(LogLine::Draining.text(), "Waiting for FAP threads to complete...");
    assert_eq!(LogLine::Drained.text(), "All threads completed, exiting FAP");
}
