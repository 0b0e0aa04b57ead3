use lunatic::errors::SchedulerError;
use lunatic::lunatic::{FuelPolicy, Lunatic};
use std::collections::HashMap;
use std::sync::{Arc, Mutex};

const FAST_RETURN: &str = r#"
(module
  (func (export "hello") (param i64) (result i64)
    local.get 0))
"#;

const FUEL_LOOP: &str = r#"
(module
  (func (export "hello") (param i64) (result i64)
    (loop $spin (br $spin))
    i64.const 0))
"#;

const TRAPPING: &str = r#"
(module
  (func (export "hello") (param i64) (result i64)
    unreachable))
"#;

const HOST_DIAG: &str = r#"
(module
  (import "host" "hello" (func $host_hello (param i32)))
  (func (export "hello") (param i64) (result i64)
    i32.const 3
    call $host_hello
    local.get 0))
"#;

fn default_policy() -> FuelPolicy {
    FuelPolicy { budget: 1_000_000, yield_every: 1_000 }
}

fn new_kernel(policy: FuelPolicy) -> (
    Arc<Mutex<Lunatic>>,
    tokio::sync::mpsc::UnboundedReceiver<(u64, u64)>,
) {
    let (lun, receiver) = Lunatic::new(policy).expect("engine configuration");
    (Arc::new(Mutex::new(lun)), receiver)
}

/// Drives the scheduler loop for `n` requests: dequeues each one and launches
/// a concurrent runner task for it, never waiting on a run before accepting
/// the next, then waits for all runners to settle.
fn run_all(
    lun: &Arc<Mutex<Lunatic>>,
    receiver: &mut tokio::sync::mpsc::UnboundedReceiver<(u64, u64)>,
    n: usize,
) -> HashMap<u64, Result<u64, SchedulerError>> {
    let rt = tokio::runtime::Builder::new_multi_thread()
        .worker_threads(4)
        .enable_all()
        .build()
        .expect("runtime");
    let results: Arc<Mutex<HashMap<u64, Result<u64, SchedulerError>>>> =
        Arc::new(Mutex::new(HashMap::new()));
    rt.block_on(async {
        let mut handles = Vec::new();
        for _ in 0..n {
            let (module_id, pid) = receiver.recv().await.expect("request");
            let lun = Arc::clone(lun);
            let results = Arc::clone(&results);
            handles.push(tokio::spawn(async move {
                let setup = { lun.lock().unwrap().begin_run(module_id, pid) };
                let out = match setup {
                    Err(e) => Err(e),
                    Ok((template, mut store)) => {
                        let call: Result<u64, wasmtime::Error> = async {
                            let instance = template.instantiate_async(&mut store).await?;
                            let func =
                                instance.get_typed_func::<u64, u64>(&mut store, "hello")?;
                            func.call_async(&mut store, pid).await
                        }
                        .await;
                        lun.lock().unwrap().finish_run(pid, call)
                    }
                };
                results.lock().unwrap().insert(pid, out);
            }));
        }
        for h in handles {
            h.await.expect("runner task");
        }
    });
    let m = results.lock().unwrap().clone();
    m
}

#[test]
fn registration_ids_are_distinct_and_increasing() {
    let (lun, _receiver) = new_kernel(default_policy());
    let mut l = lun.lock().unwrap();
    let a = l.load(FAST_RETURN.as_bytes()).expect("load");
    let b = l.load(TRAPPING.as_bytes()).expect("load");
    let c = l.load(HOST_DIAG.as_bytes()).expect("load");
    assert_eq!(a, 0);
    assert_eq!(b, 1);
    assert_eq!(c, 2);
    assert!(a < b && b < c);
}

#[test]
fn rejects_malformed_bytecode() {
    let (lun, _receiver) = new_kernel(default_policy());
    let mut l = lun.lock().unwrap();
    let r = l.load(b"definitely not bytecode");
    assert_eq!(r, Err(SchedulerError::CompilationFailed));
    // Nothing was stored: a spawn of the would-be id is still refused.
    assert_eq!(l.start(0), Err(SchedulerError::UnknownModule));
}

#[test]
fn unknown_module_spawn_leaves_no_record() {
    let (lun, _receiver) = new_kernel(default_policy());
    let mut l = lun.lock().unwrap();
    assert_eq!(l.start(7), Err(SchedulerError::UnknownModule));
    assert_eq!(l.started_count(), 0);
    assert_eq!(l.ended_count(), 0);
    assert!(l.snapshot().is_empty());
}

#[test]
fn closed_queue_is_reported_synchronously() {
    let (lun, receiver) = new_kernel(default_policy());
    drop(receiver);
    let mut l = lun.lock().unwrap();
    let m = l.load(FAST_RETURN.as_bytes()).expect("load");
    assert_eq!(l.start(m), Err(SchedulerError::SchedulerClosed));
}

#[test]
fn begin_run_of_unregistered_module_fails_instantiation() {
    let (lun, _receiver) = new_kernel(default_policy());
    let mut l = lun.lock().unwrap();
    let r = l.begin_run(99, 0);
    assert!(matches!(r, Err(SchedulerError::InstantiationFailed)));
    // The failure is recorded as a terminal state with both timestamps.
    assert_eq!(l.started_count(), 1);
    assert_eq!(l.ended_count(), 1);
}

#[test]
fn spawned_processes_all_complete() {
    let (lun, mut receiver) = new_kernel(default_policy());
    let m = lun.lock().unwrap().load(FAST_RETURN.as_bytes()).expect("load");
    let n: usize = 25;
    let mut pids = Vec::new();
    for _ in 0..n {
        pids.push(lun.lock().unwrap().start(m).expect("start"));
    }
    // The issued process ids are pairwise distinct and strictly increasing.
    for w in pids.windows(2) {
        assert!(w[0] < w[1]);
    }
    let results = run_all(&lun, &mut receiver, n);
    assert_eq!(results.len(), n);
    for pid in &pids {
        // The fast-return guest echoes its argument, the process id.
        assert_eq!(results[pid], Ok(*pid));
    }
    let l = lun.lock().unwrap();
    assert_eq!(l.started_count(), n);
    assert_eq!(l.ended_count(), n);
}

#[test]
fn fuel_exhaustion_is_out_of_fuel_and_blocks_nobody() {
    let (lun, mut receiver) = new_kernel(FuelPolicy { budget: 10_000, yield_every: 100 });
    let fast = lun.lock().unwrap().load(FAST_RETURN.as_bytes()).expect("load");
    let greedy = lun.lock().unwrap().load(FUEL_LOOP.as_bytes()).expect("load");
    let greedy_pid = lun.lock().unwrap().start(greedy).expect("start");
    let mut fast_pids = Vec::new();
    for _ in 0..8 {
        fast_pids.push(lun.lock().unwrap().start(fast).expect("start"));
    }
    let results = run_all(&lun, &mut receiver, 9);
    assert_eq!(results[&greedy_pid], Err(SchedulerError::OutOfFuel));
    for pid in &fast_pids {
        assert_eq!(results[pid], Ok(*pid));
    }
    // The exhausted process is ended like any other, so completion counting
    // of the whole batch is not blocked by it.
    let l = lun.lock().unwrap();
    assert_eq!(l.ended_count(), 9);
}

#[test]
fn trap_is_recorded_and_scheduler_keeps_going() {
    let (lun, mut receiver) = new_kernel(default_policy());
    let bad = lun.lock().unwrap().load(TRAPPING.as_bytes()).expect("load");
    let good = lun.lock().unwrap().load(FAST_RETURN.as_bytes()).expect("load");
    let bad_pid = lun.lock().unwrap().start(bad).expect("start");
    let results = run_all(&lun, &mut receiver, 1);
    match &results[&bad_pid] {
        Err(SchedulerError::Trap(_)) => {},
        other => panic!("expected a trap, got {:?}", other),
    }
    assert_eq!(lun.lock().unwrap().ended_count(), 1);
    // The scheduler still accepts and dispatches further spawns.
    let good_pid = lun.lock().unwrap().start(good).expect("start");
    let results = run_all(&lun, &mut receiver, 1);
    assert_eq!(results[&good_pid], Ok(good_pid));
    assert_eq!(lun.lock().unwrap().ended_count(), 2);
}

#[test]
fn three_thousand_processes_all_start_and_end() {
    let (lun, mut receiver) = new_kernel(default_policy());
    let m = lun.lock().unwrap().load(HOST_DIAG.as_bytes()).expect("load");
    let n: usize = 3000;
    for _ in 0..n {
        lun.lock().unwrap().start(m).expect("start");
    }
    let results = run_all(&lun, &mut receiver, n);
    assert_eq!(results.len(), n);
    let mut l = lun.lock().unwrap();
    assert_eq!(l.started_count(), n);
    assert_eq!(l.ended_count(), n);
    let snap = l.snapshot();
    assert_eq!(snap.len(), n);
    let min_start = snap.iter().map(|r| r.1).min().expect("records");
    let max_end = snap.iter().map(|r| r.2.expect("ended")).max().expect("records");
    assert!(min_start < max_end);
}

#[test]
fn interleaved_modules_do_not_contaminate_each_other() {
    let (lun, mut receiver) = new_kernel(FuelPolicy { budget: 20_000, yield_every: 100 });
    let fast = lun.lock().unwrap().load(FAST_RETURN.as_bytes()).expect("load");
    let greedy = lun.lock().unwrap().load(FUEL_LOOP.as_bytes()).expect("load");
    let mut fast_pids = Vec::new();
    let mut greedy_pids = Vec::new();
    for i in 0..20 {
        if i % 2 == 0 {
            fast_pids.push(lun.lock().unwrap().start(fast).expect("start"));
        } else {
            greedy_pids.push(lun.lock().unwrap().start(greedy).expect("start"));
        }
    }
    let results = run_all(&lun, &mut receiver, 20);
    for pid in &fast_pids {
        assert_eq!(results[pid], Ok(*pid));
    }
    for pid in &greedy_pids {
        assert_eq!(results[pid], Err(SchedulerError::OutOfFuel));
    }
    // Every process has its own record: one start, one end, start <= end.
    let mut l = lun.lock().unwrap();
    let snap = l.snapshot();
    assert_eq!(snap.len(), 20);
    let mut seen = std::collections::HashSet::new();
    for (pid, start, end) in snap {
        assert!(seen.insert(pid));
        assert!(start <= end.expect("every process ended"));
    }
}
