use std::sync::mpsc::Receiver;
use std::time::Duration;

use andromeda_core::Dispatch;
use andromeda_core::IntervalId;
use andromeda_core::LiveTask;
use andromeda_core::MacroTask;
use andromeda_core::Outcome;
use andromeda_core::Phase;
use andromeda_core::Runtime;
use andromeda_core::RuntimeConfig;
use andromeda_core::RuntimeHostHooks;
use andromeda_core::HostData;
use andromeda_core::Step;
use andromeda_core::TaskId;

fn tokio_workers() -> tokio::runtime::Runtime {
    tokio::runtime::Builder::new_multi_thread()
        .worker_threads(2)
        .enable_time()
        .build()
        .unwrap()
}

fn wait(rt: &tokio::runtime::Runtime, millis: u64) {
    rt.block_on(async { tokio::time::sleep(Duration::from_millis(millis)).await });
}

fn config(paths: &[&str]) -> RuntimeConfig {
    RuntimeConfig {
        no_strict: false,
        paths: paths.iter().map(|p| p.to_string()).collect(),
        verbose: false,
    }
}

fn started(paths: &[&str]) -> (Runtime<&'static str, u32>, Receiver<MacroTask<u32>>) {
    let (mut runtime, rx) = Runtime::<&'static str, u32>::new(config(paths));
    assert!(matches!(runtime.run(Outcome::Completed), Step::EvaluateBuiltin(0)));
    assert!(matches!(runtime.run(Outcome::Completed), Step::EvaluateBuiltin(1)));
    (runtime, rx)
}

/// Waits until no background task is live, for at most two seconds.
fn idle(rt: &tokio::runtime::Runtime, runtime: &Runtime<&'static str, u32>) -> bool {
    for _ in 0..2000 {
        if !runtime.hooks().any_pending_macro_tasks() {
            return true;
        }
        wait(rt, 1);
    }
    false
}

#[test]
fn new_runtime_is_initializing() {
    let (runtime, _rx) = Runtime::<&'static str, u32>::new(config(&["main.ts"]));
    assert_eq!(runtime.phase(), Phase::Initializing);
    assert_eq!(runtime.config().paths, vec!["main.ts".to_string()]);
    assert!(!runtime.config().no_strict);
    assert!(!runtime.config().verbose);
    assert_eq!(runtime.hooks().pending_promise_jobs(), 0);
    assert!(!runtime.hooks().any_pending_macro_tasks());
    assert_eq!(runtime.builtin(0), Some("namespace/console.ts"));
    assert_eq!(runtime.builtin(1), Some("namespace/mod.ts"));
    assert_eq!(runtime.builtin(2), None);
    assert_eq!(runtime.entry(0).unwrap(), "main.ts");
    assert!(runtime.entry(1).is_none());
}

#[test]
fn scripts_are_evaluated_in_order() {
    let (mut runtime, _rx) = Runtime::<&'static str, u32>::new(config(&["a.ts", "b.ts"]));
    assert!(matches!(runtime.run(Outcome::Completed), Step::EvaluateBuiltin(0)));
    assert_eq!(runtime.phase(), Phase::Evaluating);
    assert!(matches!(runtime.run(Outcome::Completed), Step::EvaluateBuiltin(1)));
    assert!(matches!(runtime.run(Outcome::Completed), Step::EvaluateEntry(0)));
    assert_eq!(runtime.entry(0).unwrap(), "a.ts");
    assert!(matches!(runtime.run(Outcome::Completed), Step::EvaluateEntry(1)));
    assert_eq!(runtime.entry(1).unwrap(), "b.ts");
    assert_eq!(runtime.phase(), Phase::Evaluating);
    assert!(matches!(runtime.run(Outcome::Completed), Step::Exit(Outcome::Completed)));
    assert_eq!(runtime.phase(), Phase::Terminated);
}

#[test]
fn a_failure_at_the_start_is_not_a_failure() {
    let (mut runtime, _rx) = Runtime::<&'static str, u32>::new(config(&[]));
    assert!(matches!(runtime.run(Outcome::Failed), Step::EvaluateBuiltin(0)));
    assert!(matches!(runtime.run(Outcome::Completed), Step::EvaluateBuiltin(1)));
    assert!(matches!(runtime.run(Outcome::Completed), Step::Exit(Outcome::Completed)));
}

#[test]
fn zero_timer_script_terminates_at_once() {
    let (mut runtime, _rx) = started(&["main.ts"]);
    assert!(matches!(runtime.run(Outcome::Completed), Step::EvaluateEntry(0)));
    assert!(matches!(runtime.run(Outcome::Completed), Step::Exit(Outcome::Completed)));
    assert_eq!(runtime.phase(), Phase::Terminated);
}

#[test]
fn microtasks_of_the_scripts_run_after_the_last_script() {
    let (mut runtime, _rx) = started(&["a.ts", "b.ts"]);
    assert!(matches!(runtime.run(Outcome::Completed), Step::EvaluateEntry(0)));
    runtime.hooks_mut().enqueue_promise_job("from a");
    assert!(matches!(runtime.run(Outcome::Completed), Step::EvaluateEntry(1)));
    runtime.hooks_mut().enqueue_promise_job("from b");
    assert!(matches!(runtime.run(Outcome::Completed), Step::RunJob("from a")));
    assert_eq!(runtime.phase(), Phase::Draining);
    assert!(matches!(runtime.run(Outcome::Completed), Step::RunJob("from b")));
    assert!(matches!(runtime.run(Outcome::Completed), Step::Exit(Outcome::Completed)));
}

#[test]
fn jobs_queued_by_jobs_run_in_the_same_drain() {
    let (mut runtime, _rx) = started(&[]);
    runtime.hooks_mut().enqueue_promise_job("first");
    let mut log = Vec::new();
    let mut outcome = Outcome::Completed;
    loop {
        match runtime.decide(outcome, true) {
            Step::RunJob(job) => {
                log.push(job);
                if job == "first" {
                    runtime.hooks_mut().enqueue_promise_job("second");
                    runtime.hooks_mut().enqueue_promise_job("third");
                }
                if job == "second" {
                    runtime.hooks_mut().enqueue_promise_job("fourth");
                }
                outcome = Outcome::Completed;
            }
            Step::AwaitMacroTask => break,
            _ => panic!("the loop left the drain"),
        }
    }
    assert_eq!(log, vec!["first", "second", "third", "fourth"]);
    assert_eq!(runtime.hooks().pending_promise_jobs(), 0);
    assert_eq!(runtime.phase(), Phase::AwaitingMacrotask);
}

#[test]
fn decide_follows_the_pending_flag() {
    let (mut runtime, _rx) = started(&[]);
    assert!(matches!(runtime.decide(Outcome::Completed, true), Step::AwaitMacroTask));
    assert_eq!(runtime.phase(), Phase::AwaitingMacrotask);
    assert!(matches!(runtime.decide(Outcome::Completed, true), Step::AwaitMacroTask));
    assert!(matches!(runtime.decide(Outcome::Failed, true), Step::AwaitMacroTask));
    runtime.hooks_mut().enqueue_promise_job("late");
    assert!(matches!(runtime.decide(Outcome::Completed, false), Step::RunJob("late")));
    assert!(matches!(runtime.decide(Outcome::Completed, false), Step::Exit(Outcome::Completed)));
}

#[test]
fn failed_entry_script_ends_the_run() {
    let (mut runtime, _rx) = started(&["a.ts", "b.ts"]);
    assert!(matches!(runtime.run(Outcome::Completed), Step::EvaluateEntry(0)));
    runtime.hooks_mut().enqueue_promise_job("never run");
    assert!(matches!(runtime.run(Outcome::Failed), Step::Exit(Outcome::Failed)));
    assert_eq!(runtime.phase(), Phase::Terminated);
    assert!(matches!(runtime.run(Outcome::Completed), Step::Exit(Outcome::Failed)));
    assert_eq!(runtime.hooks().pending_promise_jobs(), 1);
}

#[test]
fn failed_job_ends_the_run() {
    let (mut runtime, _rx) = started(&[]);
    runtime.hooks_mut().enqueue_promise_job("throws");
    runtime.hooks_mut().enqueue_promise_job("never run");
    assert!(matches!(runtime.run(Outcome::Completed), Step::RunJob("throws")));
    assert!(matches!(runtime.run(Outcome::Failed), Step::Exit(Outcome::Failed)));
    assert!(matches!(runtime.decide(Outcome::Completed, true), Step::Exit(Outcome::Failed)));
}

#[test]
fn terminated_runtime_stays_terminated() {
    let (mut runtime, _rx) = started(&[]);
    assert!(matches!(runtime.run(Outcome::Completed), Step::Exit(Outcome::Completed)));
    runtime.hooks_mut().enqueue_promise_job("too late");
    assert!(matches!(runtime.decide(Outcome::Completed, true), Step::Exit(Outcome::Completed)));
    assert!(matches!(runtime.decide(Outcome::Failed, false), Step::Exit(Outcome::Completed)));
    assert_eq!(runtime.phase(), Phase::Terminated);
}

#[test]
fn one_shot_timer_keeps_the_loop_alive_until_it_fires() {
    let workers = tokio_workers();
    let (mut runtime, rx) = started(&["timer.ts"]);
    assert!(matches!(runtime.run(Outcome::Completed), Step::EvaluateEntry(0)));
    // The entry script registers a timeout of 10 ms that resolves a promise.
    let tx = runtime.hooks().get_host_data().macro_task_tx();
    let task = runtime.hooks_mut().host_data_mut().spawn_macro_task(|live: LiveTask| {
        workers.spawn(async move {
            tokio::time::sleep(Duration::from_millis(10)).await;
            tx.send(MacroTask::ResolvePromise(7)).unwrap();
            live.finish();
        })
    });
    assert_eq!(task, TaskId(0));
    // No microtask is queued, a task is live: the loop blocks.
    assert!(matches!(runtime.run(Outcome::Completed), Step::AwaitMacroTask));
    assert_eq!(runtime.phase(), Phase::AwaitingMacrotask);
    let message = rx.recv().unwrap();
    let dispatch = runtime.handle_macro_task(Some(message));
    assert_eq!(runtime.phase(), Phase::Draining);
    let mut reactions: Vec<u32> = Vec::new();
    match dispatch {
        Dispatch::ResolvePromise(promise) => {
            assert_eq!(promise, 7);
            runtime.hooks_mut().enqueue_promise_job("reaction");
        }
        _ => panic!("the message was a promise to resolve"),
    }
    assert!(idle(&workers, &runtime));
    assert!(matches!(runtime.run(Outcome::Completed), Step::RunJob("reaction")));
    reactions.push(7);
    assert!(matches!(runtime.run(Outcome::Completed), Step::Exit(Outcome::Completed)));
    assert_eq!(reactions, vec![7]);
    assert_eq!(runtime.phase(), Phase::Terminated);
    assert!(rx.try_recv().is_err());
}

#[test]
fn microtasks_drain_before_the_next_macrotask() {
    let workers = tokio_workers();
    let (mut runtime, rx) = started(&[]);
    let mut log: Vec<String> = Vec::new();
    for (delay, promise) in [(5u64, 1u32), (200u64, 2u32)] {
        let tx = runtime.hooks().get_host_data().macro_task_tx();
        runtime.hooks_mut().host_data_mut().spawn_macro_task(|live: LiveTask| {
            workers.spawn(async move {
                tokio::time::sleep(Duration::from_millis(delay)).await;
                tx.send(MacroTask::ResolvePromise(promise)).unwrap();
                live.finish();
            })
        });
    }
    // Both messages are in the channel before the loop looks.
    assert!(idle(&workers, &runtime));
    let mut outcome = Outcome::Completed;
    let mut dispatched = 0;
    loop {
        match runtime.decide(outcome, dispatched < 2) {
            Step::AwaitMacroTask => {
                assert_eq!(runtime.hooks().pending_promise_jobs(), 0);
                let message = rx.recv().unwrap();
                match runtime.handle_macro_task(Some(message)) {
                    Dispatch::ResolvePromise(promise) => {
                        log.push(format!("macrotask {promise}"));
                        runtime.hooks_mut().enqueue_promise_job(if promise == 1 {
                            "then 1a"
                        } else {
                            "then 2a"
                        });
                    }
                    _ => panic!("only promises were posted"),
                }
                dispatched += 1;
            }
            Step::RunJob(job) => {
                log.push(format!("microtask {job}"));
                if job == "then 1a" {
                    runtime.hooks_mut().enqueue_promise_job("then 1b");
                }
                if job == "then 2a" {
                    runtime.hooks_mut().enqueue_promise_job("then 2b");
                }
            }
            Step::Exit(Outcome::Completed) => break,
            _ => panic!("no script is left and nothing failed"),
        }
        outcome = Outcome::Completed;
    }
    assert_eq!(
        log,
        vec![
            "macrotask 1",
            "microtask then 1a",
            "microtask then 1b",
            "macrotask 2",
            "microtask then 2a",
            "microtask then 2b",
        ]
    );
}

#[test]
fn timeouts_fire_in_delay_order() {
    let workers = tokio_workers();
    let (mut runtime, rx) = started(&[]);
    // Registered out of order, with delays that lie well apart.
    for (callback, delay) in [(300u32, 300u64), (20, 20), (150, 150)] {
        let tx = runtime.hooks().get_host_data().macro_task_tx();
        runtime.hooks_mut().host_data_mut().create_interval(
            callback,
            false,
            delay,
            |id: IntervalId, live: LiveTask| {
                workers.spawn(async move {
                    tokio::time::sleep(Duration::from_millis(delay)).await;
                    tx.send(MacroTask::RunAndClearTimeout(id)).unwrap();
                    live.finish();
                })
            },
        );
    }
    let mut fired = Vec::new();
    while fired.len() < 3 {
        // A timeout is pending: the loop does not leave.
        assert!(matches!(runtime.decide(Outcome::Completed, true), Step::AwaitMacroTask));
        let message = rx.recv().unwrap();
        match runtime.handle_macro_task(Some(message)) {
            Dispatch::RunTimeout(callback) => fired.push(callback),
            _ => panic!("only timeouts were registered"),
        }
    }
    assert_eq!(fired, vec![20, 150, 300]);
    assert!(idle(&workers, &runtime));
    assert!(matches!(runtime.run(Outcome::Completed), Step::Exit(Outcome::Completed)));
    assert!(!runtime.hooks().get_host_data().has_interval(IntervalId(0)));
    assert!(!runtime.hooks().get_host_data().has_macro_task(TaskId(0)));
}

#[test]
fn cleared_timeout_does_not_fire() {
    let workers = tokio_workers();
    let (mut runtime, rx) = started(&[]);
    let tx = runtime.hooks().get_host_data().macro_task_tx();
    let id = runtime.hooks_mut().host_data_mut().create_interval(
        1,
        false,
        5,
        |id: IntervalId, live: LiveTask| {
            workers.spawn(async move {
                tokio::time::sleep(Duration::from_millis(5)).await;
                tx.send(MacroTask::RunAndClearTimeout(id)).unwrap();
                live.finish();
            })
        },
    );
    // The timeout fires while the script still runs; then the script clears it.
    assert!(idle(&workers, &runtime));
    runtime
        .hooks()
        .get_host_data()
        .macro_task_tx()
        .send(MacroTask::ClearTimeout(id))
        .unwrap();
    let mut ran = 0;
    for _ in 0..2 {
        assert!(matches!(runtime.decide(Outcome::Completed, true), Step::AwaitMacroTask));
        let message = rx.recv().unwrap();
        match runtime.handle_macro_task(Some(message)) {
            Dispatch::RunTimeout(_) => ran += 1,
            Dispatch::Nothing => {}
            _ => panic!("no other work was posted"),
        }
    }
    // The run message was first in the channel, so the callback ran once; the
    // clear that followed found nothing and changed nothing.
    assert_eq!(ran, 1);
    assert!(!runtime.hooks().get_host_data().has_interval(id));
    assert!(matches!(runtime.run(Outcome::Completed), Step::Exit(Outcome::Completed)));
}

#[test]
fn no_message_runs_nothing() {
    let (mut runtime, _rx) = started(&[]);
    assert!(matches!(runtime.decide(Outcome::Completed, true), Step::AwaitMacroTask));
    assert!(matches!(runtime.handle_macro_task(None), Dispatch::Nothing));
    assert_eq!(runtime.phase(), Phase::Draining);
    assert!(matches!(runtime.decide(Outcome::Completed, false), Step::Exit(Outcome::Completed)));
}

#[test]
fn hooks_queue_is_first_in_first_out() {
    let (host, _rx) = HostData::<u32>::new();
    let mut hooks = RuntimeHostHooks::<u8, u32>::new(host);
    assert_eq!(hooks.pop_promise_job(), None);
    assert_eq!(hooks.pending_promise_jobs(), 0);
    hooks.enqueue_promise_job(1);
    hooks.enqueue_promise_job(2);
    hooks.enqueue_promise_job(3);
    assert_eq!(hooks.pending_promise_jobs(), 3);
    assert_eq!(hooks.pop_promise_job(), Some(1));
    hooks.enqueue_promise_job(4);
    assert_eq!(hooks.pop_promise_job(), Some(2));
    assert_eq!(hooks.pop_promise_job(), Some(3));
    assert_eq!(hooks.pop_promise_job(), Some(4));
    assert_eq!(hooks.pop_promise_job(), None);
    assert_eq!(hooks.pop_promise_job(), None);
    assert!(!hooks.any_pending_macro_tasks());
}

#[test]
fn import_is_loaded_each_time() {
    let (host, _rx) = HostData::<u32>::new();
    let hooks = RuntimeHostHooks::<u8, u32>::new(host);
    let mut evaluations = 0;
    let mut directories = Vec::new();
    for importer in ["/app/a.ts", "/app/lib/b.ts"] {
        let load = hooks.import_module(importer, "./counter.ts");
        assert_eq!(load.specifier, "./counter.ts");
        assert!(!load.strict);
        directories.push(load.directory);
        evaluations += 1;
    }
    assert_eq!(directories, vec!["/app", "/app/lib"]);
    let again = hooks.import_module("/app/a.ts", "./counter.ts");
    assert_eq!(again.directory, "/app");
    assert_eq!(again.specifier, "./counter.ts");
    evaluations += 1;
    assert_eq!(evaluations, 3);
}

#[test]
fn import_is_looked_for_from_the_importers_directory() {
    let (host, _rx) = HostData::<u32>::new();
    let hooks = RuntimeHostHooks::<u8, u32>::new(host);
    let load = hooks.import_module("/srv/app/main.ts", "./util/math.ts");
    assert_eq!(load.directory, "/srv/app");
    assert_eq!(load.target("/srv/app"), "/srv/app/./util/math.ts");
    assert_eq!(load.target("/mnt/real"), "/mnt/real/./util/math.ts");
    let up = hooks.import_module("/srv/app/lib/a.ts", "../b.ts");
    assert_eq!(up.directory, "/srv/app/lib");
    assert_eq!(up.target("/srv/app/lib"), "/srv/app/lib/../b.ts");
    let absolute = hooks.import_module("/srv/app/main.ts", "/opt/shared/c.ts");
    assert_eq!(absolute.target("/srv/app"), "/opt/shared/c.ts");
    let bare = hooks.import_module("main.ts", "./d.ts");
    assert_eq!(bare.directory, "");
    let root = hooks.import_module("/", "./e.ts");
    assert_eq!(root.directory, "/");
    assert_eq!(root.target("/"), "/./e.ts");
}
