//! The script manager and instance driven end to end: real Luau scripts,
//! real channels, a worker thread over the worker model, and an execution
//! thread per script.

use core::time::Duration;
use std::sync::Mutex;

use crossbeam::channel::{after, unbounded, Receiver, Sender};
use lua_runner::event::{command_of_event, LuaEvent};
use lua_runner::instance::{run_script, LuaInstance, ScriptOutcome, ScriptSources};
use lua_runner::manager::{next_selection, LuaManager};
use lua_runner::model::QueryKey;
use lua_runner::worker::{WorkerReply, WorkerState};

fn sources(script: &str) -> ScriptSources {
    ScriptSources {
        std_path: "stdlib".to_string(),
        prelude: Vec::new(),
        postlude: Vec::new(),
        script: script.as_bytes().to_vec(),
    }
}

/// The worker loop: execute each command against the model in arrival
/// order, replying to queries; a worker failure ends the worker, leaving
/// later queries to fail on their reply channel.
fn run_worker(rx: Receiver<LuaEvent>, mut w: WorkerState) {
    while let Ok(e) = rx.recv() {
        let cmd = command_of_event(&e);
        let reply = match w.step(&cmd) {
            Ok(r) => r,
            Err(_) => break,
        };
        match (e, reply) {
            (LuaEvent::KeyboardIsPressing { res, .. }, Some(WorkerReply::Flag(b))) => {
                let _ = res.send(b);
            }
            (LuaEvent::MouseIsPressing { res, .. }, Some(WorkerReply::Flag(b))) => {
                let _ = res.send(b);
            }
            (LuaEvent::MouseGetPos { res, .. }, Some(WorkerReply::Pos(x, y))) => {
                let _ = res.send((x, y));
            }
            _ => {}
        }
    }
}

fn start<'env>(
    s: &crossbeam::thread::Scope<'env>,
    mgr: &mut LuaManager,
    script: &str,
    probe: Sender<ScriptOutcome>,
) -> Result<(), String> {
    let worker = WorkerState::initial(0, 0, Vec::new(), vec![false; 8]);
    mgr.execute_from_file(
        &sources(script),
        |rx| {
            s.spawn(move |_| run_worker(rx, worker));
        },
        |inst, tx| {
            s.spawn(move |_| {
                let o = run_script(&inst);
                let _ = probe.send(o.clone());
                let _ = tx.send(o);
            });
        },
    )
}

fn pause(ms: u64) {
    let _ = after(Duration::from_millis(ms)).recv();
}

#[test]
fn reselecting_the_active_script_deselects_it() {
    let a = "one".to_string();
    let b = "two".to_string();
    assert_eq!(next_selection(None, &None), None);
    assert_eq!(next_selection(None, &Some(a.clone())), None);
    assert_eq!(next_selection(Some(&a), &None), Some(a.clone()));
    assert_eq!(next_selection(Some(&a), &Some(a.clone())), None);
    assert_eq!(next_selection(Some(&b), &Some(a.clone())), Some(b.clone()));
}

#[test]
fn stop_with_no_active_instance_is_a_successful_noop() {
    let mut mgr = LuaManager::new();
    assert!(!mgr.is_active());
    assert_eq!(mgr.stop_current(), Ok(()));
    assert_eq!(mgr.stop_current(), Ok(()));
    assert!(!mgr.is_active());
}

#[test]
fn completed_script_reports_completion() {
    crossbeam::scope(|s| {
        let mut mgr = LuaManager::new();
        let (probe_tx, probe_rx) = unbounded();
        start(s, &mut mgr, "function Main() end", probe_tx).unwrap();
        assert!(mgr.is_active());
        let o = probe_rx.recv().unwrap();
        assert!(matches!(o, ScriptOutcome::Completed));
        mgr.stop_current().unwrap();
        assert!(!mgr.is_active());
    })
    .unwrap();
}

#[test]
fn cancelled_spinning_script_is_a_cooperative_stop() {
    crossbeam::scope(|s| {
        let mut mgr = LuaManager::new();
        let (probe_tx, probe_rx) = unbounded();
        start(s, &mut mgr, "function Main() while true do end end", probe_tx).unwrap();
        pause(100);
        mgr.stop_current().unwrap();
        let o = probe_rx.recv().unwrap();
        assert!(matches!(o, ScriptOutcome::Stopped));
        assert!(!mgr.is_active());
    })
    .unwrap();
}

#[test]
fn invalid_key_fails_once_with_a_message_naming_it() {
    crossbeam::scope(|s| {
        let mut mgr = LuaManager::new();
        let (probe_tx, probe_rx) = unbounded();
        start(
            s,
            &mut mgr,
            "function Main() keyboard.press(\"NotAKey\") end",
            probe_tx,
        )
        .unwrap();
        match probe_rx.recv().unwrap() {
            ScriptOutcome::Failed(msg) => assert!(msg.contains("Invalid key: NotAKey"), "{msg}"),
            _ => panic!("expected a failure"),
        }
        // exactly one failure report
        assert!(probe_rx.try_recv().is_err());
        // the slot is left safe: a subsequent start succeeds
        let (probe2_tx, probe2_rx) = unbounded();
        start(s, &mut mgr, "function Main() end", probe2_tx).unwrap();
        assert!(matches!(probe2_rx.recv().unwrap(), ScriptOutcome::Completed));
        mgr.stop_current().unwrap();
    })
    .unwrap();
}

#[test]
fn replacing_stops_the_first_before_the_second_starts() {
    crossbeam::scope(|s| {
        let mut mgr = LuaManager::new();
        let (probe1_tx, probe1_rx) = unbounded();
        start(s, &mut mgr, "function Main() while true do end end", probe1_tx).unwrap();
        pause(100);
        let (probe2_tx, probe2_rx) = unbounded();
        start(s, &mut mgr, "function Main() end", probe2_tx).unwrap();
        // the first instance was joined before the second was constructed,
        // so its outcome is already there
        let o = probe1_rx.try_recv().unwrap();
        assert!(matches!(o, ScriptOutcome::Stopped));
        assert!(matches!(probe2_rx.recv().unwrap(), ScriptOutcome::Completed));
        mgr.stop_current().unwrap();
    })
    .unwrap();
}

#[test]
fn racing_stops_agree_and_one_performs_the_teardown() {
    let mgr = Mutex::new(LuaManager::new());
    let (probe_tx, probe_rx) = unbounded();
    crossbeam::scope(|s| {
        {
            let mut m = mgr.lock().unwrap();
            start(s, &mut m, "function Main() while true do end end", probe_tx).unwrap();
        }
        pause(100);
        let r1 = s.spawn(|_| mgr.lock().unwrap().stop_current());
        let r2 = s.spawn(|_| mgr.lock().unwrap().stop_current());
        assert_eq!(r1.join().unwrap(), Ok(()));
        assert_eq!(r2.join().unwrap(), Ok(()));
        // exactly one teardown: one cooperative stop was recorded
        assert!(matches!(probe_rx.recv().unwrap(), ScriptOutcome::Stopped));
        assert!(probe_rx.try_recv().is_err());
        assert!(!mgr.lock().unwrap().is_active());
    })
    .unwrap();
}

#[test]
fn query_round_trip_matches_injected_state() {
    crossbeam::scope(|s| {
        let mut mgr = LuaManager::new();
        let (probe_tx, probe_rx) = unbounded();
        let script = "function Main()\n\
             mouse.move(123, 456, \"Abs\")\n\
             local x, y = mouse.get_pos()\n\
             if x ~= 123 or y ~= 456 then error(\"pos mismatch\") end\n\
             if keyboard.is_pressing(\"A\") then error(\"key unexpectedly down\") end\n\
             if mouse.is_pressing(\"1\") then error(\"button unexpectedly down\") end\n\
             end";
        start(s, &mut mgr, script, probe_tx).unwrap();
        let o = probe_rx.recv().unwrap();
        match o {
            ScriptOutcome::Completed => {}
            ScriptOutcome::Failed(msg) => panic!("round trip failed: {msg}"),
            ScriptOutcome::Stopped => panic!("unexpected stop"),
        }
        mgr.stop_current().unwrap();
    })
    .unwrap();
}

#[test]
fn key_down_query_sees_sampled_state() {
    crossbeam::scope(|s| {
        let mut mgr = LuaManager::new();
        let (probe_tx, probe_rx) = unbounded();
        let script = "function Main()\n\
             if not keyboard.is_pressing(\"LShift\") then error(\"expected down\") end\n\
             end";
        let worker = WorkerState::initial(0, 0, vec![QueryKey::LShift], vec![false; 8]);
        mgr.execute_from_file(
            &sources(script),
            |rx| {
                s.spawn(move |_| run_worker(rx, worker));
            },
            |inst, tx| {
                s.spawn(move |_| {
                    let o = run_script(&inst);
                    let _ = probe_tx.send(o.clone());
                    let _ = tx.send(o);
                });
            },
        )
        .unwrap();
        assert!(matches!(probe_rx.recv().unwrap(), ScriptOutcome::Completed));
        mgr.stop_current().unwrap();
    })
    .unwrap();
}

#[test]
fn dead_worker_surfaces_as_a_script_runtime_error() {
    crossbeam::scope(|s| {
        let mut mgr = LuaManager::new();
        let (probe_tx, probe_rx) = unbounded();
        // index 99 is beyond the sampled button state: the worker ends and
        // the pending reply is lost
        let script = "function Main() mouse.is_pressing(\"99\") end";
        start(s, &mut mgr, script, probe_tx).unwrap();
        match probe_rx.recv().unwrap() {
            ScriptOutcome::Failed(msg) => {
                assert!(msg.contains("Failed to receive reply"), "{msg}")
            }
            _ => panic!("expected a failure"),
        }
        mgr.stop_current().unwrap();
    })
    .unwrap();
}

#[test]
fn missing_entry_point_is_a_failure() {
    crossbeam::scope(|s| {
        let mut mgr = LuaManager::new();
        let (probe_tx, probe_rx) = unbounded();
        start(s, &mut mgr, "x = 1", probe_tx).unwrap();
        assert!(matches!(probe_rx.recv().unwrap(), ScriptOutcome::Failed(_)));
        mgr.stop_current().unwrap();
    })
    .unwrap();
}

#[test]
fn sleeping_script_completes() {
    crossbeam::scope(|s| {
        let mut mgr = LuaManager::new();
        let (probe_tx, probe_rx) = unbounded();
        start(s, &mut mgr, "function Main() sleep(10) end", probe_tx).unwrap();
        assert!(matches!(probe_rx.recv().unwrap(), ScriptOutcome::Completed));
        mgr.stop_current().unwrap();
    })
    .unwrap();
}

#[test]
fn load_error_leaves_the_slot_empty() {
    crossbeam::scope(|s| {
        let mut mgr = LuaManager::new();
        let (probe_tx, _probe_rx) = unbounded();
        let r = start(s, &mut mgr, "this is not a script", probe_tx);
        assert!(r.is_err());
        assert!(!mgr.is_active());
        // and the manager still works afterwards
        let (probe2_tx, probe2_rx) = unbounded();
        start(s, &mut mgr, "function Main() end", probe2_tx).unwrap();
        assert!(matches!(probe2_rx.recv().unwrap(), ScriptOutcome::Completed));
        mgr.stop_current().unwrap();
    })
    .unwrap();
}

#[test]
fn top_level_error_fails_creation() {
    crossbeam::scope(|s| {
        let mut mgr = LuaManager::new();
        let (probe_tx, _probe_rx) = unbounded();
        let r = start(s, &mut mgr, "error('boom at load')", probe_tx);
        let msg = r.unwrap_err();
        assert!(msg.contains("boom at load"), "{msg}");
        assert!(!mgr.is_active());
    })
    .unwrap();
}

#[test]
fn prelude_and_postlude_run_before_the_script() {
    crossbeam::scope(|s| {
        let mut mgr = LuaManager::new();
        let (probe_tx, probe_rx) = unbounded();
        let src = ScriptSources {
            std_path: "stdlib".to_string(),
            prelude: b"SHARED = 7".to_vec(),
            postlude: b"AFTER = SHARED + 1".to_vec(),
            script: b"if AFTER ~= 8 then error('bootstrap missing') end\n\
                 function Main() end"
                .to_vec(),
        };
        let worker = WorkerState::initial(0, 0, Vec::new(), Vec::new());
        mgr.execute_from_file(
            &src,
            |rx| {
                s.spawn(move |_| run_worker(rx, worker));
            },
            |inst, tx| {
                s.spawn(move |_| {
                    let o = run_script(&inst);
                    let _ = probe_tx.send(o.clone());
                    let _ = tx.send(o);
                });
            },
        )
        .unwrap();
        assert!(matches!(probe_rx.recv().unwrap(), ScriptOutcome::Completed));
        mgr.stop_current().unwrap();
    })
    .unwrap();
}

#[test]
fn instance_stop_is_nonblocking_and_succeeds() {
    let inst = LuaInstance::create_from_file(&sources("function Main() end"), |_rx| {}).unwrap();
    assert_eq!(inst.stop(), Ok(()));
    assert_eq!(inst.stop(), Ok(()));
}

#[test]
fn execute_resets_the_cancellation_flag() {
    crossbeam::scope(|s| {
        let inst =
            LuaInstance::create_from_file(&sources("function Main() end"), |_rx| {}).unwrap();
        inst.stop().unwrap();
        // a fresh execute must not see the stale stop request
        let h = s.spawn(move |_| run_script(&inst));
        let o = h.join().unwrap();
        assert!(matches!(o, ScriptOutcome::Completed));
    })
    .unwrap();
}
