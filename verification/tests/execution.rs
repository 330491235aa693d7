use std::io::{Read, Write};
use std::sync::{Arc, Mutex};

use wasi_harness::driver::{Action, Event, ExecutionDriver, ExecutionResult, Phase};
use wasi_harness::environment::{configure, CapabilitySet, EnvironmentConfig, ThreadingPolicy};
use wasi_harness::features::FeatureSet;
use wasi_harness::kinds::{HostValue, ValueKind};
use wasi_harness::linker::{instantiate, link};
use wasi_harness::loader::{load, ModuleUnit};
use wasi_harness::registry::ImportRegistry;
use wasi_harness::report::ExecutionReport;

/// A guest that asks its host to emit `code` and then divides by `divisor`.
const EMITS_AND_DIVIDES: &[u8] = br#"(module
    (import "host" "emit" (func $emit (param i32)))
    (func (export "_start") (param i32 i32)
        local.get 0
        call $emit
        i32.const 1
        local.get 1
        i32.div_s
        drop))"#;

const EMITS_AT_START: &[u8] = br#"(module
    (import "host" "emit" (func $emit (param i32)))
    (func (export "_start")
        i32.const 104
        call $emit
        i32.const 105
        call $emit))"#;

struct Outcome {
    report: ExecutionReport,
    cleanups: usize,
}

/// Runs `unit` once, as the harness does: the captured output stream takes
/// what the guest emits, the driver says what to do next, and the cleanup
/// closes the guest's ends of the streams.
fn execute(unit: &ModuleUnit, arguments: &[wasmer::Value]) -> Outcome {
    let runtime = tokio::runtime::Builder::new_current_thread()
        .build()
        .expect("a runtime can be built");
    let capabilities = CapabilitySet {
        unrestricted: true,
        http_client: true,
        threading: ThreadingPolicy { max_threads: None },
    };
    let (builder, mut host) = configure(capabilities, EnvironmentConfig::new());
    let guest = match builder.with_task_manager(runtime.handle().clone()).finalize() {
        Ok(guest) => guest,
        Err(error) => panic!("a complete environment is refused: {:?}", error),
    };
    let guest_stdout = Arc::new(Mutex::new(Some(guest.stdout)));
    let guest_stderr = Arc::new(Mutex::new(Some(guest.stderr)));

    let sink = guest_stdout.clone();
    let emit = move |args: Vec<HostValue>| -> Vec<HostValue> {
        let byte = match args[0] {
            HostValue::I32(code) => code as u8,
            _ => panic!("the byte to emit is an integer"),
        };
        if let Some(stream) = sink.lock().expect("the stream is not poisoned").as_mut() {
            stream.write_all(&[byte]).expect("the guest end takes bytes");
        }
        Vec::new()
    };
    let mut registry = ImportRegistry::new();
    registry
        .register("host".to_string(), "emit".to_string(), vec![ValueKind::I32], vec![], emit)
        .expect("a first registration is accepted");
    let table = registry.finalize();

    let mut store = wasmer::Store::new(unit.engine().clone());
    let linked = link(&mut store, unit, wasmer::Imports::new(), &table)
        .expect("every import is served");
    let instance = instantiate(&mut store, unit, &linked).expect("the module instantiates");

    let mut driver = ExecutionDriver::new(None);
    let mut cleanups = 0;
    let mut event = Some(Event::Linked);
    while let Some(observed) = event {
        event = match driver.step(observed).expect("the events come in order") {
            Action::MarkRunning => Some(Event::MarkedRunning),
            Action::InvokeEntryPoint => {
                let start = instance.exports.get_function("_start").expect("the entry point");
                Some(match start.call(&mut store, arguments) {
                    Ok(values) => Event::Returned {
                        values: values.iter().map(HostValue::from_runtime).collect(),
                    },
                    Err(error) => Event::Trapped {
                        diagnostic: error.message(),
                        trace: error.trace().iter().map(|frame| format!("{:?}", frame)).collect(),
                    },
                })
            }
            Action::CleanUp { exit_override } => {
                assert_eq!(exit_override, None);
                cleanups += 1;
                guest_stdout.lock().expect("the stream is not poisoned").take();
                guest_stderr.lock().expect("the stream is not poisoned").take();
                Some(Event::CleanedUp)
            }
            Action::DrainStreams => None,
        };
    }
    assert_eq!(driver.phase(), Phase::CleanedUp);
    let mut stdout = String::new();
    host.stdout.read_to_string(&mut stdout).expect("the output stream drains");
    let mut stderr = String::new();
    host.stderr.read_to_string(&mut stderr).expect("the error stream drains");
    let report = match driver.finish(stdout, stderr) {
        Ok(report) => report,
        Err(_) => panic!("the execution was cleaned up"),
    };
    Outcome { report, cleanups }
}

#[test]
fn a_guest_that_returns_is_reported_with_its_output() {
    let unit = load(EMITS_AND_DIVIDES, &FeatureSet::all()).expect("the module loads");
    let outcome = execute(&unit, &[wasmer::Value::I32(104), wasmer::Value::I32(1)]);
    assert_eq!(outcome.cleanups, 1);
    assert_eq!(outcome.report.stdout, Some("h".to_string()));
    assert_eq!(outcome.report.stderr, None);
    assert!(matches!(outcome.report.result, ExecutionResult::Completed { .. }));
    assert_eq!(outcome.report.lines(), vec!["Std out: h".to_string(), "Success".to_string()]);
}

#[test]
fn a_guest_that_traps_is_cleaned_up_and_reported_with_its_output() {
    let unit = load(EMITS_AND_DIVIDES, &FeatureSet::all()).expect("the module loads");
    let outcome = execute(&unit, &[wasmer::Value::I32(104), wasmer::Value::I32(0)]);
    assert_eq!(outcome.cleanups, 1);
    assert_eq!(outcome.report.stdout, Some("h".to_string()));
    match &outcome.report.result {
        ExecutionResult::Trapped { diagnostic, .. } => {
            assert!(diagnostic.contains("divide by zero"), "the diagnostic is {:?}", diagnostic);
        }
        other => panic!("the result is {:?}", other),
    }
    let lines = outcome.report.lines();
    assert_eq!(lines[0], "Std out: h");
    assert!(lines[1].starts_with("Runtime Error: "));
    assert!(lines[1].contains("divide by zero"));
}

#[test]
fn two_executions_of_one_module_capture_their_own_output() {
    let unit = load(EMITS_AND_DIVIDES, &FeatureSet::all()).expect("the module loads");
    let first = execute(&unit, &[wasmer::Value::I32(97), wasmer::Value::I32(1)]);
    let second = execute(&unit, &[wasmer::Value::I32(98), wasmer::Value::I32(1)]);
    assert_eq!(first.report.stdout, Some("a".to_string()));
    assert_eq!(second.report.stdout, Some("b".to_string()));
    assert_eq!(first.cleanups, 1);
    assert_eq!(second.cleanups, 1);
}

#[test]
fn output_is_drained_in_the_order_it_was_written() {
    let unit = load(EMITS_AT_START, &FeatureSet::all()).expect("the module loads");
    let outcome = execute(&unit, &[]);
    assert_eq!(outcome.report.stdout, Some("hi".to_string()));
    assert_eq!(outcome.report.stderr, None);
    assert_eq!(outcome.report.lines(), vec!["Std out: hi".to_string(), "Success".to_string()]);
}
