use wasi_harness::kinds::{HostValue, ValueKind};
use wasi_harness::registry::{answer_call, ImportRegistry, RegistryError};
use wasi_harness::signature::{ImportSignature, InvokeError};

type Implementation = fn(Vec<HostValue>) -> Vec<HostValue>;

fn i32_value(n: i32) -> HostValue {
    HostValue::I32(n)
}

fn nothing(_args: Vec<HostValue>) -> Vec<HostValue> {
    Vec::new()
}

fn forty_two(_args: Vec<HostValue>) -> Vec<HostValue> {
    vec![i32_value(42)]
}

fn sum(args: Vec<HostValue>) -> Vec<HostValue> {
    let (a, b) = match (&args[0], &args[1]) {
        (HostValue::I32(a), HostValue::I32(b)) => (*a, *b),
        _ => panic!("the arguments are integers"),
    };
    vec![i32_value(a + b)]
}

fn two_results(_args: Vec<HostValue>) -> Vec<HostValue> {
    vec![i32_value(1), i32_value(2)]
}

fn wide_result(_args: Vec<HostValue>) -> Vec<HostValue> {
    vec![HostValue::I64(7)]
}

#[test]
fn a_new_registry_is_empty() {
    let registry: ImportRegistry<Implementation> = ImportRegistry::new();
    assert_eq!(registry.len(), 0);
    assert!(!registry.contains("rust", "wasmImportFloat32Param"));
}

#[test]
fn register_adds_bindings_in_order() {
    let mut registry: ImportRegistry<Implementation> = ImportRegistry::new();
    let first = registry.register(
        "rust".to_string(),
        "wasmImportFloat32Param".to_string(),
        vec![ValueKind::F32],
        vec![],
        nothing,
    );
    assert_eq!(first, Ok(()));
    let second = registry.register(
        "wasi".to_string(),
        "thread-spawn".to_string(),
        vec![ValueKind::I32],
        vec![ValueKind::I32],
        forty_two,
    );
    assert_eq!(second, Ok(()));
    assert_eq!(registry.len(), 2);
    assert!(registry.contains("rust", "wasmImportFloat32Param"));
    assert!(registry.contains("wasi", "thread-spawn"));

    let table = registry.finalize();
    assert_eq!(table.len(), 2);
    assert_eq!(table.find("rust", "wasmImportFloat32Param"), Some(0));
    assert_eq!(table.find("wasi", "thread-spawn"), Some(1));
    assert_eq!(
        table.binding(0).signature,
        ImportSignature {
            namespace: "rust".to_string(),
            name: "wasmImportFloat32Param".to_string(),
            params: vec![ValueKind::F32],
            results: vec![],
        }
    );
    assert_eq!(table.binding(1).signature.results, vec![ValueKind::I32]);
}

#[test]
fn register_refuses_a_duplicate_and_keeps_the_first_binding() {
    let mut registry: ImportRegistry<Implementation> = ImportRegistry::new();
    registry
        .register("env".to_string(), "answer".to_string(), vec![], vec![ValueKind::I32], forty_two)
        .expect("a first registration is accepted");
    let again = registry.register(
        "env".to_string(),
        "answer".to_string(),
        vec![ValueKind::I64],
        vec![],
        nothing,
    );
    assert_eq!(
        again,
        Err(RegistryError::DuplicateImport {
            namespace: "env".to_string(),
            name: "answer".to_string()
        })
    );
    assert_eq!(registry.len(), 1);

    let table = registry.finalize();
    let kept = table.binding(0);
    assert_eq!(kept.signature.params, Vec::<ValueKind>::new());
    assert_eq!(kept.signature.results, vec![ValueKind::I32]);
    let results = table.invoke("env", "answer", vec![]).expect("the first binding answers");
    assert_eq!(results.len(), 1);
    assert_eq!(results[0], HostValue::I32(42));
}

#[test]
fn the_same_name_in_another_namespace_is_no_duplicate() {
    let mut registry: ImportRegistry<Implementation> = ImportRegistry::new();
    assert!(registry
        .register("a".to_string(), "f".to_string(), vec![], vec![], nothing)
        .is_ok());
    assert!(registry
        .register("b".to_string(), "f".to_string(), vec![], vec![], nothing)
        .is_ok());
    assert!(registry
        .register("a".to_string(), "g".to_string(), vec![], vec![], nothing)
        .is_ok());
    assert_eq!(registry.len(), 3);
    let table = registry.finalize();
    assert!(table.contains("b", "f"));
    assert!(!table.contains("b", "g"));
    assert_eq!(table.find("b", "g"), None);
}

#[test]
fn invoke_calls_the_implementation_on_matching_arguments() {
    let mut registry: ImportRegistry<Implementation> = ImportRegistry::new();
    registry
        .register(
            "math".to_string(),
            "sum".to_string(),
            vec![ValueKind::I32, ValueKind::I32],
            vec![ValueKind::I32],
            sum,
        )
        .expect("a first registration is accepted");
    let table = registry.finalize();
    let results = table
        .invoke("math", "sum", vec![i32_value(40), i32_value(2)])
        .expect("the call is served");
    assert_eq!(results.len(), 1);
    assert_eq!(results[0].kind(), ValueKind::I32);
    assert_eq!(results[0], HostValue::I32(42));
}

#[test]
fn invoke_reports_an_unknown_import() {
    let table = ImportRegistry::<Implementation>::new().finalize();
    assert_eq!(table.invoke("math", "sum", vec![]).err(), Some(InvokeError::UnknownImport));
}

#[test]
fn invoke_refuses_arguments_of_the_wrong_number_or_kind() {
    let mut registry: ImportRegistry<Implementation> = ImportRegistry::new();
    registry
        .register(
            "math".to_string(),
            "sum".to_string(),
            vec![ValueKind::I32, ValueKind::I32],
            vec![ValueKind::I32],
            sum,
        )
        .expect("a first registration is accepted");
    let table = registry.finalize();
    assert_eq!(
        table.invoke("math", "sum", vec![i32_value(1)]).err(),
        Some(InvokeError::ArgumentMismatch)
    );
    let wide = HostValue::I64(1);
    assert_eq!(
        table.invoke("math", "sum", vec![i32_value(1), wide]).err(),
        Some(InvokeError::ArgumentMismatch)
    );
}

#[test]
fn an_implementation_that_returns_no_result_for_a_declared_one_breaks_its_contract() {
    let signature = ImportSignature::new(
        "env".to_string(),
        "status".to_string(),
        vec![],
        vec![ValueKind::I32],
    );
    let silent: Implementation = nothing;
    assert_eq!(
        answer_call(&signature, &silent, vec![]).err(),
        Some(InvokeError::ContractViolation)
    );
}

#[test]
fn results_are_neither_truncated_nor_converted() {
    let signature = ImportSignature::new(
        "env".to_string(),
        "status".to_string(),
        vec![],
        vec![ValueKind::I32],
    );
    let too_many: Implementation = two_results;
    assert_eq!(
        answer_call(&signature, &too_many, vec![]).err(),
        Some(InvokeError::ContractViolation)
    );
    let wrong_kind: Implementation = wide_result;
    assert_eq!(
        answer_call(&signature, &wrong_kind, vec![]).err(),
        Some(InvokeError::ContractViolation)
    );
    let right: Implementation = forty_two;
    let results = answer_call(&signature, &right, vec![]).expect("the results match");
    assert_eq!(results[0], HostValue::I32(42));
}

#[test]
fn check_results_passes_matching_results_unchanged() {
    let signature = ImportSignature::new(
        "env".to_string(),
        "pair".to_string(),
        vec![],
        vec![ValueKind::I32, ValueKind::F64],
    );
    let produced = vec![i32_value(5), HostValue::F64(wasmer::Value::F64(1.5))];
    let passed = signature.check_results(produced).expect("the kinds match");
    assert_eq!(passed.len(), 2);
    assert_eq!(passed[0], HostValue::I32(5));
    assert_eq!(passed[1], HostValue::F64(wasmer::Value::F64(1.5)));
    assert_eq!(
        signature.check_results(vec![i32_value(5)]).err(),
        Some(InvokeError::ContractViolation)
    );
}

#[test]
fn a_signature_knows_its_name_and_shape() {
    let signature = ImportSignature::new(
        "rust".to_string(),
        "wasmImportFloat32Param".to_string(),
        vec![ValueKind::F32],
        vec![],
    );
    assert!(signature.is_named("rust", "wasmImportFloat32Param"));
    assert!(!signature.is_named("rust", "other"));
    assert!(!signature.is_named("wasi", "wasmImportFloat32Param"));
    assert!(signature.same_shape(&vec![ValueKind::F32], &vec![]));
    assert!(!signature.same_shape(&vec![ValueKind::F64], &vec![]));
    assert!(!signature.same_shape(&vec![ValueKind::F32], &vec![ValueKind::I32]));
    assert!(signature.accepts(&vec![HostValue::F32(wasmer::Value::F32(0.5))]));
    assert!(!signature.accepts(&vec![]));
    assert!(!signature.accepts(&vec![i32_value(1)]));
}
