use wasi_harness::features::FeatureSet;
use wasi_harness::kinds::ValueKind;
use wasi_harness::loader::{
    classify, load, unit_of, CompileFault, Compiled, ImportDeclaration, ImportKind, LoadError,
    LoadErrorKind, Refusal, TranslationFault,
};

#[test]
fn load_accepts_an_empty_module() {
    let unit = load(b"(module)", &FeatureSet::all()).expect("an empty module loads");
    assert!(unit.imports().is_empty());
    assert_eq!(unit.features(), FeatureSet::all());
}

#[test]
fn load_lists_declared_imports_in_order() {
    let text = br#"(module
        (import "rust" "wasmImportFloat32Param" (func (param f32)))
        (import "env" "memory" (memory 1))
        (import "env" "status" (func (param i32 i64) (result i32))))"#;
    let unit = load(text, &FeatureSet::all()).expect("the module loads");
    let imports = unit.imports();
    assert_eq!(imports.len(), 3);
    assert_eq!(imports[0].namespace, "rust");
    assert_eq!(imports[0].name, "wasmImportFloat32Param");
    assert_eq!(
        imports[0].kind,
        ImportKind::Function { params: vec![ValueKind::F32], results: vec![] }
    );
    assert_eq!(imports[1].namespace, "env");
    assert_eq!(imports[1].name, "memory");
    assert_eq!(imports[1].kind, ImportKind::Memory);
    assert_eq!(
        imports[2].kind,
        ImportKind::Function {
            params: vec![ValueKind::I32, ValueKind::I64],
            results: vec![ValueKind::I32]
        }
    );
}

#[test]
fn load_rejects_malformed_bytes() {
    let error = match load(b"this is not bytecode", &FeatureSet::all()) {
        Ok(_) => panic!("garbage must not load"),
        Err(error) => error,
    };
    assert_eq!(error.kind, LoadErrorKind::Malformed);
    assert!(!error.reason.is_empty());
}

#[test]
fn load_rejects_bytecode_that_fails_validation() {
    // A binary module whose only function body leaves an i32 on the stack
    // although its type declares no result.
    let bytes: [u8; 25] = [
        0x00, 0x61, 0x73, 0x6d, 0x01, 0x00, 0x00, 0x00, // header
        0x01, 0x04, 0x01, 0x60, 0x00, 0x00, // type section: () -> ()
        0x03, 0x02, 0x01, 0x00, // function section
        0x0a, 0x06, 0x01, 0x04, 0x00, 0x41, 0x00, // code: i32.const 0 (no end)
    ];
    let error = match load(&bytes, &FeatureSet::all()) {
        Ok(_) => panic!("invalid bytecode must not load"),
        Err(error) => error,
    };
    assert_eq!(error.kind, LoadErrorKind::Validation);
    assert!(error.reason.contains("unexpected end-of-file"));
}

#[test]
fn load_rejects_what_the_feature_set_does_not_cover() {
    let shared_memory = br#"(module (memory 1 1 shared))"#;
    assert!(load(shared_memory, &FeatureSet::all()).is_ok());
    let without_threads = FeatureSet { threads: false, ..FeatureSet::all() };
    let error = match load(shared_memory, &without_threads) {
        Ok(_) => panic!("shared memory needs thread support"),
        Err(error) => error,
    };
    assert_eq!(error.kind, LoadErrorKind::Validation);
    assert!(!error.reason.is_empty());
}

#[test]
fn a_loaded_module_keeps_its_feature_set() {
    let features = FeatureSet { tail_call: false, ..FeatureSet::all() };
    let unit = load(b"(module)", &features).expect("an empty module loads");
    assert_eq!(unit.features(), features);
    assert!(unit.module().imports().next().is_none());
}

#[test]
fn load_rejects_a_body_of_the_wrong_type() {
    let text = br#"(module (func (export "f") (result i32) i64.const 1))"#;
    let error = match load(text, &FeatureSet::all()) {
        Ok(_) => panic!("the body has the wrong type"),
        Err(error) => error,
    };
    assert_eq!(error.kind, LoadErrorKind::Validation);
    assert!(error.reason.contains("type mismatch"));
}

#[test]
fn load_accepts_several_memories_only_under_the_feature() {
    let text = br#"(module (memory 1) (memory 1))"#;
    assert!(load(text, &FeatureSet::all()).is_ok());
    let single = FeatureSet { multi_memory: false, ..FeatureSet::all() };
    let error = match load(text, &single) {
        Ok(_) => panic!("several memories need the feature"),
        Err(error) => error,
    };
    assert_eq!(error.kind, LoadErrorKind::Validation);
}

#[test]
fn load_reports_a_feature_that_the_runtime_does_not_support() {
    let text = br#"(module (func $f (return_call $f)))"#;
    let error = match load(text, &FeatureSet::all()) {
        Ok(_) => panic!("tail calls are not compiled"),
        Err(error) => error,
    };
    assert_eq!(error.kind, LoadErrorKind::UnsupportedFeature);
    assert!(error.reason.contains("tail-call"));

    let without = FeatureSet { tail_call: false, ..FeatureSet::all() };
    let error = match load(text, &without) {
        Ok(_) => panic!("tail calls need the feature"),
        Err(error) => error,
    };
    assert_eq!(error.kind, LoadErrorKind::Validation);
}

#[test]
fn load_rejects_no_bytes_at_all() {
    let error = match load(&[], &FeatureSet::all()) {
        Ok(_) => panic!("no bytes are no module"),
        Err(error) => error,
    };
    assert_eq!(error.kind, LoadErrorKind::Malformed);
}

#[test]
fn an_empty_module_loads_under_every_feature_set() {
    assert!(load(b"(module)", &FeatureSet::none()).is_ok());
    assert!(load(b"(module)", &FeatureSet::all()).is_ok());
}

#[test]
fn load_tells_the_sorts_of_imports_apart() {
    let text = br#"(module
        (import "env" "counter" (global i32))
        (import "env" "functions" (table 1 funcref))
        (import "env" "memory" (memory 1))
        (import "env" "references" (func (param externref funcref) (result v128))))"#;
    let unit = load(text, &FeatureSet::all()).expect("the module loads");
    let imports = unit.imports();
    assert_eq!(imports.len(), 4);
    assert_eq!(imports[0].kind, ImportKind::Global);
    assert_eq!(imports[1].kind, ImportKind::Table);
    assert_eq!(imports[2].kind, ImportKind::Memory);
    assert_eq!(
        imports[3].kind,
        ImportKind::Function {
            params: vec![ValueKind::ExternRef, ValueKind::FuncRef],
            results: vec![ValueKind::V128]
        }
    );
    assert_eq!(imports[3].name, "references");
}

#[test]
fn classify_sorts_the_faults_of_the_runtime() {
    assert_eq!(
        classify(CompileFault::Wasm(TranslationFault::Unsupported)),
        LoadErrorKind::UnsupportedFeature
    );
    assert_eq!(
        classify(CompileFault::Wasm(TranslationFault::InvalidWebAssembly)),
        LoadErrorKind::Malformed
    );
    assert_eq!(
        classify(CompileFault::Wasm(TranslationFault::ImplLimitExceeded)),
        LoadErrorKind::Malformed
    );
    assert_eq!(classify(CompileFault::Wasm(TranslationFault::Middleware)), LoadErrorKind::Malformed);
    assert_eq!(classify(CompileFault::Wasm(TranslationFault::Generic)), LoadErrorKind::Malformed);
    assert_eq!(classify(CompileFault::Validate), LoadErrorKind::Validation);
    assert_eq!(classify(CompileFault::UnsupportedFeature), LoadErrorKind::UnsupportedFeature);
    assert_eq!(classify(CompileFault::Codegen), LoadErrorKind::Compilation);
    assert_eq!(classify(CompileFault::UnsupportedTarget), LoadErrorKind::Compilation);
    assert_eq!(classify(CompileFault::Resource), LoadErrorKind::Compilation);
    assert_eq!(classify(CompileFault::Middleware), LoadErrorKind::Compilation);
}

#[test]
fn unit_of_keeps_what_was_compiled() {
    let store = wasmer::Store::default();
    let engine = store.engine().clone();
    let module = wasmer::Module::new(&engine, "(module)").expect("an empty module compiles");
    let declared = vec![ImportDeclaration {
        namespace: "env".to_string(),
        name: "memory".to_string(),
        kind: ImportKind::Memory,
    }];
    let features = FeatureSet { threads: false, ..FeatureSet::all() };
    let unit = unit_of(engine, Ok(Compiled { module, declared: declared.clone() }), features)
        .expect("a compiled module becomes a unit");
    assert_eq!(unit.features(), features);
    assert_eq!(unit.imports(), &declared);
    assert!(unit.module().imports().next().is_none());
}

#[test]
fn unit_of_turns_a_refusal_into_a_load_error() {
    let store = wasmer::Store::default();
    let engine = store.engine().clone();
    let refusal = Refusal { fault: CompileFault::Resource, text: "out of memory".to_string() };
    let error = match unit_of(engine, Err(refusal), FeatureSet::all()) {
        Ok(_) => panic!("a refusal is no unit"),
        Err(error) => error,
    };
    assert_eq!(
        error,
        LoadError { kind: LoadErrorKind::Compilation, reason: "out of memory".to_string() }
    );
}
