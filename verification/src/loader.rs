//! Loading: raw guest bytecode becomes a validated module unit under a
//! declared feature set.

use crate::features::FeatureSet;
use crate::kinds::{kind_from_type, kinds_of_types, ValueKind};
use crate::signature::ImportKey;
use vstd::prelude::*;

verus! {

/// What sort of item a module asks its host for.
#[derive(Clone, Debug, PartialEq, Eq)]
pub enum ImportKind {
    /// A function with the given parameter and result kinds.
    Function { params: Vec<ValueKind>, results: Vec<ValueKind> },
    Global,
    Table,
    Memory,
    Tag,
}

/// What an import kind says, as mathematical sequences.
pub enum ImportKindView {
    Function { params: Seq<ValueKind>, results: Seq<ValueKind> },
    Global,
    Table,
    Memory,
    Tag,
}

impl View for ImportKind {
    type V = ImportKindView;

    open spec fn view(&self) -> ImportKindView {
        match self {
            ImportKind::Function { params, results } => ImportKindView::Function {
                params: params@,
                results: results@,
            },
            ImportKind::Global => ImportKindView::Global,
            ImportKind::Table => ImportKindView::Table,
            ImportKind::Memory => ImportKindView::Memory,
            ImportKind::Tag => ImportKindView::Tag,
        }
    }
}

/// One import that a module declares: where it expects the item and what it
/// expects there.
#[derive(Clone, Debug, PartialEq, Eq)]
pub struct ImportDeclaration {
    pub namespace: String,
    pub name: String,
    pub kind: ImportKind,
}

/// What a declaration says.
pub struct DeclarationView {
    pub key: ImportKey,
    pub kind: ImportKindView,
}

impl View for ImportDeclaration {
    type V = DeclarationView;

    open spec fn view(&self) -> DeclarationView {
        DeclarationView { key: (self.namespace@, self.name@), kind: self.kind@ }
    }
}

/// The views of a list of declarations, in order.
pub open spec fn declaration_views(declarations: Seq<ImportDeclaration>) -> Seq<DeclarationView> {
    Seq::new(declarations.len(), |i: int| declarations[i]@)
}

/// The broad reason for which bytecode was refused.
#[derive(Clone, Copy, Debug, PartialEq, Eq, Structural)]
pub enum LoadErrorKind {
    /// The bytes are not well-formed bytecode.
    Malformed,
    /// The bytecode did not pass validation under the feature set.
    Validation,
    /// The bytecode relies on a feature that the runtime does not support,
    /// whatever the feature set allows.
    UnsupportedFeature,
    /// The module could not be compiled for this host.
    Compilation,
}

/// Bytecode was refused: loading failed.
#[derive(Clone, Debug, PartialEq, Eq)]
pub struct LoadError {
    pub kind: LoadErrorKind,
    pub reason: String,
}

/// Why the runtime could not translate bytes: the variants of its
/// translation error, one for one.
#[derive(Clone, Copy, Debug, PartialEq, Eq, Structural)]
pub enum TranslationFault {
    InvalidWebAssembly,
    Unsupported,
    ImplLimitExceeded,
    Middleware,
    Generic,
}

/// Why the runtime refused to compile bytes: the variants of its compile
/// error, one for one.
#[derive(Clone, Copy, Debug, PartialEq, Eq, Structural)]
pub enum CompileFault {
    Wasm(TranslationFault),
    Codegen,
    Validate,
    UnsupportedFeature,
    UnsupportedTarget,
    Resource,
    Middleware,
}

/// A refusal of the runtime to compile bytes: its fault and its message.
#[derive(Clone, Debug, PartialEq, Eq)]
pub struct Refusal {
    pub fault: CompileFault,
    pub text: String,
}

/// A module that the runtime compiled, with the imports it declares, in the
/// order of its bytecode.
pub struct Compiled {
    pub module: wasmer::Module,
    pub declared: Vec<ImportDeclaration>,
}

/// A loaded module: the compiled bytecode, the imports it declares and the
/// feature set it was loaded under. It never changes after loading and may
/// be shared between instantiations.
pub struct ModuleUnit {
    engine: wasmer::Engine,
    module: wasmer::Module,
    imports: Vec<ImportDeclaration>,
    features: FeatureSet,
}

/// The item that an import of a module expects, with the runtime's own
/// types for a function's parameters and results.
pub enum DeclaredItem {
    Function(Vec<wasmer::Type>, Vec<wasmer::Type>),
    Global,
    Table,
    Memory,
    Tag,
}

/// Builds the compiling engine for a feature set: `wasmer::sys::Features::default`,
/// its setters for the five toggles, and `wasmer::sys::EngineBuilder` (`new`
/// with the Cranelift compiler, `set_features`, `engine`).
#[verifier::external_body]
fn engine_for(features: &FeatureSet) -> wasmer::Engine {
    let mut enabled = wasmer::sys::Features::default();
    enabled.reference_types(features.reference_types);
    enabled.multi_memory(features.multi_memory);
    enabled.module_linking(features.module_linking);
    enabled.tail_call(features.tail_call);
    enabled.threads(features.threads);
    let compiler = wasmer_compiler_cranelift::Cranelift::default();
    wasmer::sys::EngineBuilder::new(compiler).set_features(Some(enabled)).engine().into()
}

/// `wasmer::Module::new`: parses, validates and compiles the bytes. Nothing
/// is claimed of the outcome.
#[verifier::external_body]
fn compile_module(engine: &wasmer::Engine, bytes: &[u8]) -> Result<
    wasmer::Module,
    wasmer::CompileError,
> {
    wasmer::Module::new(engine, bytes)
}

/// The fault that a compile error of the runtime stands for: its variant
/// and, of a translation error, the variant of that.
pub uninterp spec fn compile_fault_of(error: wasmer::CompileError) -> CompileFault;

/// The message of a compile error of the runtime, as its `Display` gives
/// it.
pub uninterp spec fn compile_message(error: wasmer::CompileError) -> Seq<char>;

/// Tells the variants of `wasmer::CompileError` apart and, of a
/// translation error, those of `wasmer::WasmError`.
#[verifier::external_body]
fn compile_fault(error: &wasmer::CompileError) -> (fault: CompileFault)
    ensures
        fault == compile_fault_of(*error),
{
    match error {
        wasmer::CompileError::Wasm(inner) => CompileFault::Wasm(match inner {
            wasmer::WasmError::InvalidWebAssembly { .. } => TranslationFault::InvalidWebAssembly,
            wasmer::WasmError::Unsupported(_) => TranslationFault::Unsupported,
            wasmer::WasmError::ImplLimitExceeded => TranslationFault::ImplLimitExceeded,
            wasmer::WasmError::Middleware(_) => TranslationFault::Middleware,
            wasmer::WasmError::Generic(_) => TranslationFault::Generic,
        }),
        wasmer::CompileError::Codegen(_) => CompileFault::Codegen,
        wasmer::CompileError::Validate(_) => CompileFault::Validate,
        wasmer::CompileError::UnsupportedFeature(_) => CompileFault::UnsupportedFeature,
        wasmer::CompileError::UnsupportedTarget(_) => CompileFault::UnsupportedTarget,
        wasmer::CompileError::Resource(_) => CompileFault::Resource,
        wasmer::CompileError::MiddlewareError(_) => CompileFault::Middleware,
    }
}

/// The message of a `wasmer::CompileError`, as its `Display` gives it.
#[verifier::external_body]
fn compile_error_text(error: &wasmer::CompileError) -> (text: String)
    ensures
        text@ == compile_message(*error),
{
    error.to_string()
}

/// The imports that a compiled module declares, in the order of its
/// bytecode.
pub uninterp spec fn imports_of(module: wasmer::Module) -> Seq<wasmer::ImportType<wasmer::ExternType>>;

/// The namespace that an import is expected in.
pub uninterp spec fn namespace_of(import: wasmer::ImportType<wasmer::ExternType>) -> Seq<char>;

/// The name that an import is expected under.
pub uninterp spec fn name_of(import: wasmer::ImportType<wasmer::ExternType>) -> Seq<char>;

/// The item that an import expects: the variant of its type and, of a
/// function, its parameter and result types.
pub uninterp spec fn item_of(import: wasmer::ImportType<wasmer::ExternType>) -> DeclaredItem;

/// `wasmer::Module::imports`: the imports that the module declares, in the
/// order of its bytecode.
#[verifier::external_body]
fn module_imports(module: &wasmer::Module) -> (imports: Vec<wasmer::ImportType<wasmer::ExternType>>)
    ensures
        imports@ == imports_of(*module),
{
    module.imports().collect()
}

/// `wasmer::ImportType::module`: the namespace an import is expected in.
#[verifier::external_body]
fn import_namespace(import: &wasmer::ImportType<wasmer::ExternType>) -> (namespace: String)
    ensures
        namespace@ == namespace_of(*import),
{
    import.module().to_string()
}

/// `wasmer::ImportType::name`: the name an import is expected under.
#[verifier::external_body]
fn import_name(import: &wasmer::ImportType<wasmer::ExternType>) -> (name: String)
    ensures
        name@ == name_of(*import),
{
    import.name().to_string()
}

/// `wasmer::ImportType::ty`: tells the variants of `wasmer::ExternType`
/// apart and, of a function, hands out `FunctionType::params` and
/// `FunctionType::results`.
#[verifier::external_body]
fn declared_item(import: &wasmer::ImportType<wasmer::ExternType>) -> (item: DeclaredItem)
    ensures
        item == item_of(*import),
{
    match import.ty() {
        wasmer::ExternType::Function(f) => DeclaredItem::Function(
            f.params().to_vec(),
            f.results().to_vec(),
        ),
        wasmer::ExternType::Global(_) => DeclaredItem::Global,
        wasmer::ExternType::Table(_) => DeclaredItem::Table,
        wasmer::ExternType::Memory(_) => DeclaredItem::Memory,
        wasmer::ExternType::Tag(_) => DeclaredItem::Tag,
    }
}

/// The kinds of a list of runtime types, one for one.
fn kinds_from_types(types: &Vec<wasmer::Type>) -> (kinds: Vec<ValueKind>)
    ensures
        kinds@ == kinds_of_types(types@),
{
    let mut kinds: Vec<ValueKind> = Vec::new();
    let mut i: usize = 0;
    while i < types.len()
        invariant
            i <= types.len(),
            kinds@ == kinds_of_types(types@.take(i as int)),
        decreases types.len() - i,
    {
        let ghost before = kinds@;
        let kind = kind_from_type(&types[i]);
        kinds.push(kind);
        assert(types@.take(i as int + 1) =~= types@.take(i as int).push(types@[i as int]));
        assert(kinds_of_types(types@.take(i as int).push(types@[i as int])) =~= before.push(kind));
        i += 1;
    }
    assert(types@.take(types@.len() as int) =~= types@);
    kinds
}

/// The sort of import that an item stands for, with the kinds of a
/// function's parameters and results.
pub open spec fn kind_view_of(item: DeclaredItem) -> ImportKindView {
    match item {
        DeclaredItem::Function(params, results) => ImportKindView::Function {
            params: kinds_of_types(params@),
            results: kinds_of_types(results@),
        },
        DeclaredItem::Global => ImportKindView::Global,
        DeclaredItem::Table => ImportKindView::Table,
        DeclaredItem::Memory => ImportKindView::Memory,
        DeclaredItem::Tag => ImportKindView::Tag,
    }
}

/// What an import of the runtime declares, in the library's own terms.
pub open spec fn declared_view(import: wasmer::ImportType<wasmer::ExternType>) -> DeclarationView {
    DeclarationView {
        key: (namespace_of(import), name_of(import)),
        kind: kind_view_of(item_of(import)),
    }
}

/// What a compiled module declares as its imports, in the library's own
/// terms and in the order of its bytecode.
pub open spec fn declared_by(module: wasmer::Module) -> Seq<DeclarationView> {
    Seq::new(imports_of(module).len(), |i: int| declared_view(imports_of(module)[i]))
}

/// The declaration of an import that is expected under `namespace` and
/// `name` and asks for `item`.
fn declaration_of(namespace: String, name: String, item: DeclaredItem) -> (declaration:
    ImportDeclaration)
    ensures
        declaration@ == (DeclarationView { key: (namespace@, name@), kind: kind_view_of(item) }),
{
    let kind = match &item {
        DeclaredItem::Function(params, results) => ImportKind::Function {
            params: kinds_from_types(params),
            results: kinds_from_types(results),
        },
        DeclaredItem::Global => ImportKind::Global,
        DeclaredItem::Table => ImportKind::Table,
        DeclaredItem::Memory => ImportKind::Memory,
        DeclaredItem::Tag => ImportKind::Tag,
    };
    ImportDeclaration { namespace, name, kind }
}

/// Describes one declared import in the library's own terms.
fn describe_import(import: &wasmer::ImportType<wasmer::ExternType>) -> (declaration:
    ImportDeclaration)
    ensures
        declaration@ == declared_view(*import),
{
    declaration_of(import_namespace(import), import_name(import), declared_item(import))
}

impl ModuleUnit {
    /// The imports that the module declares, in the order of its bytecode.
    pub closed spec fn declarations(&self) -> Seq<DeclarationView> {
        declaration_views(self.imports@)
    }

    /// The feature set the module was loaded under.
    pub closed spec fn spec_features(&self) -> FeatureSet {
        self.features
    }

    /// The compiled module.
    pub closed spec fn spec_module(&self) -> wasmer::Module {
        self.module
    }

    /// The engine that compiled the module.
    pub closed spec fn spec_engine(&self) -> wasmer::Engine {
        self.engine
    }

    /// The feature set the module was loaded under.
    #[verifier::when_used_as_spec(spec_features)]
    pub fn features(&self) -> (features: FeatureSet)
        ensures
            features == self.spec_features(),
    {
        self.features
    }

    /// The imports that the module declares, in the order of its bytecode.
    pub fn imports(&self) -> (imports: &Vec<ImportDeclaration>)
        ensures
            declaration_views(imports@) == self.declarations(),
    {
        &self.imports
    }

    /// The compiled module, for the runtime to instantiate.
    pub fn module(&self) -> (module: &wasmer::Module)
        ensures
            *module == self.spec_module(),
    {
        &self.module
    }

    /// The engine that compiled the module; a store for its instances is
    /// made from it.
    pub fn engine(&self) -> (engine: &wasmer::Engine)
        ensures
            *engine == self.spec_engine(),
    {
        &self.engine
    }
}

/// The kind of load error that a fault of the runtime stands for. Bytes
/// that cannot be translated are malformed, unless the translation meets a
/// feature it does not support. Failed validation is its own kind. What is
/// left (code generation, the target, resources, middleware) is a failure
/// to compile for this host.
pub open spec fn kind_of_fault(fault: CompileFault) -> LoadErrorKind {
    match fault {
        CompileFault::Wasm(TranslationFault::Unsupported) => LoadErrorKind::UnsupportedFeature,
        CompileFault::Wasm(_) => LoadErrorKind::Malformed,
        CompileFault::Validate => LoadErrorKind::Validation,
        CompileFault::UnsupportedFeature => LoadErrorKind::UnsupportedFeature,
        CompileFault::Codegen => LoadErrorKind::Compilation,
        CompileFault::UnsupportedTarget => LoadErrorKind::Compilation,
        CompileFault::Resource => LoadErrorKind::Compilation,
        CompileFault::Middleware => LoadErrorKind::Compilation,
    }
}

/// The kind of load error that a fault of the runtime stands for.
pub fn classify(fault: CompileFault) -> (kind: LoadErrorKind)
    ensures
        kind == kind_of_fault(fault),
{
    match fault {
        CompileFault::Wasm(TranslationFault::Unsupported) => LoadErrorKind::UnsupportedFeature,
        CompileFault::Wasm(_) => LoadErrorKind::Malformed,
        CompileFault::Validate => LoadErrorKind::Validation,
        CompileFault::UnsupportedFeature => LoadErrorKind::UnsupportedFeature,
        CompileFault::Codegen => LoadErrorKind::Compilation,
        CompileFault::UnsupportedTarget => LoadErrorKind::Compilation,
        CompileFault::Resource => LoadErrorKind::Compilation,
        CompileFault::Middleware => LoadErrorKind::Compilation,
    }
}

/// What becomes of the outcome of a compilation. A compiled module becomes
/// a module unit with that engine, module and list of declared imports,
/// under `features`. A refusal becomes the load error of the kind that its
/// fault stands for, with the runtime's message as its reason.
pub fn unit_of(engine: wasmer::Engine, outcome: Result<Compiled, Refusal>, features: FeatureSet) -> (r:
    Result<ModuleUnit, LoadError>)
    ensures
        match outcome {
            Ok(compiled) => r matches Ok(unit) && unit.spec_features() == features
                && unit.spec_engine() == engine && unit.spec_module() == compiled.module
                && unit.declarations() == declaration_views(compiled.declared@),
            Err(refusal) => r matches Err(error) && error.kind == kind_of_fault(refusal.fault)
                && error.reason == refusal.text,
        },
{
    match outcome {
        Ok(compiled) => Ok(
            ModuleUnit {
                engine,
                module: compiled.module,
                imports: compiled.declared,
                features,
            },
        ),
        Err(refusal) => Err(LoadError { kind: classify(refusal.fault), reason: refusal.text }),
    }
}

/// The imports that a compiled module declares, in the library's own
/// terms and in the order of the bytecode.
fn declared_imports(module: &wasmer::Module) -> (imports: Vec<ImportDeclaration>)
    ensures
        declaration_views(imports@) == declared_by(*module),
{
    let declared = module_imports(module);
    let mut imports: Vec<ImportDeclaration> = Vec::new();
    let mut i: usize = 0;
    while i < declared.len()
        invariant
            i <= declared.len(),
            declared@ == imports_of(*module),
            imports@.len() == i,
            forall|j: int| 0 <= j < i ==> (#[trigger] imports@[j])@ == declared_view(declared@[j]),
        decreases declared.len() - i,
    {
        imports.push(describe_import(&declared[i]));
        i += 1;
    }
    assert(declaration_views(imports@) =~= declared_by(*module));
    imports
}

/// Parses, validates and compiles `bytes` under `features`. Whether the
/// bytes are accepted is for the runtime and the machine to decide. What
/// came back, the compiled module with its declared imports or the refusal
/// with its fault and message, is handed to `unit_of`, which says what
/// becomes of each. A unit lists the imports that its module declares.
pub fn load(bytes: &[u8], features: &FeatureSet) -> (r: Result<ModuleUnit, LoadError>)
    ensures
        r matches Ok(unit) ==> unit.spec_features() == *features && unit.declarations()
            == declared_by(unit.spec_module()),
        r matches Err(error) ==> exists|refused: wasmer::CompileError|
            error.kind == kind_of_fault(#[trigger] compile_fault_of(refused)) && error.reason@
                == compile_message(refused),
{
    let engine = engine_for(features);
    let outcome = match compile_module(&engine, bytes) {
        Ok(module) => {
            let declared = declared_imports(&module);
            Ok(Compiled { module, declared })
        },
        Err(error) => {
            let refusal = Refusal {
                fault: compile_fault(&error),
                text: compile_error_text(&error),
            };
            assert(refusal.fault == compile_fault_of(error) && refusal.text@ == compile_message(
                error,
            ));
            Err(refusal)
        },
    };
    unit_of(engine, outcome, *features)
}

} // verus!
