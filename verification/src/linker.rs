//! Linking: the standard import set of the runtime and the table of host
//! imports become one import set for a loaded module. An import of the table
//! takes precedence over a standard import of the same name; every other
//! standard import stays.

use crate::kinds::{
    kinds_of, mirrored, runtime_values, type_from_kind, types_of_kinds, HostValue, ValueKind,
};
use crate::loader::{declaration_views, DeclarationView, ImportDeclaration, ImportKindView, ModuleUnit};
use crate::registry::{
    all_callable, answer_call, call_outcome, callable, has_key, BindingView, ImportBinding,
    ImportTable,
};
use crate::signature::{ImportKey, ImportSignature, InvokeError};
use vstd::prelude::*;
use wasmer::InstantiationError;
use wasmer::LinkError as RuntimeLinkError;
use wasmer_types::ImportError;

verus! {

/// The pairs of namespace and name under which an import set of the
/// runtime holds an item.
pub uninterp spec fn defined_names(imports: wasmer::Imports) -> Set<ImportKey>;

/// `wasmer::Imports::exists`: whether the set holds an item under the
/// namespace and name.
#[verifier::external_body]
fn name_defined(imports: &wasmer::Imports, namespace: &str, name: &str) -> (defined: bool)
    ensures
        defined == defined_names(*imports).contains((namespace@, name@)),
{
    imports.exists(namespace, name)
}

/// `wasmer::FunctionType::new`, `wasmer::Function::new` and
/// `wasmer::Imports::define`: makes a host function of the given parameter
/// and result types, which answers each call through `serve_guest_call`, and
/// puts it into the set under the binding's namespace and name, in place of
/// whatever was there. Only the names of the set are claimed.
#[verifier::external_body]
fn define_function<F: Fn(Vec<HostValue>) -> Vec<HostValue> + Clone + Send + Sync + 'static>(
    imports: &mut wasmer::Imports,
    store: &mut wasmer::Store,
    params: Vec<wasmer::Type>,
    results: Vec<wasmer::Type>,
    binding: &ImportBinding<F>,
)
    requires
        callable(binding@),
        params@ == types_of_kinds(binding@.signature.params),
        results@ == types_of_kinds(binding@.signature.results),
    ensures
        defined_names(*final(imports)) == defined_names(*old(imports)).insert(
            binding@.signature.key(),
        ),
{
    let signature = binding.signature.clone();
    let implementation = binding.implementation.clone();
    let ty = wasmer::FunctionType::new(params, results);
    let function = wasmer::Function::new(
        store,
        ty,
        move |args| serve_guest_call(&signature, &implementation, args),
    );
    imports.define(&binding.signature.namespace, &binding.signature.name, function);
}

/// `wasmer::RuntimeError::new`: the fault that a host function raises in
/// the guest, with the given message.
#[verifier::external_body]
fn guest_fault(message: &str) -> wasmer::RuntimeError {
    wasmer::RuntimeError::new(message)
}

/// Whether `r` hands the outcome of a call back to the runtime: the value
/// of the runtime that each result stands for, in order, or a fault in the
/// guest where the call was refused or its results rejected.
pub open spec fn handed_back(
    outcome: Result<Vec<HostValue>, InvokeError>,
    r: Result<Vec<wasmer::Value>, wasmer::RuntimeError>,
) -> bool {
    match outcome {
        Ok(produced) => r matches Ok(results) && results@ == runtime_values(produced@),
        Err(_) => r is Err,
    }
}

/// Answers a call that a guest makes through the runtime: each argument is
/// taken into the library, the implementation is called under its
/// signature, and each of its results is handed back to the runtime. A
/// call with arguments of other kinds than declared, or results that break
/// the signature, fault in the guest.
fn serve_guest_call<F: Fn(Vec<HostValue>) -> Vec<HostValue>>(
    signature: &ImportSignature,
    implementation: &F,
    args: &[wasmer::Value],
) -> (r: Result<Vec<wasmer::Value>, wasmer::RuntimeError>)
    requires
        callable(BindingView { signature: signature@, implementation: *implementation }),
    ensures
        r matches Ok(results) ==> results@.len() == signature@.results.len(),
        exists|taken: Vec<HostValue>, outcome: Result<Vec<HostValue>, InvokeError>|
            taken@ == mirrored(args@) && #[trigger] call_outcome(
                BindingView { signature: signature@, implementation: *implementation },
                taken,
                outcome,
            ) && handed_back(outcome, r),
{
    let mut taken: Vec<HostValue> = Vec::new();
    let mut i: usize = 0;
    while i < args.len()
        invariant
            i <= args@.len(),
            taken@ == mirrored(args@.take(i as int)),
        decreases args@.len() - i,
    {
        let ghost before = taken@;
        let value = HostValue::from_runtime(&args[i]);
        taken.push(value);
        assert(args@.take(i as int + 1) =~= args@.take(i as int).push(args@[i as int]));
        assert(mirrored(args@.take(i as int).push(args@[i as int])) =~= before.push(value));
        i += 1;
    }
    assert(args@.take(args@.len() as int) =~= args@);
    let outcome = answer_call(signature, implementation, taken);
    let r = match outcome {
        Ok(produced) => {
            let mut results: Vec<wasmer::Value> = Vec::new();
            let mut j: usize = 0;
            assert(kinds_of(produced@).len() == signature@.results.len());
            while j < produced.len()
                invariant
                    j <= produced@.len(),
                    results@ == runtime_values(produced@.take(j as int)),
                decreases produced@.len() - j,
            {
                let ghost before = results@;
                let raw = produced[j].to_runtime();
                results.push(raw);
                assert(produced@.take(j as int + 1) =~= produced@.take(j as int).push(
                    produced@[j as int],
                ));
                assert(runtime_values(produced@.take(j as int).push(produced@[j as int]))
                    =~= before.push(raw));
                j += 1;
            }
            assert(produced@.take(produced@.len() as int) =~= produced@);
            Ok(results)
        },
        Err(InvokeError::ContractViolation) => Err(
            guest_fault("a host import returned results that do not have its declared result kinds"),
        ),
        Err(_) => Err(
            guest_fault(
                "a host import was called with arguments that do not have its declared parameter kinds",
            ),
        ),
    };
    assert(call_outcome(
        BindingView { signature: signature@, implementation: *implementation },
        taken,
        outcome,
    ) && handed_back(outcome, r));
    r
}

/// The runtime's types for a list of kinds, one for one.
fn runtime_types(kinds: &Vec<ValueKind>) -> (types: Vec<wasmer::Type>)
    ensures
        types@ == types_of_kinds(kinds@),
{
    let mut types: Vec<wasmer::Type> = Vec::new();
    let mut i: usize = 0;
    while i < kinds.len()
        invariant
            i <= kinds@.len(),
            types@ == types_of_kinds(kinds@.take(i as int)),
        decreases kinds@.len() - i,
    {
        let ghost before = types@;
        let ty = type_from_kind(kinds[i]);
        types.push(ty);
        assert(kinds@.take(i as int + 1) =~= kinds@.take(i as int).push(kinds@[i as int]));
        assert(types_of_kinds(kinds@.take(i as int).push(kinds@[i as int])) =~= before.push(ty));
        i += 1;
    }
    assert(kinds@.take(kinds@.len() as int) =~= kinds@);
    types
}

/// Where a declared import of a module is served from.
#[derive(Clone, Copy, Debug, PartialEq, Eq, Structural)]
pub enum ImportOrigin {
    /// The binding at this position of the table of host imports.
    Custom(usize),
    /// The standard import set of the runtime.
    Standard,
}

/// Why a declared import cannot be served.
#[derive(Clone, Copy, Debug, PartialEq, Eq, Structural)]
pub enum LinkFault {
    /// Neither the table nor the standard set holds the import.
    Missing,
    /// The table holds the import, but not as the function that the module
    /// declares.
    Mismatch,
}

/// Linking failed.
#[derive(Clone, Debug, PartialEq, Eq)]
pub enum LinkError {
    /// The module declares an import that neither the table of host imports
    /// nor the standard import set holds.
    MissingImport { namespace: String, name: String },
    /// The table of host imports holds the import under a signature that is
    /// not the one the module declares.
    TypeMismatch { namespace: String, name: String },
}

/// The position of a binding of `table` that is known under `key`.
pub open spec fn binding_position<F>(table: Seq<BindingView<F>>, key: ImportKey) -> int {
    choose|i: int| 0 <= i < table.len() && (#[trigger] table[i]).signature.key() == key
}

/// Where one declared import is served from, or why it cannot be served.
/// The table of host imports is asked first; its binding serves only a
/// function declared with exactly the binding's parameter and result kinds.
pub open spec fn origin_of<F>(
    declaration: DeclarationView,
    standard: Set<ImportKey>,
    table: Seq<BindingView<F>>,
) -> Result<ImportOrigin, LinkFault> {
    if has_key(table, declaration.key) {
        let position = binding_position(table, declaration.key);
        let signature = table[position].signature;
        if declaration.kind == (ImportKindView::Function {
            params: signature.params,
            results: signature.results,
        }) {
            Ok(ImportOrigin::Custom(position as usize))
        } else {
            Err(LinkFault::Mismatch)
        }
    } else if standard.contains(declaration.key) {
        Ok(ImportOrigin::Standard)
    } else {
        Err(LinkFault::Missing)
    }
}

/// Whether every declared import can be served.
pub open spec fn resolvable<F>(
    declarations: Seq<DeclarationView>,
    standard: Set<ImportKey>,
    table: Seq<BindingView<F>>,
) -> bool {
    forall|i: int|
        0 <= i < declarations.len() ==> origin_of(#[trigger] declarations[i], standard, table) is Ok
}

/// Whether some declared import has the fault `fault`.
pub open spec fn has_fault<F>(
    declarations: Seq<DeclarationView>,
    standard: Set<ImportKey>,
    table: Seq<BindingView<F>>,
    fault: LinkFault,
) -> bool {
    exists|i: int|
        0 <= i < declarations.len() && origin_of(#[trigger] declarations[i], standard, table) == Err::<
            ImportOrigin,
            LinkFault,
        >(fault)
}

/// Whether the declaration at `i` is the first with the fault `fault`.
pub open spec fn first_with_fault<F>(
    declarations: Seq<DeclarationView>,
    standard: Set<ImportKey>,
    table: Seq<BindingView<F>>,
    fault: LinkFault,
    i: int,
) -> bool {
    &&& 0 <= i < declarations.len()
    &&& origin_of(declarations[i], standard, table) == Err::<ImportOrigin, LinkFault>(fault)
    &&& forall|j: int|
        0 <= j < i ==> origin_of(#[trigger] declarations[j], standard, table) != Err::<
            ImportOrigin,
            LinkFault,
        >(fault)
}

/// Whether `r` is the resolution of `declarations` against the standard
/// names and the table. If every declaration can be served, it is the
/// origin of each, in order. If an import is missing, it is the error that
/// names the first missing import, whatever else is wrong. Otherwise it is
/// the error that names the first import that the table holds under another
/// signature.
pub open spec fn is_resolution<F>(
    declarations: Seq<DeclarationView>,
    standard: Set<ImportKey>,
    table: Seq<BindingView<F>>,
    r: Result<Vec<ImportOrigin>, LinkError>,
) -> bool {
    match r {
        Ok(origins) => {
            &&& origins@.len() == declarations.len()
            &&& forall|i: int|
                0 <= i < declarations.len() ==> origin_of(
                    #[trigger] declarations[i],
                    standard,
                    table,
                ) == Ok::<ImportOrigin, LinkFault>(origins@[i])
        },
        Err(LinkError::MissingImport { namespace, name }) => exists|i: int|
            first_with_fault(declarations, standard, table, LinkFault::Missing, i) && (
            #[trigger] declarations[i]).key == (namespace@, name@),
        Err(LinkError::TypeMismatch { namespace, name }) => !has_fault(
            declarations,
            standard,
            table,
            LinkFault::Missing,
        ) && exists|i: int|
            first_with_fault(declarations, standard, table, LinkFault::Mismatch, i) && (
            #[trigger] declarations[i]).key == (namespace@, name@),
    }
}

/// A module that declares an import which neither the standard set nor
/// the table of host imports holds cannot be linked: every resolution is
/// the error that names a missing import, the first that the module
/// declares, and so names this one if it is the only one missing.
pub proof fn lemma_missing_import_is_named<F>(
    declarations: Seq<DeclarationView>,
    standard: Set<ImportKey>,
    table: Seq<BindingView<F>>,
    r: Result<Vec<ImportOrigin>, LinkError>,
    i: int,
)
    requires
        is_resolution(declarations, standard, table, r),
        0 <= i < declarations.len(),
        !standard.contains(declarations[i].key),
        !has_key(table, declarations[i].key),
    ensures
        r matches Err(LinkError::MissingImport { namespace, name }) && exists|j: int|
            0 <= j <= i && (#[trigger] declarations[j]).key == (namespace@, name@)
                && !standard.contains(declarations[j].key) && !has_key(table, declarations[j].key),
{
    assert(origin_of(declarations[i], standard, table) == Err::<ImportOrigin, LinkFault>(
        LinkFault::Missing,
    ));
    assert(has_fault(declarations, standard, table, LinkFault::Missing));
    match r {
        Ok(origins) => {
            assert(false);
        },
        Err(LinkError::TypeMismatch { .. }) => {
            assert(false);
        },
        Err(LinkError::MissingImport { namespace, name }) => {
            let j = choose|j: int|
                first_with_fault(declarations, standard, table, LinkFault::Missing, j) && (
                #[trigger] declarations[j]).key == (namespace@, name@);
            assert(j <= i);
        },
    }
}

/// Where the declared import `declaration` is served from.
fn resolve_one<F>(
    declaration: &ImportDeclaration,
    standard: &wasmer::Imports,
    table: &ImportTable<F>,
) -> (r: Result<ImportOrigin, LinkFault>)
    ensures
        r == origin_of(declaration@, defined_names(*standard), table@),
{
    let namespace = declaration.namespace.as_str();
    let name = declaration.name.as_str();
    match table.find(namespace, name) {
        Some(position) => {
            let ghost key = declaration@.key;
            assert(table@[position as int].signature.key() == key);
            assert(has_key(table@, key));
            assert(binding_position(table@, key) == position) by {
                let chosen = binding_position(table@, key);
                assert(table@[chosen].signature.key() == key);
                if chosen < position {
                    assert(table@[chosen].signature.key() != table@[position as int].signature.key());
                } else if position < chosen {
                    assert(table@[position as int].signature.key() != table@[chosen].signature.key());
                }
            }
            let signature = &table.binding(position).signature;
            let fits = match &declaration.kind {
                crate::loader::ImportKind::Function { params, results } => signature.same_shape(
                    params,
                    results,
                ),
                _ => false,
            };
            if fits {
                Ok(ImportOrigin::Custom(position))
            } else {
                Err(LinkFault::Mismatch)
            }
        },
        None => {
            if name_defined(standard, namespace, name) {
                Ok(ImportOrigin::Standard)
            } else {
                Err(LinkFault::Missing)
            }
        },
    }
}

/// Resolves the imports that a module declares, in their order, against the
/// standard import set and the table of host imports. The table takes
/// precedence. A missing import is reported before any other fault, the
/// first missing one by its name; without a missing import, the first
/// import that the table holds under another signature is reported.
pub fn resolve<F>(
    declarations: &Vec<ImportDeclaration>,
    standard: &wasmer::Imports,
    table: &ImportTable<F>,
) -> (r: Result<Vec<ImportOrigin>, LinkError>)
    ensures
        is_resolution(declaration_views(declarations@), defined_names(*standard), table@, r),
        r is Ok <==> resolvable(declaration_views(declarations@), defined_names(*standard), table@),
{
    let ghost views = declaration_views(declarations@);
    let ghost names = defined_names(*standard);
    let mut origins: Vec<ImportOrigin> = Vec::new();
    let mut mismatch: Option<usize> = None;
    let mut i: usize = 0;
    while i < declarations.len()
        invariant
            i <= declarations@.len(),
            views == declaration_views(declarations@),
            names == defined_names(*standard),
            forall|j: int|
                0 <= j < i ==> origin_of(#[trigger] views[j], names, table@) != Err::<
                    ImportOrigin,
                    LinkFault,
                >(LinkFault::Missing),
            match mismatch {
                Some(m) => m < i && first_with_fault(views, names, table@, LinkFault::Mismatch, m as int),
                None => origins@.len() == i && forall|j: int|
                    0 <= j < i ==> origin_of(#[trigger] views[j], names, table@) == Ok::<
                        ImportOrigin,
                        LinkFault,
                    >(origins@[j]),
            },
        decreases declarations@.len() - i,
    {
        let declaration = &declarations[i];
        assert(views[i as int] == declaration@);
        match resolve_one(declaration, standard, table) {
            Ok(origin) => {
                if mismatch.is_none() {
                    origins.push(origin);
                }
            },
            Err(LinkFault::Missing) => {
                assert(first_with_fault(views, names, table@, LinkFault::Missing, i as int));
                return Err(
                    LinkError::MissingImport {
                        namespace: declaration.namespace.clone(),
                        name: declaration.name.clone(),
                    },
                );
            },
            Err(LinkFault::Mismatch) => {
                if mismatch.is_none() {
                    mismatch = Some(i);
                }
            },
        }
        i += 1;
    }
    match mismatch {
        Some(m) => {
            let declaration = &declarations[m];
            assert(views[m as int] == declaration@);
            Err(
                LinkError::TypeMismatch {
                    namespace: declaration.namespace.clone(),
                    name: declaration.name.clone(),
                },
            )
        },
        None => Ok(origins),
    }
}

/// The names under which a list of bindings is known.
pub open spec fn key_set<F>(bindings: Seq<BindingView<F>>) -> Set<ImportKey> {
    Set::new(|key: ImportKey| has_key(bindings, key))
}

/// Puts every binding of the table into the standard import set as a host
/// function. A binding replaces a standard import of the same name; every
/// other standard import stays.
pub fn merge<F: Fn(Vec<HostValue>) -> Vec<HostValue> + Clone + Send + Sync + 'static>(
    store: &mut wasmer::Store,
    standard: wasmer::Imports,
    table: &ImportTable<F>,
) -> (merged: wasmer::Imports)
    requires
        all_callable(table@),
    ensures
        defined_names(merged) == defined_names(standard).union(key_set(table@)),
{
    let mut imports = standard;
    let mut i: usize = 0;
    while i < table.len()
        invariant
            i <= table@.len(),
            all_callable(table@),
            defined_names(imports) == defined_names(standard).union(key_set(table@.take(i as int))),
        decreases table@.len() - i,
    {
        let binding = table.binding(i);
        let params = runtime_types(&binding.signature.params);
        let results = runtime_types(&binding.signature.results);
        let ghost before = defined_names(imports);
        define_function(&mut imports, store, params, results, binding);
        proof {
            let grown = table@.take(i as int + 1);
            let key = table@[i as int].signature.key();
            assert forall|k: ImportKey| key_set(grown).contains(k) <==> key_set(
                table@.take(i as int),
            ).insert(key).contains(k) by {
                if key_set(grown).contains(k) {
                    let j = choose|j: int| 0 <= j < grown.len() && (#[trigger] grown[j]).signature.key() == k;
                    if j < i {
                        assert(table@.take(i as int)[j].signature.key() == k);
                    }
                }
                if key_set(table@.take(i as int)).contains(k) {
                    let j = choose|j: int|
                        0 <= j < table@.take(i as int).len() && (#[trigger] table@.take(
                            i as int,
                        )[j]).signature.key() == k;
                    assert(grown[j].signature.key() == k);
                }
                if k == key {
                    assert(grown[i as int].signature.key() == k);
                }
            }
            assert(key_set(grown) =~= key_set(table@.take(i as int)).insert(key));
            assert(defined_names(imports) =~= defined_names(standard).union(key_set(grown)));
        }
        i += 1;
    }
    assert(table@.take(table@.len() as int) =~= table@);
    imports
}

/// Why the runtime did not accept an import: the variants of its import
/// error, one for one.
#[derive(Clone, Copy, Debug, PartialEq, Eq, Structural)]
pub enum ImportFault {
    IncompatibleType,
    UnknownImport,
    MemoryError,
}

/// Why the runtime could not instantiate a module: the variants of its
/// instantiation error and, of a link error, its variants, one for one.
#[derive(Clone, Debug, PartialEq, Eq)]
pub enum InstantiationFault {
    /// An import was not accepted for the module.
    Import { namespace: String, name: String, reason: ImportFault },
    LinkTrap,
    LinkResource,
    Start,
    CpuFeature,
    DifferentStores,
    DifferentArchOS,
}

/// A failed instantiation: the fault and the runtime's message.
#[derive(Clone, Debug, PartialEq, Eq)]
pub struct InstantiationFailure {
    pub fault: InstantiationFault,
    pub text: String,
}

/// The fault that an instantiation error of the runtime stands for: its
/// variant and, of an import error, the namespace, the name and the
/// variant of the reason.
pub uninterp spec fn fault_of(error: wasmer::InstantiationError) -> InstantiationFault;

/// The message of an instantiation error of the runtime, as its `Display`
/// gives it.
pub uninterp spec fn instantiation_message(error: wasmer::InstantiationError) -> Seq<char>;

/// Tells the variants of `wasmer::InstantiationError`, of `wasmer::LinkError`
/// and of `wasmer_types::ImportError` apart; of an import error the
/// namespace and the name are handed out.
#[verifier::external_body]
fn instantiation_fault(error: &InstantiationError) -> (fault: InstantiationFault)
    ensures
        fault == fault_of(*error),
{
    match error {
        InstantiationError::Link(RuntimeLinkError::Import(namespace, name, reason)) => InstantiationFault::Import {
            namespace: namespace.clone(), name: name.clone(), reason: match reason {
                ImportError::IncompatibleType(..) => ImportFault::IncompatibleType,
                ImportError::UnknownImport(_) => ImportFault::UnknownImport,
                ImportError::MemoryError(_) => ImportFault::MemoryError,
            },
        },
        InstantiationError::Link(RuntimeLinkError::Trap(_)) => InstantiationFault::LinkTrap,
        InstantiationError::Link(RuntimeLinkError::Resource(_)) => InstantiationFault::LinkResource,
        InstantiationError::Start(_) => InstantiationFault::Start,
        InstantiationError::CpuFeature(_) => InstantiationFault::CpuFeature,
        InstantiationError::DifferentStores => InstantiationFault::DifferentStores,
        InstantiationError::DifferentArchOS => InstantiationFault::DifferentArchOS,
    }
}

/// The message of a `wasmer::InstantiationError`, as its `Display` gives it.
#[verifier::external_body]
fn instantiation_text(error: &InstantiationError) -> (text: String)
    ensures
        text@ == instantiation_message(*error),
{
    error.to_string()
}

/// `wasmer::Instance::new`: instantiates the module on the import set and
/// runs its start function, if it declares one. Nothing is claimed of the
/// outcome.
#[verifier::external_body]
fn instantiate_module(
    store: &mut wasmer::Store,
    module: &wasmer::Module,
    imports: &wasmer::Imports,
) -> Result<wasmer::Instance, InstantiationError> {
    wasmer::Instance::new(store, module, imports)
}

/// The link error that a fault of an instantiation stands for, if it is one
/// of import resolution: an import that the runtime does not know is
/// missing, and an import that it does not accept for another reason is of
/// another type than the module declares.
pub open spec fn link_error_of(fault: InstantiationFault) -> Option<LinkError> {
    match fault {
        InstantiationFault::Import { namespace, name, reason } => if reason
            == ImportFault::UnknownImport {
            Some(LinkError::MissingImport { namespace, name })
        } else {
            Some(LinkError::TypeMismatch { namespace, name })
        },
        _ => None,
    }
}

/// The link error that a fault of an instantiation stands for, if it is one
/// of import resolution.
pub fn mismatch_of(fault: InstantiationFault) -> (error: Option<LinkError>)
    ensures
        error == link_error_of(fault),
{
    match fault {
        InstantiationFault::Import { namespace, name, reason } => {
            match reason {
                ImportFault::UnknownImport => Some(LinkError::MissingImport { namespace, name }),
                _ => Some(LinkError::TypeMismatch { namespace, name }),
            }
        },
        _ => None,
    }
}

/// The failure that an instantiation error of the runtime stands for: its
/// fault and its message.
pub fn failure_of(error: &InstantiationError) -> (failure: InstantiationFailure)
    ensures
        failure.fault == fault_of(*error),
        failure.text@ == instantiation_message(*error),
{
    InstantiationFailure { fault: instantiation_fault(error), text: instantiation_text(error) }
}

/// The link error that a failed instantiation stands for, if it is one of
/// import resolution: the fault of the runtime's error, as `mismatch_of`
/// sorts it.
pub fn instantiation_mismatch(error: &InstantiationError) -> (mismatch: Option<LinkError>)
    ensures
        mismatch == link_error_of(fault_of(*error)),
{
    mismatch_of(instantiation_fault(error))
}

/// The import set for one instantiation of a module, and where each import
/// that the module declares is served from.
pub struct LinkedImports {
    pub imports: wasmer::Imports,
    pub origins: Vec<ImportOrigin>,
}

/// The resolution that the outcome of a linking stands for.
pub open spec fn resolution_of(r: Result<LinkedImports, LinkError>) -> Result<
    Vec<ImportOrigin>,
    LinkError,
> {
    match r {
        Ok(linked) => Ok(linked.origins),
        Err(error) => Err(error),
    }
}

/// Links a loaded module: its declared imports are resolved against the
/// standard import set and the table of host imports, and only if every one
/// can be served are the host functions made and merged into the standard
/// set. On an error nothing is made.
pub fn link<F: Fn(Vec<HostValue>) -> Vec<HostValue> + Clone + Send + Sync + 'static>(
    store: &mut wasmer::Store,
    unit: &ModuleUnit,
    standard: wasmer::Imports,
    table: &ImportTable<F>,
) -> (r: Result<LinkedImports, LinkError>)
    requires
        all_callable(table@),
    ensures
        r is Ok <==> resolvable(unit.declarations(), defined_names(standard), table@),
        r is Err ==> *final(store) == *old(store),
        is_resolution(unit.declarations(), defined_names(standard), table@, resolution_of(r)),
        r matches Ok(linked) ==> {
            &&& defined_names(linked.imports) == defined_names(standard).union(key_set(table@))
            &&& forall|i: int|
                0 <= i < unit.declarations().len() ==> defined_names(linked.imports).contains(
                    (#[trigger] unit.declarations()[i]).key,
                )
        },
{
    match resolve(unit.imports(), &standard, table) {
        Err(error) => Err(error),
        Ok(origins) => {
            let ghost names = defined_names(standard);
            let imports = merge(store, standard, table);
            proof {
                assert forall|i: int| 0 <= i < unit.declarations().len() implies defined_names(
                    imports,
                ).contains((#[trigger] unit.declarations()[i]).key) by {
                    assert(origin_of(unit.declarations()[i], names, table@) is Ok);
                }
            }
            Ok(LinkedImports { imports, origins })
        },
    }
}

/// Whether `r` is what becomes of the outcome of an instantiation: the
/// instance as it is, or the failure that the runtime's error stands for.
pub open spec fn is_instantiation(
    outcome: Result<wasmer::Instance, InstantiationError>,
    r: Result<wasmer::Instance, InstantiationFailure>,
) -> bool {
    match outcome {
        Ok(instance) => r == Ok::<wasmer::Instance, InstantiationFailure>(instance),
        Err(error) => r matches Err(failure) && failure.fault == fault_of(error) && failure.text@
            == instantiation_message(error),
    }
}

/// What becomes of the outcome of an instantiation: the instance as it is,
/// or the failure that the runtime's error stands for.
pub fn instantiation_of(outcome: Result<wasmer::Instance, InstantiationError>) -> (r: Result<
    wasmer::Instance,
    InstantiationFailure,
>)
    ensures
        is_instantiation(outcome, r),
{
    match outcome {
        Ok(instance) => Ok(instance),
        Err(error) => Err(failure_of(&error)),
    }
}

/// Instantiates a linked module in the store. Whether the runtime accepts
/// the import set for the module, and whether the machine has room for the
/// instance, is for the runtime to decide; the result is what
/// `instantiation_of` makes of the runtime's outcome.
pub fn instantiate(store: &mut wasmer::Store, unit: &ModuleUnit, linked: &LinkedImports) -> (r:
    Result<wasmer::Instance, InstantiationFailure>)
    ensures
        exists|outcome: Result<wasmer::Instance, InstantiationError>| #[trigger]
            is_instantiation(outcome, r),
{
    let outcome = instantiate_module(store, unit.module(), &linked.imports);
    let r = instantiation_of(outcome);
    assert(is_instantiation(outcome, r));
    r
}

} // verus!
