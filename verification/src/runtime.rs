//! The types of the outside runtime that pass through this library. Each is
//! opaque here: a value of it is carried, handed to the runtime and never
//! looked into.

use vstd::prelude::*;

verus! {

/// `wasmer::Engine`: the compiler of the runtime with its settings.
#[verifier::external_type_specification]
#[verifier::external_body]
pub struct ExEngine(wasmer::Engine);

/// `wasmer::Module`: a compiled guest module.
#[verifier::external_type_specification]
#[verifier::external_body]
pub struct ExModule(wasmer::Module);

/// `wasmer::CompileError`: why the runtime refused to compile bytes.
#[verifier::external_type_specification]
#[verifier::external_body]
pub struct ExCompileError(wasmer::CompileError);

/// `wasmer::ImportType`: one import that a compiled module declares.
#[verifier::external_type_specification]
#[verifier::external_body]
#[verifier::reject_recursive_types(T)]
pub struct ExImportType<T>(wasmer::ImportType<T>);

/// `wasmer::ExternType`: the type of an item that a module imports.
#[verifier::external_type_specification]
#[verifier::external_body]
pub struct ExExternType(wasmer::ExternType);

/// `wasmer::Type`: the runtime's own name for a value kind.
#[verifier::external_type_specification]
#[verifier::external_body]
pub struct ExType(wasmer::Type);

/// `wasmer::Imports`: a set of items by namespace and name, from which the
/// runtime serves the imports of a module.
#[verifier::external_type_specification]
#[verifier::external_body]
pub struct ExImports(wasmer::Imports);

/// `wasmer::Store`: the owner of everything that lives at run time.
#[verifier::external_type_specification]
#[verifier::external_body]
pub struct ExStore(wasmer::Store);

/// `wasmer::Value`: a value of the guest, as the runtime holds it.
#[verifier::external_type_specification]
#[verifier::external_body]
pub struct ExValue(wasmer::Value);

/// `Clone::clone` of `wasmer::Value`, which the runtime derives: the copy
/// is the same variant with the same content.
pub assume_specification[ <wasmer::Value as Clone>::clone ](value: &wasmer::Value) -> (copy:
    wasmer::Value)
    ensures
        copy == *value,
;

/// `wasmer::InstantiationError`: why the runtime could not instantiate a
/// module.
#[verifier::external_type_specification]
#[verifier::external_body]
pub struct ExInstantiationError(wasmer::InstantiationError);

/// `wasmer::Instance`: a live instance of a module in a store.
#[verifier::external_type_specification]
#[verifier::external_body]
pub struct ExInstance(wasmer::Instance);

/// `wasmer::RuntimeError`: a fault raised in the guest.
#[verifier::external_type_specification]
#[verifier::external_body]
pub struct ExRuntimeError(wasmer::RuntimeError);

/// `virtual_fs::Pipe`: one end of an in-memory byte channel.
#[verifier::external_type_specification]
#[verifier::external_body]
pub struct ExPipe(virtual_fs::Pipe);

/// `tokio::runtime::Handle`: a handle on the worker pool that runs guest
/// threads.
#[verifier::external_type_specification]
#[verifier::external_body]
pub struct ExHandle(tokio::runtime::Handle);

} // verus!
