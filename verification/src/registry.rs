//! The registry of host imports: the host declares, under distinct names, the
//! functions a guest may call, each with a typed signature and an
//! implementation; the finished registry becomes an immutable table.

use crate::kinds::{HostValue, ValueKind};
use crate::signature::{settle, ImportKey, ImportSignature, InvokeError, SignatureView};
use vstd::prelude::*;

verus! {

/// A signature together with the host implementation bound to it.
pub struct ImportBinding<F> {
    pub signature: ImportSignature,
    pub implementation: F,
}

/// What a binding says: the signature's view and the implementation itself.
pub struct BindingView<F> {
    pub signature: SignatureView,
    pub implementation: F,
}

impl<F> View for ImportBinding<F> {
    type V = BindingView<F>;

    open spec fn view(&self) -> BindingView<F> {
        BindingView { signature: self.signature@, implementation: self.implementation }
    }
}

/// Why a registration was refused.
#[derive(Clone, Debug, PartialEq, Eq)]
pub enum RegistryError {
    /// An import is already registered under this namespace and name.
    DuplicateImport { namespace: String, name: String },
}

/// Whether some binding of `bindings` is known under `key`.
pub open spec fn has_key<F>(bindings: Seq<BindingView<F>>, key: ImportKey) -> bool {
    exists|i: int| 0 <= i < bindings.len() && (#[trigger] bindings[i]).signature.key() == key
}

/// Whether no two bindings of `bindings` share namespace and name.
pub open spec fn keys_distinct<F>(bindings: Seq<BindingView<F>>) -> bool {
    forall|i: int, j: int|
        0 <= i < j < bindings.len() ==> (#[trigger] bindings[i]).signature.key() != (
        #[trigger] bindings[j]).signature.key()
}

/// The views of a list of bindings, in order.
pub open spec fn binding_views<F>(bindings: Seq<ImportBinding<F>>) -> Seq<BindingView<F>> {
    Seq::new(bindings.len(), |i: int| bindings[i]@)
}

/// Finds the binding known under `namespace` and `name`.
fn find_binding<F>(bindings: &Vec<ImportBinding<F>>, namespace: &str, name: &str) -> (found: Option<
    usize,
>)
    ensures
        match found {
            Some(i) => i < bindings.len() && bindings[i as int]@.signature.key() == (
                namespace@,
                name@,
            ) && forall|j: int| 0 <= j < i ==> bindings[j]@.signature.key() != (namespace@, name@),
            None => !has_key(binding_views(bindings@), (namespace@, name@)),
        },
{
    let mut i: usize = 0;
    while i < bindings.len()
        invariant
            i <= bindings.len(),
            forall|j: int| 0 <= j < i ==> bindings[j]@.signature.key() != (namespace@, name@),
        decreases bindings.len() - i,
    {
        if bindings[i].signature.is_named(namespace, name) {
            return Some(i);
        }
        i += 1;
    }
    assert forall|j: int| 0 <= j < binding_views(bindings@).len() implies (
    #[trigger] binding_views(bindings@)[j]).signature.key() != (namespace@, name@) by {
        assert(binding_views(bindings@)[j] == bindings[j]@);
    }
    None
}

/// Adding a binding under a new key keeps the keys distinct.
proof fn lemma_distinct_after_push<F>(before: Seq<ImportBinding<F>>, binding: ImportBinding<F>)
    requires
        keys_distinct(binding_views(before)),
        !has_key(binding_views(before), binding@.signature.key()),
    ensures
        binding_views(before.push(binding)) == binding_views(before).push(binding@),
        keys_distinct(binding_views(before.push(binding))),
{
    let after = binding_views(before.push(binding));
    assert(after =~= binding_views(before).push(binding@));
    assert forall|i: int, j: int| 0 <= i < j < after.len() implies (#[trigger] after[i]).signature.key()
        != (#[trigger] after[j]).signature.key() by {
        if j < before.len() {
            assert(binding_views(before)[i].signature.key() != binding_views(before)[j].signature.key());
        } else {
            assert(binding_views(before)[i].signature.key() != binding@.signature.key());
        }
    }
}

/// The set of host imports under construction. No two of its bindings share
/// namespace and name.
pub struct ImportRegistry<F> {
    bindings: Vec<ImportBinding<F>>,
}

impl<F> View for ImportRegistry<F> {
    type V = Seq<BindingView<F>>;

    closed spec fn view(&self) -> Seq<BindingView<F>> {
        binding_views(self.bindings@)
    }
}

impl<F> ImportRegistry<F> {
    #[verifier::type_invariant]
    spec fn well_formed(&self) -> bool {
        keys_distinct(binding_views(self.bindings@))
    }

    /// A registry with no binding.
    pub fn new() -> (registry: Self)
        ensures
            registry@ == Seq::<BindingView<F>>::empty(),
    {
        let registry = ImportRegistry { bindings: Vec::new() };
        assert(registry@ =~= Seq::<BindingView<F>>::empty());
        registry
    }

    /// The number of bindings registered so far.
    pub fn len(&self) -> (n: usize)
        ensures
            n == self@.len(),
            keys_distinct(self@),
    {
        proof {
            use_type_invariant(self);
        }
        self.bindings.len()
    }

    /// Whether an import is registered under `namespace` and `name`.
    pub fn contains(&self, namespace: &str, name: &str) -> (present: bool)
        ensures
            present == has_key(self@, (namespace@, name@)),
    {
        match find_binding(&self.bindings, namespace, name) {
            Some(i) => {
                assert(self@[i as int] == self.bindings[i as int]@);
                true
            },
            None => false,
        }
    }

    /// Closes the registry: the bindings, in the order of their registration,
    /// become an immutable table.
    pub fn finalize(self) -> (table: ImportTable<F>)
        ensures
            table@ == self@,
            keys_distinct(table@),
    {
        proof {
            use_type_invariant(&self);
        }
        ImportTable { entries: self.bindings }
    }
}

/// The finished, immutable set of host imports, ordered by registration and
/// keyed by namespace and name.
pub struct ImportTable<F> {
    entries: Vec<ImportBinding<F>>,
}

impl<F> View for ImportTable<F> {
    type V = Seq<BindingView<F>>;

    closed spec fn view(&self) -> Seq<BindingView<F>> {
        binding_views(self.entries@)
    }
}

impl<F> ImportTable<F> {
    #[verifier::type_invariant]
    spec fn well_formed(&self) -> bool {
        keys_distinct(binding_views(self.entries@))
    }

    /// The number of bindings in the table.
    pub fn len(&self) -> (n: usize)
        ensures
            n == self@.len(),
            keys_distinct(self@),
    {
        proof {
            use_type_invariant(self);
        }
        self.entries.len()
    }

    /// The binding at position `index`, in the order of registration.
    pub fn binding(&self, index: usize) -> (binding: &ImportBinding<F>)
        requires
            index < self@.len(),
        ensures
            binding@ == self@[index as int],
    {
        &self.entries[index]
    }

    /// The position of the binding known under `namespace` and `name`, if
    /// there is one.
    pub fn find(&self, namespace: &str, name: &str) -> (found: Option<usize>)
        ensures
            keys_distinct(self@),
            match found {
                Some(i) => i < self@.len() && self@[i as int].signature.key() == (namespace@, name@),
                None => !has_key(self@, (namespace@, name@)),
            },
    {
        proof {
            use_type_invariant(self);
        }
        let found = find_binding(&self.entries, namespace, name);
        proof {
            if let Some(i) = found {
                assert(self@[i as int] == self.entries[i as int]@);
            }
        }
        found
    }

    /// Whether the table binds an import under `namespace` and `name`.
    pub fn contains(&self, namespace: &str, name: &str) -> (present: bool)
        ensures
            present == has_key(self@, (namespace@, name@)),
    {
        self.find(namespace, name).is_some()
    }
}

/// Whether the implementation of `binding` can be called with each argument
/// list of the declared parameter kinds.
pub open spec fn callable<F: Fn(Vec<HostValue>) -> Vec<HostValue>>(binding: BindingView<F>) -> bool {
    forall|args: Vec<HostValue>|
        binding.signature.accepts(args@) ==> #[trigger] call_requires(
            binding.implementation,
            (args,),
        )
}

/// Whether `r` is what a call of `binding` with `args` may give.
pub open spec fn call_outcome<F: Fn(Vec<HostValue>) -> Vec<HostValue>>(
    binding: BindingView<F>,
    args: Vec<HostValue>,
    r: Result<Vec<HostValue>, InvokeError>,
) -> bool {
    if !binding.signature.accepts(args@) {
        r == Err::<Vec<HostValue>, InvokeError>(InvokeError::ArgumentMismatch)
    } else {
        exists|produced: Vec<HostValue>|
            call_ensures(binding.implementation, (args,), produced) && r == settle(
                binding.signature,
                produced,
            )
    }
}

/// Calls one host implementation under its signature: it runs only on
/// arguments of the declared kinds, and its results pass only if they have
/// the declared result kinds.
pub fn answer_call<F: Fn(Vec<HostValue>) -> Vec<HostValue>>(
    signature: &ImportSignature,
    implementation: &F,
    args: Vec<HostValue>,
) -> (r: Result<Vec<HostValue>, InvokeError>)
    requires
        callable(BindingView { signature: signature@, implementation: *implementation }),
    ensures
        call_outcome(BindingView { signature: signature@, implementation: *implementation }, args, r),
{
    if !signature.accepts(&args) {
        Err(InvokeError::ArgumentMismatch)
    } else {
        let ghost binding = BindingView { signature: signature@, implementation: *implementation };
        assert(binding.signature.accepts(args@));
        assert(call_requires(binding.implementation, (args,)));
        let produced = implementation(args);
        signature.check_results(produced)
    }
}

/// Whether every implementation of `bindings` can be called with each
/// argument list of its declared parameter kinds.
pub open spec fn all_callable<F: Fn(Vec<HostValue>) -> Vec<HostValue>>(bindings: Seq<BindingView<F>>) -> bool {
    forall|i: int| 0 <= i < bindings.len() ==> callable(#[trigger] bindings[i])
}

/// Whether the implementation of `binding` is faithful to the declared
/// result kinds: whatever it returns on arguments of the declared parameter
/// kinds has the declared result kinds, in number and position by position.
pub open spec fn faithful<F: Fn(Vec<HostValue>) -> Vec<HostValue>>(binding: BindingView<F>) -> bool {
    forall|args: Vec<HostValue>, produced: Vec<HostValue>|
        binding.signature.accepts(args@) && #[trigger] call_ensures(
            binding.implementation,
            (args,),
            produced,
        ) ==> binding.signature.admits(produced@)
}

/// Whether every implementation of `bindings` is faithful to its declared
/// result kinds.
pub open spec fn all_faithful<F: Fn(Vec<HostValue>) -> Vec<HostValue>>(bindings: Seq<BindingView<F>>) -> bool {
    forall|i: int| 0 <= i < bindings.len() ==> faithful(#[trigger] bindings[i])
}

/// A call of a faithful implementation never breaks its contract: its
/// results are handed on as they are whenever the arguments have the
/// declared kinds.
pub proof fn lemma_faithful_never_violates<F: Fn(Vec<HostValue>) -> Vec<HostValue>>(
    binding: BindingView<F>,
    args: Vec<HostValue>,
    r: Result<Vec<HostValue>, InvokeError>,
)
    requires
        faithful(binding),
        call_outcome(binding, args, r),
    ensures
        r != Err::<Vec<HostValue>, InvokeError>(InvokeError::ContractViolation),
        binding.signature.accepts(args@) ==> (r matches Ok(produced) && call_ensures(
            binding.implementation,
            (args,),
            produced,
        )),
{
    if binding.signature.accepts(args@) {
        let produced = choose|produced: Vec<HostValue>|
            call_ensures(binding.implementation, (args,), produced) && r == settle(
                binding.signature,
                produced,
            );
        assert(binding.signature.admits(produced@));
    }
}

impl<F: Fn(Vec<HostValue>) -> Vec<HostValue>> ImportRegistry<F> {
    /// Adds a binding. The implementation must be faithful to the declared
    /// result kinds: one that can return other results, on arguments of the
    /// declared kinds, cannot be registered. A registration under a
    /// namespace and name that are already taken is refused, and the
    /// registry stays as it was.
    pub fn register(
        &mut self,
        namespace: String,
        name: String,
        params: Vec<ValueKind>,
        results: Vec<ValueKind>,
        implementation: F,
    ) -> (r: Result<(), RegistryError>)
        requires
            faithful(
                BindingView {
                    signature: SignatureView {
                        namespace: namespace@,
                        name: name@,
                        params: params@,
                        results: results@,
                    },
                    implementation,
                },
            ),
        ensures
            keys_distinct(final(self)@),
            all_faithful(old(self)@) ==> all_faithful(final(self)@),
            has_key(old(self)@, (namespace@, name@)) ==> final(self)@ == old(self)@ && (
            r matches Err(RegistryError::DuplicateImport { namespace: refused_namespace, name: refused_name })
                && refused_namespace@ == namespace@ && refused_name@ == name@),
            !has_key(old(self)@, (namespace@, name@)) ==> r is Ok && final(self)@ == old(self)@.push(
                BindingView {
                    signature: SignatureView {
                        namespace: namespace@,
                        name: name@,
                        params: params@,
                        results: results@,
                    },
                    implementation,
                },
            ),
    {
        proof {
            use_type_invariant(&*self);
        }
        match find_binding(&self.bindings, namespace.as_str(), name.as_str()) {
            Some(i) => {
                assert(self@[i as int] == self.bindings[i as int]@);
                Err(RegistryError::DuplicateImport { namespace, name })
            },
            None => {
                let ghost before = self.bindings@;
                let binding = ImportBinding {
                    signature: ImportSignature::new(namespace, name, params, results),
                    implementation,
                };
                let mut taken = ImportRegistry { bindings: Vec::new() };
                core::mem::swap(self, &mut taken);
                let mut bindings = taken.bindings;
                bindings.push(binding);
                proof {
                    lemma_distinct_after_push(before, binding);
                }
                *self = ImportRegistry { bindings };
                proof {
                    if all_faithful(binding_views(before)) {
                        assert forall|i: int| 0 <= i < self@.len() implies faithful(
                            #[trigger] self@[i],
                        ) by {
                            if i < before.len() {
                                assert(self@[i] == binding_views(before)[i]);
                            }
                        }
                    }
                }
                Ok(())
            },
        }
    }
}

/// Whether `r` is what a call of the import `key` with `args` may give on a
/// table with the bindings `bindings`: an unknown import is reported, and a
/// known one is called under its signature.
pub open spec fn invoke_outcome<F: Fn(Vec<HostValue>) -> Vec<HostValue>>(
    bindings: Seq<BindingView<F>>,
    key: ImportKey,
    args: Vec<HostValue>,
    r: Result<Vec<HostValue>, InvokeError>,
) -> bool {
    if !has_key(bindings, key) {
        r == Err::<Vec<HostValue>, InvokeError>(InvokeError::UnknownImport)
    } else {
        forall|i: int|
            0 <= i < bindings.len() && (#[trigger] bindings[i]).signature.key() == key
                ==> call_outcome(bindings[i], args, r)
    }
}

impl<F: Fn(Vec<HostValue>) -> Vec<HostValue>> ImportTable<F> {
    /// Calls the import known under `namespace` and `name` on behalf of a
    /// guest. The implementation runs only on arguments of the declared
    /// kinds, and its results are handed on only if they have the declared
    /// result kinds.
    pub fn invoke(&self, namespace: &str, name: &str, args: Vec<HostValue>) -> (r: Result<
        Vec<HostValue>,
        InvokeError,
    >)
        requires
            all_callable(self@),
        ensures
            invoke_outcome(self@, (namespace@, name@), args, r),
    {
        match self.find(namespace, name) {
            None => Err(InvokeError::UnknownImport),
            Some(i) => {
                let binding = &self.entries[i];
                assert(self@[i as int] == binding@);
                let r = answer_call(&binding.signature, &binding.implementation, args);
                assert forall|j: int|
                    0 <= j < self@.len() && (#[trigger] self@[j]).signature.key() == (
                        namespace@,
                        name@,
                    ) implies call_outcome(self@[j], args, r) by {
                    if j < i {
                        assert(self@[j].signature.key() != self@[i as int].signature.key());
                    } else if i < j {
                        assert(self@[i as int].signature.key() != self@[j].signature.key());
                    }
                }
                r
            },
        }
    }
}

} // verus!
