//! Typed signatures of host imports.

use crate::kinds::{kinds_of, same_kinds, values_have_kinds, HostValue, ValueKind};
use vstd::prelude::*;

verus! {

/// The pair of namespace and name under which an import is known.
pub type ImportKey = (Seq<char>, Seq<char>);

/// Identifies a host function by namespace and name and fixes the kinds of
/// its parameters and of its results, in order.
#[derive(Clone, Debug, PartialEq, Eq)]
pub struct ImportSignature {
    pub namespace: String,
    pub name: String,
    pub params: Vec<ValueKind>,
    pub results: Vec<ValueKind>,
}

/// What a signature says, as mathematical sequences.
pub struct SignatureView {
    pub namespace: Seq<char>,
    pub name: Seq<char>,
    pub params: Seq<ValueKind>,
    pub results: Seq<ValueKind>,
}

impl SignatureView {
    /// The namespace and name of the signature.
    pub open spec fn key(self) -> ImportKey {
        (self.namespace, self.name)
    }

    /// Whether an argument list has the declared parameter kinds.
    pub open spec fn accepts(self, args: Seq<HostValue>) -> bool {
        kinds_of(args) == self.params
    }

    /// Whether a result list has the declared result kinds.
    pub open spec fn admits(self, produced: Seq<HostValue>) -> bool {
        kinds_of(produced) == self.results
    }
}

impl View for ImportSignature {
    type V = SignatureView;

    open spec fn view(&self) -> SignatureView {
        SignatureView {
            namespace: self.namespace@,
            name: self.name@,
            params: self.params@,
            results: self.results@,
        }
    }
}

/// Why a call of a host import was refused or its outcome rejected.
#[derive(Clone, Copy, Debug, PartialEq, Eq, Structural)]
pub enum InvokeError {
    /// No import is bound under the given namespace and name.
    UnknownImport,
    /// The arguments do not have the declared parameter kinds.
    ArgumentMismatch,
    /// The implementation returned results that do not have the declared
    /// result kinds: it broke its contract.
    ContractViolation,
}

impl ImportSignature {
    pub fn new(
        namespace: String,
        name: String,
        params: Vec<ValueKind>,
        results: Vec<ValueKind>,
    ) -> (sig: Self)
        ensures
            sig@ == (SignatureView {
                namespace: namespace@,
                name: name@,
                params: params@,
                results: results@,
            }),
    {
        ImportSignature { namespace, name, params, results }
    }

    /// Whether this signature is known under `namespace` and `name`.
    pub fn is_named(&self, namespace: &str, name: &str) -> (named: bool)
        ensures
            named == (self@.key() == (namespace@, name@)),
    {
        let wanted_namespace = namespace.to_owned();
        let wanted_name = name.to_owned();
        self.namespace == wanted_namespace && self.name == wanted_name
    }

    /// Whether `other` has the same parameter and result kinds.
    pub fn same_shape(&self, params: &Vec<ValueKind>, results: &Vec<ValueKind>) -> (same: bool)
        ensures
            same == (self@.params == params@ && self@.results == results@),
    {
        same_kinds(&self.params, params) && same_kinds(&self.results, results)
    }

    /// Whether an argument list has the declared parameter kinds, in number
    /// and position by position.
    pub fn accepts(&self, args: &Vec<HostValue>) -> (ok: bool)
        ensures
            ok == self@.accepts(args@),
    {
        values_have_kinds(args, &self.params)
    }

    /// Holds the results of an implementation to the declared result kinds:
    /// they pass unchanged when they match in number and kind, and are
    /// rejected otherwise. Nothing is truncated or padded.
    pub fn check_results(&self, produced: Vec<HostValue>) -> (r: Result<Vec<HostValue>, InvokeError>)
        ensures
            r == settle(self@, produced),
    {
        if values_have_kinds(&produced, &self.results) {
            Ok(produced)
        } else {
            Err(InvokeError::ContractViolation)
        }
    }
}

/// What becomes of the results that an implementation produced under a
/// signature.
pub open spec fn settle(sig: SignatureView, produced: Vec<HostValue>) -> Result<Vec<HostValue>, InvokeError> {
    if sig.admits(produced@) {
        Ok(produced)
    } else {
        Err(InvokeError::ContractViolation)
    }
}

} // verus!
