//! Value kinds of the guest's type system and the values that cross the
//! boundary between host and guest.

use vstd::prelude::*;

verus! {

/// The kind of a single guest value.
#[derive(Clone, Copy, Debug, PartialEq, Eq, Structural)]
pub enum ValueKind {
    I32,
    I64,
    F32,
    F64,
    V128,
    ExternRef,
    FuncRef,
    ExceptionRef,
}

/// The value kind that a type of the runtime stands for: the variant of the
/// same name.
pub uninterp spec fn kind_of_type(ty: wasmer::Type) -> ValueKind;

/// The type of the runtime that stands for a value kind: the variant of the
/// same name.
pub uninterp spec fn type_of_kind(kind: ValueKind) -> wasmer::Type;

/// The value kinds that a sequence of types of the runtime stands for.
pub open spec fn kinds_of_types(types: Seq<wasmer::Type>) -> Seq<ValueKind> {
    Seq::new(types.len(), |i: int| kind_of_type(types[i]))
}

/// The types of the runtime that stand for a sequence of value kinds.
pub open spec fn types_of_kinds(kinds: Seq<ValueKind>) -> Seq<wasmer::Type> {
    Seq::new(kinds.len(), |i: int| type_of_kind(kinds[i]))
}

/// Tells the variants of `wasmer::Type` apart.
#[verifier::external_body]
pub(crate) fn kind_from_type(ty: &wasmer::Type) -> (kind: ValueKind)
    ensures
        kind == kind_of_type(*ty),
{
    match ty {
        wasmer::Type::I32 => ValueKind::I32,
        wasmer::Type::I64 => ValueKind::I64,
        wasmer::Type::F32 => ValueKind::F32,
        wasmer::Type::F64 => ValueKind::F64,
        wasmer::Type::V128 => ValueKind::V128,
        wasmer::Type::ExternRef => ValueKind::ExternRef,
        wasmer::Type::FuncRef => ValueKind::FuncRef,
        wasmer::Type::ExceptionRef => ValueKind::ExceptionRef,
    }
}

/// Names the variant of `wasmer::Type` that stands for a value kind.
#[verifier::external_body]
pub(crate) fn type_from_kind(kind: ValueKind) -> (ty: wasmer::Type)
    ensures
        ty == type_of_kind(kind),
{
    match kind {
        ValueKind::I32 => wasmer::Type::I32,
        ValueKind::I64 => wasmer::Type::I64,
        ValueKind::F32 => wasmer::Type::F32,
        ValueKind::F64 => wasmer::Type::F64,
        ValueKind::V128 => wasmer::Type::V128,
        ValueKind::ExternRef => wasmer::Type::ExternRef,
        ValueKind::FuncRef => wasmer::Type::FuncRef,
        ValueKind::ExceptionRef => wasmer::Type::ExceptionRef,
    }
}

/// A value handed to, or returned by, a host import, variant by variant as
/// the runtime has it. Integers and vectors are held as they are. A float
/// or a reference is carried as the runtime's own value and is expected to
/// be of the variant's kind; the runtime refuses a result of another kind.
#[derive(Clone, Debug, PartialEq)]
pub enum HostValue {
    I32(i32),
    I64(i64),
    F32(wasmer::Value),
    F64(wasmer::Value),
    V128(u128),
    ExternRef(wasmer::Value),
    FuncRef(wasmer::Value),
    ExceptionRef(wasmer::Value),
}

/// The host value that a value of the runtime stands for: the same variant,
/// with an integer or a vector taken out and a float or a reference
/// carried as it is.
pub uninterp spec fn mirror_of(value: wasmer::Value) -> HostValue;

/// The value of the runtime that a host value stands for: the variant of
/// the same name for an integer or a vector, and the carried value of a
/// float or a reference.
pub uninterp spec fn runtime_of(value: HostValue) -> wasmer::Value;

/// Tells the variants of `wasmer::Value` apart: an integer or a vector is
/// taken out, a float or a reference is carried as a copy of the value.
#[verifier::external_body]
fn mirror_value(value: &wasmer::Value) -> (host: HostValue)
    ensures
        host == mirror_of(*value),
{
    match value {
        wasmer::Value::I32(v) => HostValue::I32(*v),
        wasmer::Value::I64(v) => HostValue::I64(*v),
        wasmer::Value::F32(_) => HostValue::F32(value.clone()),
        wasmer::Value::F64(_) => HostValue::F64(value.clone()),
        wasmer::Value::V128(v) => HostValue::V128(*v),
        wasmer::Value::ExternRef(_) => HostValue::ExternRef(value.clone()),
        wasmer::Value::FuncRef(_) => HostValue::FuncRef(value.clone()),
        wasmer::Value::ExceptionRef(_) => HostValue::ExceptionRef(value.clone()),
    }
}

/// Names the variant of `wasmer::Value` for an integer or a vector, and
/// hands out a copy of the carried value of a float or a reference.
#[verifier::external_body]
fn runtime_value(value: &HostValue) -> (raw: wasmer::Value)
    ensures
        raw == runtime_of(*value),
{
    match value {
        HostValue::I32(v) => wasmer::Value::I32(*v),
        HostValue::I64(v) => wasmer::Value::I64(*v),
        HostValue::V128(v) => wasmer::Value::V128(*v),
        HostValue::F32(carried) => carried.clone(),
        HostValue::F64(carried) => carried.clone(),
        HostValue::ExternRef(carried) => carried.clone(),
        HostValue::FuncRef(carried) => carried.clone(),
        HostValue::ExceptionRef(carried) => carried.clone(),
    }
}

impl HostValue {
    /// Takes a value of the runtime into the library.
    pub fn from_runtime(value: &wasmer::Value) -> (host: Self)
        ensures
            host == mirror_of(*value),
    {
        mirror_value(value)
    }

    /// The value of the runtime that this value stands for.
    pub fn to_runtime(&self) -> (raw: wasmer::Value)
        ensures
            raw == runtime_of(*self),
    {
        runtime_value(self)
    }

    /// The kind of this value: the kind of its variant.
    pub open spec fn spec_kind(&self) -> ValueKind {
        match self {
            HostValue::I32(_) => ValueKind::I32,
            HostValue::I64(_) => ValueKind::I64,
            HostValue::F32(_) => ValueKind::F32,
            HostValue::F64(_) => ValueKind::F64,
            HostValue::V128(_) => ValueKind::V128,
            HostValue::ExternRef(_) => ValueKind::ExternRef,
            HostValue::FuncRef(_) => ValueKind::FuncRef,
            HostValue::ExceptionRef(_) => ValueKind::ExceptionRef,
        }
    }

    /// The kind of this value: the kind of its variant.
    #[verifier::when_used_as_spec(spec_kind)]
    pub fn kind(&self) -> (k: ValueKind)
        ensures
            k == self.spec_kind(),
    {
        match self {
            HostValue::I32(_) => ValueKind::I32,
            HostValue::I64(_) => ValueKind::I64,
            HostValue::F32(_) => ValueKind::F32,
            HostValue::F64(_) => ValueKind::F64,
            HostValue::V128(_) => ValueKind::V128,
            HostValue::ExternRef(_) => ValueKind::ExternRef,
            HostValue::FuncRef(_) => ValueKind::FuncRef,
            HostValue::ExceptionRef(_) => ValueKind::ExceptionRef,
        }
    }
}

/// The host values that a sequence of values of the runtime stands for.
pub open spec fn mirrored(values: Seq<wasmer::Value>) -> Seq<HostValue> {
    Seq::new(values.len(), |i: int| mirror_of(values[i]))
}

/// The values of the runtime that a sequence of host values stands for.
pub open spec fn runtime_values(values: Seq<HostValue>) -> Seq<wasmer::Value> {
    Seq::new(values.len(), |i: int| runtime_of(values[i]))
}

/// The kinds of a sequence of values, position by position.
pub open spec fn kinds_of(values: Seq<HostValue>) -> Seq<ValueKind> {
    Seq::new(values.len(), |i: int| values[i].spec_kind())
}

/// Whether `values` has exactly the kinds `kinds`: the same length and, at each
/// position, a value of the declared kind.
pub fn values_have_kinds(values: &Vec<HostValue>, kinds: &Vec<ValueKind>) -> (ok: bool)
    ensures
        ok == (kinds_of(values@) == kinds@),
{
    if values.len() != kinds.len() {
        return false;
    }
    let mut i: usize = 0;
    while i < values.len()
        invariant
            values.len() == kinds.len(),
            i <= values.len(),
            forall|j: int| 0 <= j < i ==> values[j].spec_kind() == kinds[j],
        decreases values.len() - i,
    {
        if values[i].kind() != kinds[i] {
            assert(kinds_of(values@)[i as int] != kinds@[i as int]);
            return false;
        }
        i += 1;
    }
    assert(kinds_of(values@) =~= kinds@);
    true
}

/// Whether two kind lists are the same list.
pub fn same_kinds(left: &Vec<ValueKind>, right: &Vec<ValueKind>) -> (same: bool)
    ensures
        same == (left@ == right@),
{
    if left.len() != right.len() {
        return false;
    }
    let mut i: usize = 0;
    while i < left.len()
        invariant
            left.len() == right.len(),
            i <= left.len(),
            forall|j: int| 0 <= j < i ==> left[j] == right[j],
        decreases left.len() - i,
    {
        if left[i] != right[i] {
            return false;
        }
        i += 1;
    }
    assert(left@ =~= right@);
    true
}

} // verus!
