//! Scalar values and function signatures, as they cross the host/guest boundary.

use vstd::prelude::*;

verus! {

/// The type of a value that a guest function takes or returns.
#[derive(Clone, Copy, Debug, PartialEq, Eq, Structural)]
pub enum ValueType {
    I32,
    I64,
    F32,
    F64,
    /// A 128-bit vector. It cannot cross the boundary as a scalar.
    V128,
    /// Any reference type. It cannot cross the boundary as a scalar.
    Reference,
}

impl ValueType {
    /// Whether a value of this type can be passed as a [`Value`].
    pub open spec fn is_scalar(self) -> bool {
        self is I32 || self is I64 || self is F32 || self is F64
    }

    /// Computes [`ValueType::is_scalar`].
    pub fn scalar(self) -> (scalar: bool)
        ensures
            scalar == self.is_scalar(),
    {
        match self {
            ValueType::I32 => true,
            ValueType::I64 => true,
            ValueType::F32 => true,
            ValueType::F64 => true,
            ValueType::V128 => false,
            ValueType::Reference => false,
        }
    }
}

/// A scalar value. Floats are carried as their IEEE 754 bit patterns, so that
/// they pass through unchanged.
#[derive(Clone, Copy, Debug, PartialEq, Eq, Structural)]
pub enum Value {
    I32(i32),
    I64(i64),
    F32(u32),
    F64(u64),
}

impl Value {
    /// The type of this value.
    pub open spec fn ty(self) -> ValueType {
        match self {
            Value::I32(_) => ValueType::I32,
            Value::I64(_) => ValueType::I64,
            Value::F32(_) => ValueType::F32,
            Value::F64(_) => ValueType::F64,
        }
    }

    /// Computes [`Value::ty`].
    pub fn value_type(&self) -> (ty: ValueType)
        ensures
            ty == self.ty(),
            ty.is_scalar(),
    {
        match self {
            Value::I32(_) => ValueType::I32,
            Value::I64(_) => ValueType::I64,
            Value::F32(_) => ValueType::F32,
            Value::F64(_) => ValueType::F64,
        }
    }
}

/// Whether `values` has exactly the types `types`, position by position.
pub open spec fn well_typed(values: Seq<Value>, types: Seq<ValueType>) -> bool {
    &&& values.len() == types.len()
    &&& forall|i: int| 0 <= i < values.len() ==> (#[trigger] values[i]).ty() == types[i]
}

/// Whether every type in `types` is scalar.
pub open spec fn all_scalar(types: Seq<ValueType>) -> bool {
    forall|i: int| 0 <= i < types.len() ==> (#[trigger] types[i]).is_scalar()
}

/// Whether every one of `values` is a scalar.
pub open spec fn all_present(values: Seq<Option<Value>>) -> bool {
    forall|i: int| 0 <= i < values.len() ==> (#[trigger] values[i]) is Some
}

/// The scalars of `values`, one for one.
pub open spec fn present(values: Seq<Option<Value>>) -> Seq<Value> {
    values.map_values(|v: Option<Value>| v->0)
}

/// The scalars of `values`, one for one, where every one of them is a scalar.
pub fn collect_present(values: &Vec<Option<Value>>) -> (scalars: Option<Vec<Value>>)
    ensures
        scalars is Some <==> all_present(values@),
        scalars matches Some(found) ==> found@ == present(values@),
{
    let mut found: Vec<Value> = Vec::new();
    let mut i: usize = 0;
    while i < values.len()
        invariant
            i <= values.len(),
            found@.len() == i,
            forall|j: int| 0 <= j < i ==> (#[trigger] values@[j]) == Some(found@[j]),
        decreases values.len() - i,
    {
        match values[i] {
            Some(value) => found.push(value),
            None => {
                assert(values@[i as int] is None);
                return None;
            },
        }
        i += 1;
    }
    assert(found@ =~= present(values@));
    Some(found)
}

/// Decides [`well_typed`].
pub fn check_types(values: &[Value], types: &Vec<ValueType>) -> (ok: bool)
    ensures
        ok == well_typed(values@, types@),
{
    if values.len() != types.len() {
        return false;
    }
    let mut i: usize = 0;
    while i < values.len()
        invariant
            i <= values.len(),
            values.len() == types.len(),
            forall|j: int| 0 <= j < i ==> (#[trigger] values@[j]).ty() == types@[j],
        decreases values.len() - i,
    {
        if values[i].value_type() != types[i] {
            return false;
        }
        i += 1;
    }
    true
}

/// Decides [`all_scalar`].
pub fn check_scalar(types: &Vec<ValueType>) -> (ok: bool)
    ensures
        ok == all_scalar(types@),
{
    let mut i: usize = 0;
    while i < types.len()
        invariant
            i <= types.len(),
            forall|j: int| 0 <= j < i ==> (#[trigger] types@[j]).is_scalar(),
        decreases types.len() - i,
    {
        if !types[i].scalar() {
            return false;
        }
        i += 1;
    }
    true
}

/// The mathematical content of a [`Signature`].
pub struct SignatureSpec {
    pub params: Seq<ValueType>,
    pub results: Seq<ValueType>,
}

impl SignatureSpec {
    /// Whether `args` may be handed to a function of this signature.
    pub open spec fn accepts(self, args: Seq<Value>) -> bool {
        well_typed(args, self.params)
    }

    /// Whether `values` may come back from a function of this signature.
    pub open spec fn yields(self, values: Seq<Value>) -> bool {
        well_typed(values, self.results)
    }

    /// Whether only scalars pass, in both directions.
    pub open spec fn is_scalar(self) -> bool {
        all_scalar(self.params) && all_scalar(self.results)
    }
}

/// The parameter and result types of a function.
#[derive(Debug)]
pub struct Signature {
    pub params: Vec<ValueType>,
    pub results: Vec<ValueType>,
}

impl View for Signature {
    type V = SignatureSpec;

    open spec fn view(&self) -> SignatureSpec {
        SignatureSpec { params: self.params@, results: self.results@ }
    }
}

/// A copy of `types`.
pub fn copy_types(types: &Vec<ValueType>) -> (copy: Vec<ValueType>)
    ensures
        copy@ == types@,
{
    let mut copy: Vec<ValueType> = Vec::new();
    let mut i: usize = 0;
    while i < types.len()
        invariant
            i <= types.len(),
            copy@ == types@.take(i as int),
        decreases types.len() - i,
    {
        copy.push(types[i]);
        assert(types@.take(i + 1) == types@.take(i as int).push(types@[i as int]));
        i += 1;
    }
    assert(types@.take(types@.len() as int) == types@);
    copy
}

/// Whether two lists of types are equal.
pub fn same_types(left: &Vec<ValueType>, right: &Vec<ValueType>) -> (same: bool)
    ensures
        same == (left@ == right@),
{
    if left.len() != right.len() {
        return false;
    }
    let mut i: usize = 0;
    while i < left.len()
        invariant
            i <= left.len(),
            left.len() == right.len(),
            forall|j: int| 0 <= j < i ==> left@[j] == right@[j],
        decreases left.len() - i,
    {
        if left[i] != right[i] {
            return false;
        }
        i += 1;
    }
    assert(left@ =~= right@);
    true
}

impl Signature {
    /// A signature with the given parameter and result types.
    pub fn new(params: Vec<ValueType>, results: Vec<ValueType>) -> (signature: Self)
        ensures
            signature@.params == params@,
            signature@.results == results@,
    {
        Signature { params, results }
    }

    /// Decides [`SignatureSpec::accepts`].
    pub fn accepts(&self, args: &[Value]) -> (ok: bool)
        ensures
            ok == self@.accepts(args@),
    {
        check_types(args, &self.params)
    }

    /// Decides [`SignatureSpec::yields`].
    pub fn yields(&self, values: &[Value]) -> (ok: bool)
        ensures
            ok == self@.yields(values@),
    {
        check_types(values, &self.results)
    }

    /// Decides [`SignatureSpec::is_scalar`].
    pub fn is_scalar(&self) -> (ok: bool)
        ensures
            ok == self@.is_scalar(),
    {
        check_scalar(&self.params) && check_scalar(&self.results)
    }

    /// Whether `self` and `other` have the same parameters and results.
    pub fn same(&self, other: &Signature) -> (same: bool)
        ensures
            same == (self@ == other@),
    {
        same_types(&self.params, &other.params) && same_types(&self.results, &other.results)
    }

    /// A copy of this signature.
    pub fn duplicate(&self) -> (copy: Signature)
        ensures
            copy@ == self@,
    {
        Signature { params: copy_types(&self.params), results: copy_types(&self.results) }
    }
}

} // verus!
