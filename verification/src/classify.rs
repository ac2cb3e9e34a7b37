//! The signature classifier: every descriptor has exactly one kind, decided
//! by its trailing parameters and its return type.

use crate::descriptor::{MethodDescriptor, MethodView, NativeType, ParameterView};
use vstd::prelude::*;

verus! {

/// The calling-and-error convention of a native function.
#[derive(Clone, Copy, Debug, PartialEq, Eq, Structural)]
pub enum SignatureKind {
    /// The native call writes an interface of the requested type, which the
    /// wrapper returns.
    Query,
    /// As `Query`, but the interface goes to a slot that the caller supplies.
    QueryOptional,
    /// The last parameter is the real result; the status is the error channel.
    ResultValue,
    /// The status is all there is.
    ResultVoid,
    /// The native function returns a composite value.
    ReturnStruct,
    /// The native return value is handed on unchanged.
    PreserveSig,
}

/// The last two parameters are an output identifier slot followed by an
/// output interface-pointer slot.
pub open spec fn ends_in_query_slots(ps: Seq<ParameterView>) -> bool {
    &&& ps.len() >= 2
    &&& ps[ps.len() - 2].native_type == NativeType::Identifier
    &&& ps[ps.len() - 2].is_output
    &&& ps[ps.len() - 1].native_type == NativeType::InterfacePointer
    &&& ps[ps.len() - 1].is_output
}

/// The last parameter is an output slot.
pub open spec fn ends_in_output(ps: Seq<ParameterView>) -> bool {
    ps.len() >= 1 && ps[ps.len() - 1].is_output
}

/// The last parameter is an output slot for one scalar or handle.
pub open spec fn ends_in_value_slot(ps: Seq<ParameterView>) -> bool {
    &&& ends_in_output(ps)
    &&& (ps[ps.len() - 1].native_type == NativeType::Scalar
        || ps[ps.len() - 1].native_type == NativeType::Handle)
}

/// The kind of a descriptor: the first rule that applies decides.
pub open spec fn signature_kind(def: MethodView) -> SignatureKind {
    let ps = def.parameters;
    if ends_in_query_slots(ps) {
        if ps[ps.len() - 1].is_optional {
            SignatureKind::QueryOptional
        } else {
            SignatureKind::Query
        }
    } else if def.return_type == NativeType::Status && ends_in_value_slot(ps) {
        SignatureKind::ResultValue
    } else if def.return_type == NativeType::Status && !ends_in_output(ps) {
        SignatureKind::ResultVoid
    } else if def.return_type == NativeType::Struct {
        SignatureKind::ReturnStruct
    } else {
        SignatureKind::PreserveSig
    }
}

/// Assigns the descriptor its kind. Never fails: a descriptor that matches
/// no other rule keeps its native signature.
pub fn classify(def: &MethodDescriptor) -> (kind: SignatureKind)
    ensures
        kind == signature_kind(def@),
{
    let n: usize = def.parameters.len();
    if n >= 2 {
        let id = &def.parameters[n - 2];
        let slot = &def.parameters[n - 1];
        if id.native_type == NativeType::Identifier && id.is_output
            && slot.native_type == NativeType::InterfacePointer && slot.is_output {
            if slot.is_optional {
                return SignatureKind::QueryOptional;
            }
            return SignatureKind::Query;
        }
    }
    let status: bool = def.return_type == NativeType::Status;
    if n >= 1 {
        let last = &def.parameters[n - 1];
        if status && last.is_output && (last.native_type == NativeType::Scalar
            || last.native_type == NativeType::Handle) {
            return SignatureKind::ResultValue;
        }
        if status && !last.is_output {
            return SignatureKind::ResultVoid;
        }
    } else if status {
        return SignatureKind::ResultVoid;
    }
    if def.return_type == NativeType::Struct {
        SignatureKind::ReturnStruct
    } else {
        SignatureKind::PreserveSig
    }
}

/// Classification is a function of what a descriptor holds: two descriptors
/// with the same content have the same kind, and so has one descriptor
/// whenever it is classified again.
pub proof fn classification_is_deterministic(a: MethodDescriptor, b: MethodDescriptor)
    requires
        a@ == b@,
    ensures
        signature_kind(a@) == signature_kind(b@),
{
}

/// A query kind is only ever assigned to a descriptor with at least two
/// parameters, and a result-value kind to one with at least one.
pub proof fn kind_implies_trailing_parameters(def: MethodView)
    ensures
        signature_kind(def) == SignatureKind::Query || signature_kind(def)
            == SignatureKind::QueryOptional ==> def.parameters.len() >= 2,
        signature_kind(def) == SignatureKind::ResultValue ==> def.parameters.len() >= 1,
{
}

} // verus!
