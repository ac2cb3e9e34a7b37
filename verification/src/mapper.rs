//! The parameter and argument mapper: which native parameters a caller of
//! the wrapper sees, and for each of them the caller-facing parameter and
//! the raw argument of the native call.

use crate::classify::{classify, signature_kind, SignatureKind};
use crate::descriptor::{
    optional_text, MethodDescriptor, MethodView, NativeType, ParameterDescriptor, ParameterView,
};
use vstd::prelude::*;
use vstd::string::StringExecFns;

verus! {

/// What one leading native parameter becomes.
#[derive(Clone, Debug, PartialEq, Eq)]
pub struct MappedParameter {
    pub name: String,
    /// The high-level type that the caller passes.
    pub caller_type: String,
    /// The expression that the native call receives.
    pub raw_argument: String,
    /// The bound on the generic type that stands for the parameter, where
    /// the caller may pass anything that converts into the native type.
    pub constraint: Option<String>,
}

/// What the contracts see of a [`MappedParameter`].
pub struct MappedView {
    pub name: Seq<char>,
    pub caller_type: Seq<char>,
    pub raw_argument: Seq<char>,
    pub constraint: Option<Seq<char>>,
}

impl View for MappedParameter {
    type V = MappedView;

    open spec fn view(&self) -> MappedView {
        MappedView {
            name: self.name@,
            caller_type: self.caller_type@,
            raw_argument: self.raw_argument@,
            constraint: optional_text(self.constraint),
        }
    }
}

/// The views of a list of mapped parameters.
pub open spec fn mapped_views(v: Seq<MappedParameter>) -> Seq<MappedView> {
    v.map_values(|m: MappedParameter| m@)
}

/// How many trailing parameters a convention keeps for itself.
pub open spec fn consumed_count(kind: SignatureKind) -> nat {
    match kind {
        SignatureKind::Query | SignatureKind::QueryOptional => 2,
        SignatureKind::ResultValue => 1,
        SignatureKind::ResultVoid | SignatureKind::ReturnStruct | SignatureKind::PreserveSig => 0,
    }
}

/// How many parameters of a descriptor the caller of its wrapper sees.
pub open spec fn leading_count(def: MethodView) -> nat {
    (def.parameters.len() - consumed_count(signature_kind(def))) as nat
}

/// The caller may pass anything that converts into the parameter's type:
/// so it is for an interface that goes into the native call.
pub open spec fn is_convertible(p: ParameterView) -> bool {
    !p.is_output && p.native_type == NativeType::InterfacePointer
}

/// One decimal digit.
pub open spec fn digit_text(d: nat) -> Seq<char> {
    if d == 0 {
        "0"@
    } else if d == 1 {
        "1"@
    } else if d == 2 {
        "2"@
    } else if d == 3 {
        "3"@
    } else if d == 4 {
        "4"@
    } else if d == 5 {
        "5"@
    } else if d == 6 {
        "6"@
    } else if d == 7 {
        "7"@
    } else if d == 8 {
        "8"@
    } else {
        "9"@
    }
}

/// A number in decimal digits, without leading zeros.
pub open spec fn decimal_text(n: nat) -> Seq<char>
    decreases n,
{
    if n < 10 {
        digit_text(n)
    } else {
        decimal_text(n / 10) + digit_text(n % 10)
    }
}

/// The generic type that stands for the parameter at a position.
pub open spec fn generic_name(index: nat) -> Seq<char> {
    "Param"@ + decimal_text(index)
}

/// The native call only reads what the slot points to: so it is for an
/// identifier slot, through which a type identifier is handed in.
pub open spec fn is_read_only_slot(p: ParameterView) -> bool {
    p.native_type == NativeType::Identifier
}

/// How a reference to the contents of a slot begins.
pub open spec fn reference_prefix(p: ParameterView) -> Seq<char> {
    if is_read_only_slot(p) {
        "&"@
    } else {
        "&mut "@
    }
}

/// How a raw pointer to the contents of a slot begins.
pub open spec fn pointer_prefix(p: ParameterView) -> Seq<char> {
    if is_read_only_slot(p) {
        "*const "@
    } else {
        "*mut "@
    }
}

/// The type that a caller passes: a generic type for a convertible
/// parameter, else the native type by value, a reference for a slot, an
/// optional one where the slot may be left out.
pub open spec fn caller_type(p: ParameterView, index: nat) -> Seq<char> {
    if is_convertible(p) {
        generic_name(index)
    } else if !p.is_output {
        p.type_text
    } else if p.is_optional {
        "::std::option::Option<"@ + reference_prefix(p) + p.type_text + ">"@
    } else {
        reference_prefix(p) + p.type_text
    }
}

/// The argument of the native call: the value itself where it is passed by
/// value, the address behind the reference where it is passed by reference,
/// the converted value for a convertible parameter.
pub open spec fn raw_argument(p: ParameterView) -> Seq<char> {
    if is_convertible(p) {
        p.name + ".into_param().abi()"@
    } else if p.is_output {
        "::std::mem::transmute("@ + p.name + ")"@
    } else {
        p.name
    }
}

/// The bound that a convertible parameter puts on its generic type; none
/// for any other parameter. It depends on the parameter's type and position
/// alone.
pub open spec fn constraint(p: ParameterView, index: nat) -> Option<Seq<char>> {
    if is_convertible(p) {
        Some(generic_name(index) + ": ::windows::runtime::IntoParam<'a, "@ + p.type_text + ">"@)
    } else {
        None
    }
}

/// The native type of a parameter as the import declaration spells it.
pub open spec fn declared_type(p: ParameterView) -> Seq<char> {
    if p.is_output {
        pointer_prefix(p) + p.type_text
    } else {
        p.type_text
    }
}

/// What the native parameter at a position becomes.
pub open spec fn mapped(p: ParameterView, index: nat) -> MappedView {
    MappedView {
        name: p.name,
        caller_type: caller_type(p, index),
        raw_argument: raw_argument(p),
        constraint: constraint(p, index),
    }
}

/// The mapping of the leading parameters of a descriptor, in their order.
pub open spec fn leading_mapping(def: MethodView) -> Seq<MappedView> {
    Seq::new(leading_count(def), |i: int| mapped(def.parameters[i], i as nat))
}

/// Counts the parameters that the caller of the wrapper sees.
pub fn count_leading(def: &MethodDescriptor) -> (count: usize)
    ensures
        count == leading_count(def@),
{
    let n: usize = def.parameters.len();
    match classify(def) {
        SignatureKind::Query | SignatureKind::QueryOptional => n - 2,
        SignatureKind::ResultValue => n - 1,
        SignatureKind::ResultVoid | SignatureKind::ReturnStruct | SignatureKind::PreserveSig => n,
    }
}

/// Spells the native type of a parameter for the import declaration.
pub fn declare_type(p: &ParameterDescriptor) -> (text: String)
    ensures
        text@ == declared_type(p@),
{
    if p.is_output {
        let mut text = String::from_str(
            if p.native_type == NativeType::Identifier {
                "*const "
            } else {
                "*mut "
            },
        );
        text.append(p.type_text.as_str());
        text
    } else {
        p.type_text.clone()
    }
}

/// Writes one decimal digit.
fn digit(d: usize) -> (text: &'static str)
    requires
        d < 10,
    ensures
        text@ == digit_text(d as nat),
{
    if d == 0 {
        "0"
    } else if d == 1 {
        "1"
    } else if d == 2 {
        "2"
    } else if d == 3 {
        "3"
    } else if d == 4 {
        "4"
    } else if d == 5 {
        "5"
    } else if d == 6 {
        "6"
    } else if d == 7 {
        "7"
    } else if d == 8 {
        "8"
    } else {
        "9"
    }
}

/// Writes a number in decimal digits.
pub fn decimal(n: usize) -> (text: String)
    ensures
        text@ == decimal_text(n as nat),
    decreases n,
{
    if n < 10 {
        String::from_str(digit(n))
    } else {
        let mut text = decimal(n / 10);
        text.append(digit(n % 10));
        text
    }
}

/// Maps the native parameter at a position to its caller-facing parameter
/// and its raw argument.
pub fn map_parameter(p: &ParameterDescriptor, index: usize) -> (m: MappedParameter)
    ensures
        m@ == mapped(p@, index as nat),
{
    if !p.is_output && p.native_type == NativeType::InterfacePointer {
        let number = decimal(index);
        let mut generic = String::from_str("Param");
        generic.append(number.as_str());
        let mut bound = generic.clone();
        bound.append(": ::windows::runtime::IntoParam<'a, ");
        bound.append(p.type_text.as_str());
        bound.append(">");
        let mut argument = p.name.clone();
        argument.append(".into_param().abi()");
        MappedParameter {
            name: p.name.clone(),
            caller_type: generic,
            raw_argument: argument,
            constraint: Some(bound),
        }
    } else if !p.is_output {
        MappedParameter {
            name: p.name.clone(),
            caller_type: p.type_text.clone(),
            raw_argument: p.name.clone(),
            constraint: None,
        }
    } else {
        let reference = if p.native_type == NativeType::Identifier {
            "&"
        } else {
            "&mut "
        };
        let passed = if p.is_optional {
            let mut text = String::from_str("::std::option::Option<");
            text.append(reference);
            text.append(p.type_text.as_str());
            text.append(">");
            text
        } else {
            let mut text = String::from_str(reference);
            text.append(p.type_text.as_str());
            text
        };
        let mut argument = String::from_str("::std::mem::transmute(");
        argument.append(p.name.as_str());
        argument.append(")");
        MappedParameter {
            name: p.name.clone(),
            caller_type: passed,
            raw_argument: argument,
            constraint: None,
        }
    }
}

/// Maps the leading parameters of a descriptor, one mapped parameter for
/// each, in their order; the trailing parameters that the convention keeps
/// for itself are left out.
pub fn map_parameters(def: &MethodDescriptor) -> (ms: Vec<MappedParameter>)
    ensures
        mapped_views(ms@) == leading_mapping(def@),
        ms.len() == leading_count(def@),
{
    let count: usize = count_leading(def);
    let mut ms: Vec<MappedParameter> = Vec::new();
    let mut i: usize = 0;
    while i < count
        invariant
            i <= count,
            count == leading_count(def@),
            count <= def.parameters.len(),
            ms.len() == i,
            mapped_views(ms@) =~= Seq::new(
                i as nat,
                |j: int| mapped(def@.parameters[j], j as nat),
            ),
        decreases count - i,
    {
        let m = map_parameter(&def.parameters[i], i);
        proof {
            assert(def@.parameters[i as int] == def.parameters[i as int]@);
            assert(mapped_views(ms@.push(m)) =~= mapped_views(ms@).push(m@));
        }
        ms.push(m);
        i += 1;
    }
    ms
}

/// The number of leading parameters by kind: a query convention keeps the
/// last two parameters for itself, a result-value convention the last one,
/// and the other three conventions none.
pub proof fn leading_count_by_kind(def: MethodView)
    ensures
        signature_kind(def) == SignatureKind::Query || signature_kind(def)
            == SignatureKind::QueryOptional ==> leading_count(def) == def.parameters.len() - 2,
        signature_kind(def) == SignatureKind::ResultValue ==> leading_count(def)
            == def.parameters.len() - 1,
        signature_kind(def) == SignatureKind::ResultVoid || signature_kind(def)
            == SignatureKind::ReturnStruct || signature_kind(def) == SignatureKind::PreserveSig
            ==> leading_count(def) == def.parameters.len(),
        leading_mapping(def).len() == leading_count(def),
{
}

/// Every leading parameter yields exactly one caller-facing parameter and
/// one raw argument, under its own name and in its own place.
pub proof fn mapping_is_one_to_one(def: MethodView, i: int)
    requires
        0 <= i < leading_count(def),
    ensures
        i < def.parameters.len(),
        leading_mapping(def)[i] == mapped(def.parameters[i], i as nat),
        leading_mapping(def)[i].name == def.parameters[i].name,
{
}

} // verus!
