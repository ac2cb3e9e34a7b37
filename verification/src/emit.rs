//! The emitters: the wrapper definition of a descriptor as source text, one
//! strategy for each signature kind.
//!
//! Every wrapper is declared `unsafe`: it trusts its caller with the
//! validity and lifetime of what is handed to the native call. Its body is
//! compiled for the supported platform only; elsewhere a call fails at once.

use crate::classify::{classify, signature_kind, SignatureKind};
use crate::descriptor::{
    optional_text, text_list, ContextView, GenerationContext, MethodDescriptor, MethodView,
    NativeType, ParameterView,
};
use crate::linkage::{
    linkage, required_features, resolve_linkage, ClassificationError, LinkMode, LinkSpec, LinkView,
};
use crate::mapper::{
    declare_type, declared_type, leading_mapping, map_parameters, mapped_views, MappedParameter,
    MappedView,
};
use vstd::prelude::*;
use vstd::string::StringExecFns;

verus! {

/// The capability that the generic parameter of a query wrapper must have:
/// an interface with a type identifier that can be found.
pub const INTERFACE_BOUND: &'static str = "T: ::windows::runtime::Interface";

/// The parameter through which the caller of an optional query supplies the
/// output slot.
pub const SLOT_PARAMETER: &'static str = "result__: *mut ::std::option::Option<T>";

/// How every wrapper ends: the close of the platform's block, and the branch
/// for any other platform, which fails at once.
pub const FAIL_FAST: &'static str =
    "    }\n    #[cfg(not(windows))]\n    unimplemented!(\"Unsupported target OS\");\n}\n";

/// The line that restricts a wrapper to one architecture; nothing where
/// there is no restriction.
pub open spec fn architecture_line(gate: Option<Seq<char>>) -> Seq<char> {
    match gate {
        Some(arch) => "#[cfg(target_arch = \""@ + arch + "\")]\n"@,
        None => Seq::empty(),
    }
}

/// What stands between two terms of a list: nothing before the first.
pub open spec fn separator(i: int) -> Seq<char> {
    if i > 0 {
        ", "@
    } else {
        ""@
    }
}

/// The first `n` features as terms of a conjunction.
pub open spec fn feature_terms(flags: Seq<Seq<char>>, n: nat) -> Seq<char>
    decreases n,
{
    if n == 0 {
        Seq::empty()
    } else {
        feature_terms(flags, (n - 1) as nat) + separator(n - 1) + "feature = \""@ + flags[n - 1]
            + "\""@
    }
}

/// The line that demands every feature of a conjunction; nothing for an
/// empty conjunction.
pub open spec fn feature_line(flags: Seq<Seq<char>>) -> Seq<char> {
    if flags.len() == 0 {
        Seq::empty()
    } else {
        "#[cfg(all("@ + feature_terms(flags, flags.len()) + "))]\n"@
    }
}

/// The attribute that names the import library.
pub open spec fn link_line(link: LinkView) -> Seq<char> {
    match link.mode {
        LinkMode::Static => "#[link(name = \""@ + link.target_name + "\", kind = \"static\")]"@,
        LinkMode::Dynamic => "#[link(name = \""@ + link.target_name + "\")]"@,
    }
}

/// The first `n` native parameters as the import declaration lists them.
pub open spec fn declared_parameters(ps: Seq<ParameterView>, n: nat) -> Seq<char>
    decreases n,
{
    if n == 0 {
        Seq::empty()
    } else {
        declared_parameters(ps, (n - 1) as nat) + ps[n - 1].name + ": "@ + declared_type(
            ps[n - 1],
        ) + ", "@
    }
}

/// The native return type as a declaration states it; nothing for no value.
pub open spec fn return_clause(def: MethodView) -> Seq<char> {
    if def.return_type == NativeType::Void {
        Seq::empty()
    } else {
        " -> "@ + def.return_type_text
    }
}

/// The first `n` caller-facing parameters as the wrapper lists them.
pub open spec fn caller_parameters(ms: Seq<MappedView>, n: nat) -> Seq<char>
    decreases n,
{
    if n == 0 {
        Seq::empty()
    } else {
        caller_parameters(ms, (n - 1) as nat) + ms[n - 1].name + ": "@ + ms[n - 1].caller_type
            + ", "@
    }
}

/// The first `n` raw arguments as the native call lists them.
pub open spec fn call_arguments(ms: Seq<MappedView>, n: nat) -> Seq<char>
    decreases n,
{
    if n == 0 {
        Seq::empty()
    } else {
        call_arguments(ms, (n - 1) as nat) + ms[n - 1].raw_argument + ", "@
    }
}

/// One of the first `n` mapped parameters has a bound.
pub open spec fn any_constraint(ms: Seq<MappedView>, n: nat) -> bool
    decreases n,
{
    n > 0 && (any_constraint(ms, (n - 1) as nat) || ms[n - 1].constraint is Some)
}

/// The bounds of the first `n` mapped parameters, in their order.
pub open spec fn constraint_list(ms: Seq<MappedView>, n: nat) -> Seq<char>
    decreases n,
{
    if n == 0 {
        Seq::empty()
    } else {
        match ms[n - 1].constraint {
            Some(bound) => constraint_list(ms, (n - 1) as nat) + bound + ", "@,
            None => constraint_list(ms, (n - 1) as nat),
        }
    }
}

/// The lifetime that the bounds speak of, where there is a bound.
pub open spec fn lifetime_parameter(ms: Seq<MappedView>) -> Seq<char> {
    if any_constraint(ms, ms.len()) {
        "'a, "@
    } else {
        ""@
    }
}

/// The interface type of a query wrapper, nothing for the other kinds.
pub open spec fn interface_parameter(kind: SignatureKind) -> Seq<char> {
    match kind {
        SignatureKind::Query | SignatureKind::QueryOptional => INTERFACE_BOUND@,
        _ => ""@,
    }
}

/// The generic parameters of a wrapper: the bounds of all its leading
/// parameters, then, for the query kinds, the interface type.
pub open spec fn generic_parameters(kind: SignatureKind, ms: Seq<MappedView>) -> Seq<char> {
    lifetime_parameter(ms) + constraint_list(ms, ms.len()) + interface_parameter(kind)
}

/// The parameter that a wrapper has beyond the leading ones: the output
/// slot of an optional query.
pub open spec fn slot_parameter(kind: SignatureKind) -> Seq<char> {
    match kind {
        SignatureKind::QueryOptional => SLOT_PARAMETER@,
        _ => ""@,
    }
}

/// The type of the value that a result-value wrapper returns: that of the
/// last native parameter.
pub open spec fn value_type(def: MethodView) -> Seq<char> {
    if def.parameters.len() >= 1 {
        def.parameters[def.parameters.len() - 1].type_text
    } else {
        Seq::empty()
    }
}

/// What a wrapper returns.
pub open spec fn result_clause(def: MethodView, kind: SignatureKind) -> Seq<char> {
    match kind {
        SignatureKind::Query => " -> ::windows::runtime::Result<T>"@,
        SignatureKind::QueryOptional | SignatureKind::ResultVoid =>
            " -> ::windows::runtime::Result<()>"@,
        SignatureKind::ResultValue => " -> ::windows::runtime::Result<"@ + value_type(def) + ">"@,
        SignatureKind::ReturnStruct | SignatureKind::PreserveSig => return_clause(def),
    }
}

/// The native call and what a wrapper makes of its result, given the text
/// of the leading arguments.
pub open spec fn call_text(def: MethodView, kind: SignatureKind, args: Seq<char>) -> Seq<char> {
    match kind {
        SignatureKind::Query =>
            "        let mut result__ = ::std::option::Option::None;\n        "@ + def.name + "("@
                + args
                + "&<T as ::windows::runtime::Interface>::IID, &mut result__ as *mut _ as *mut _).and_some(result__)\n"@,
        SignatureKind::QueryOptional =>
            "        "@ + def.name + "("@ + args
                + "&<T as ::windows::runtime::Interface>::IID, result__ as *mut _ as *mut _).ok()\n"@,
        SignatureKind::ResultValue =>
            "        let mut result__: <"@ + value_type(def)
                + " as ::windows::runtime::Abi>::Abi = ::std::mem::zeroed();\n        "@ + def.name
                + "("@ + args + "&mut result__).from_abi::<"@ + value_type(def) + ">(result__)\n"@,
        SignatureKind::ResultVoid => "        "@ + def.name + "("@ + args + ").ok()\n"@,
        SignatureKind::ReturnStruct | SignatureKind::PreserveSig =>
            "        ::std::mem::transmute("@ + def.name + "("@ + args + "))\n"@,
    }
}

/// The first line of a wrapper: its name, generic parameters, parameters
/// and result.
pub open spec fn wrapper_head(def: MethodView, kind: SignatureKind, ms: Seq<MappedView>) -> Seq<
    char,
> {
    "pub unsafe fn "@ + def.name + "<"@ + generic_parameters(kind, ms) + ">("@ + caller_parameters(
        ms,
        ms.len(),
    ) + slot_parameter(kind) + ")"@ + result_clause(def, kind) + " {\n"@
}

/// The opening of the platform's block and the declaration of the native
/// function with all its parameters.
pub open spec fn import_block(def: MethodView, link: LinkView) -> Seq<char> {
    "    #[cfg(windows)]\n    {\n        "@ + link_line(link)
        + "\n        extern \"system\" {\n            fn "@ + def.name + "("@
        + declared_parameters(def.parameters, def.parameters.len()) + ")"@ + return_clause(def)
        + ";\n        }\n"@
}

/// The wrapper without its gates.
pub open spec fn definition_text(def: MethodView, link: LinkView) -> Seq<char> {
    let kind = signature_kind(def);
    let ms = leading_mapping(def);
    wrapper_head(def, kind, ms) + import_block(def, link) + call_text(
        def,
        kind,
        call_arguments(ms, ms.len()),
    ) + FAIL_FAST@
}

/// The whole fragment of a descriptor with a given linkage: the gates, then
/// the wrapper.
pub open spec fn wrapper_text(def: MethodView, link: LinkView) -> Seq<char> {
    architecture_line(link.architecture_gate) + feature_line(link.feature_gate) + definition_text(
        def,
        link,
    )
}

/// What generation yields for a descriptor in a context.
pub open spec fn generated(def: MethodView, ctx: ContextView) -> Result<
    Seq<char>,
    ClassificationError,
> {
    match linkage(def, ctx) {
        Ok(link) => Ok(wrapper_text(def, link)),
        Err(e) => Err(e),
    }
}

/// What the contracts see of the outcome of [`gen_function`].
pub open spec fn fragment_view(r: Result<String, ClassificationError>) -> Result<
    Seq<char>,
    ClassificationError,
> {
    match r {
        Ok(text) => Ok(text@),
        Err(e) => Err(e),
    }
}

/// Writes the architecture gate.
pub fn emit_architecture_line(gate: &Option<String>) -> (text: String)
    ensures
        text@ == architecture_line(optional_text(*gate)),
{
    match gate {
        Some(arch) => {
            let mut text = String::from_str("#[cfg(target_arch = \"");
            text.append(arch.as_str());
            text.append("\")]\n");
            text
        },
        None => String::new(),
    }
}

/// Writes the feature gate.
pub fn emit_feature_line(flags: &Vec<String>) -> (text: String)
    ensures
        text@ == feature_line(text_list(flags@)),
{
    if flags.len() == 0 {
        return String::new();
    }
    let ghost all = text_list(flags@);
    let mut terms = String::new();
    let mut i: usize = 0;
    while i < flags.len()
        invariant
            i <= flags.len(),
            all == text_list(flags@),
            terms@ == feature_terms(all, i as nat),
        decreases flags.len() - i,
    {
        assert(all[i as int] == flags[i as int]@);
        terms.append(if i > 0 { ", " } else { "" });
        terms.append("feature = \"");
        terms.append(flags[i].as_str());
        terms.append("\"");
        i += 1;
    }
    let mut text = String::from_str("#[cfg(all(");
    text.append(terms.as_str());
    text.append("))]\n");
    text
}

/// Writes the link attribute.
pub fn emit_link_line(link: &LinkSpec) -> (text: String)
    ensures
        text@ == link_line(link@),
{
    let mut text = String::from_str("#[link(name = \"");
    text.append(link.target_name.as_str());
    match link.mode {
        LinkMode::Static => text.append("\", kind = \"static\")]"),
        LinkMode::Dynamic => text.append("\")]"),
    }
    text
}

/// Writes the native parameters of the import declaration.
pub fn emit_declared_parameters(def: &MethodDescriptor) -> (text: String)
    ensures
        text@ == declared_parameters(def@.parameters, def@.parameters.len()),
{
    let mut text = String::new();
    let mut i: usize = 0;
    while i < def.parameters.len()
        invariant
            i <= def.parameters.len(),
            text@ == declared_parameters(def@.parameters, i as nat),
        decreases def.parameters.len() - i,
    {
        let p = &def.parameters[i];
        assert(def@.parameters[i as int] == p@);
        let spelled = declare_type(p);
        text.append(p.name.as_str());
        text.append(": ");
        text.append(spelled.as_str());
        text.append(", ");
        i += 1;
    }
    text
}

/// Writes the native return type.
pub fn emit_return_clause(def: &MethodDescriptor) -> (text: String)
    ensures
        text@ == return_clause(def@),
{
    if def.return_type == NativeType::Void {
        String::new()
    } else {
        let mut text = String::from_str(" -> ");
        text.append(def.return_type_text.as_str());
        text
    }
}

/// Writes the caller-facing parameters.
pub fn emit_caller_parameters(ms: &Vec<MappedParameter>) -> (text: String)
    ensures
        text@ == caller_parameters(mapped_views(ms@), ms@.len()),
{
    let mut text = String::new();
    let mut i: usize = 0;
    while i < ms.len()
        invariant
            i <= ms.len(),
            text@ == caller_parameters(mapped_views(ms@), i as nat),
        decreases ms.len() - i,
    {
        let m = &ms[i];
        assert(mapped_views(ms@)[i as int] == m@);
        text.append(m.name.as_str());
        text.append(": ");
        text.append(m.caller_type.as_str());
        text.append(", ");
        i += 1;
    }
    text
}

/// Writes the raw arguments.
pub fn emit_call_arguments(ms: &Vec<MappedParameter>) -> (text: String)
    ensures
        text@ == call_arguments(mapped_views(ms@), ms@.len()),
{
    let mut text = String::new();
    let mut i: usize = 0;
    while i < ms.len()
        invariant
            i <= ms.len(),
            text@ == call_arguments(mapped_views(ms@), i as nat),
        decreases ms.len() - i,
    {
        let m = &ms[i];
        assert(mapped_views(ms@)[i as int] == m@);
        text.append(m.raw_argument.as_str());
        text.append(", ");
        i += 1;
    }
    text
}

/// Spells the type of the value that a result-value wrapper returns.
pub fn emit_value_type(def: &MethodDescriptor) -> (text: String)
    ensures
        text@ == value_type(def@),
{
    let n: usize = def.parameters.len();
    if n >= 1 {
        let last = &def.parameters[n - 1];
        assert(def@.parameters[n - 1] == last@);
        last.type_text.clone()
    } else {
        String::new()
    }
}

/// Writes what a wrapper of the given kind returns.
pub fn emit_result_clause(def: &MethodDescriptor, kind: SignatureKind) -> (text: String)
    ensures
        text@ == result_clause(def@, kind),
{
    match kind {
        SignatureKind::Query => String::from_str(" -> ::windows::runtime::Result<T>"),
        SignatureKind::QueryOptional | SignatureKind::ResultVoid => String::from_str(
            " -> ::windows::runtime::Result<()>",
        ),
        SignatureKind::ResultValue => {
            let value = emit_value_type(def);
            let mut text = String::from_str(" -> ::windows::runtime::Result<");
            text.append(value.as_str());
            text.append(">");
            text
        },
        SignatureKind::ReturnStruct | SignatureKind::PreserveSig => emit_return_clause(def),
    }
}

/// Writes the native call of a wrapper of the given kind and the conversion
/// of its result. `args` is the text of the leading arguments.
///
/// - `Query`: the call gets the identifier of `T` and the address of an
///   empty slot; the status and the slot together become the result, and a
///   slot left empty on success is an error.
/// - `QueryOptional`: the call gets the identifier of `T` and the caller's
///   slot; only the status is returned.
/// - `ResultValue`: the call gets the address of a zeroed raw buffer, which
///   is converted to the value type on success, with its validity checked.
/// - `ResultVoid`: the status alone becomes the result.
/// - `ReturnStruct`, `PreserveSig`: the native result is returned as it is.
pub fn emit_call(def: &MethodDescriptor, kind: SignatureKind, args: &str) -> (text: String)
    ensures
        text@ == call_text(def@, kind, args@),
{
    let name = def.name.as_str();
    match kind {
        SignatureKind::Query => {
            let mut text = String::from_str(
                "        let mut result__ = ::std::option::Option::None;\n        ",
            );
            text.append(name);
            text.append("(");
            text.append(args);
            text.append(
                "&<T as ::windows::runtime::Interface>::IID, &mut result__ as *mut _ as *mut _).and_some(result__)\n",
            );
            text
        },
        SignatureKind::QueryOptional => {
            let mut text = String::from_str("        ");
            text.append(name);
            text.append("(");
            text.append(args);
            text.append(
                "&<T as ::windows::runtime::Interface>::IID, result__ as *mut _ as *mut _).ok()\n",
            );
            text
        },
        SignatureKind::ResultValue => {
            let value = emit_value_type(def);
            let mut text = String::from_str("        let mut result__: <");
            text.append(value.as_str());
            text.append(" as ::windows::runtime::Abi>::Abi = ::std::mem::zeroed();\n        ");
            text.append(name);
            text.append("(");
            text.append(args);
            text.append("&mut result__).from_abi::<");
            text.append(value.as_str());
            text.append(">(result__)\n");
            text
        },
        SignatureKind::ResultVoid => {
            let mut text = String::from_str("        ");
            text.append(name);
            text.append("(");
            text.append(args);
            text.append(").ok()\n");
            text
        },
        SignatureKind::ReturnStruct | SignatureKind::PreserveSig => {
            let mut text = String::from_str("        ::std::mem::transmute(");
            text.append(name);
            text.append("(");
            text.append(args);
            text.append("))\n");
            text
        },
    }
}

/// Writes the generic parameters of a wrapper.
pub fn emit_generic_parameters(kind: SignatureKind, ms: &Vec<MappedParameter>) -> (text: String)
    ensures
        text@ == generic_parameters(kind, mapped_views(ms@)),
{
    let mut bounds = String::new();
    let mut any: bool = false;
    let mut i: usize = 0;
    while i < ms.len()
        invariant
            i <= ms.len(),
            bounds@ == constraint_list(mapped_views(ms@), i as nat),
            any == any_constraint(mapped_views(ms@), i as nat),
        decreases ms.len() - i,
    {
        let m = &ms[i];
        assert(mapped_views(ms@)[i as int] == m@);
        match &m.constraint {
            Some(bound) => {
                bounds.append(bound.as_str());
                bounds.append(", ");
                any = true;
            },
            None => {},
        }
        i += 1;
    }
    let mut text = String::from_str(if any { "'a, " } else { "" });
    text.append(bounds.as_str());
    text.append(
        match kind {
            SignatureKind::Query | SignatureKind::QueryOptional => INTERFACE_BOUND,
            _ => "",
        },
    );
    text
}

/// Writes the first line of a wrapper.
pub fn emit_head(def: &MethodDescriptor, kind: SignatureKind, ms: &Vec<MappedParameter>) -> (text:
    String)
    ensures
        text@ == wrapper_head(def@, kind, mapped_views(ms@)),
{
    let params = emit_caller_parameters(ms);
    let result = emit_result_clause(def, kind);
    let generics = emit_generic_parameters(kind, ms);
    let mut text = String::from_str("pub unsafe fn ");
    text.append(def.name.as_str());
    text.append("<");
    text.append(generics.as_str());
    text.append(">(");
    text.append(params.as_str());
    text.append(
        match kind {
            SignatureKind::QueryOptional => SLOT_PARAMETER,
            _ => "",
        },
    );
    text.append(")");
    text.append(result.as_str());
    text.append(" {\n");
    text
}

/// Writes the opening of the platform's block and the import declaration.
pub fn emit_import_block(def: &MethodDescriptor, link: &LinkSpec) -> (text: String)
    ensures
        text@ == import_block(def@, link@),
{
    let attribute = emit_link_line(link);
    let declared = emit_declared_parameters(def);
    let returned = emit_return_clause(def);
    let mut text = String::from_str("    #[cfg(windows)]\n    {\n        ");
    text.append(attribute.as_str());
    text.append("\n        extern \"system\" {\n            fn ");
    text.append(def.name.as_str());
    text.append("(");
    text.append(declared.as_str());
    text.append(")");
    text.append(returned.as_str());
    text.append(";\n        }\n");
    text
}

/// Writes the fragment of a descriptor whose linkage is known: it
/// classifies the descriptor, maps its leading parameters and writes the
/// gates and the wrapper of its kind.
pub fn emit_wrapper(def: &MethodDescriptor, link: &LinkSpec) -> (text: String)
    ensures
        text@ == wrapper_text(def@, link@),
{
    let kind = classify(def);
    let ms = map_parameters(def);
    let features = emit_feature_line(&link.feature_gate);
    let head = emit_head(def, kind, &ms);
    let import = emit_import_block(def, link);
    let args = emit_call_arguments(&ms);
    let call = emit_call(def, kind, args.as_str());
    let mut text = emit_architecture_line(&link.architecture_gate);
    text.append(features.as_str());
    text.append(head.as_str());
    text.append(import.as_str());
    text.append(call.as_str());
    text.append(FAIL_FAST);
    text
}

/// Generates the wrapper of one native function: one self-contained
/// fragment of source text, or the error where the descriptor has no
/// linkage. The outcome depends on the descriptor and the context alone.
pub fn gen_function(def: &MethodDescriptor, ctx: &GenerationContext) -> (fragment: Result<
    String,
    ClassificationError,
>)
    ensures
        fragment_view(fragment) == generated(def@, ctx@),
{
    match resolve_linkage(def, ctx) {
        Ok(link) => Ok(emit_wrapper(def, &link)),
        Err(e) => Err(e),
    }
}

/// Generates the wrappers of a batch of native functions in one context:
/// one outcome for each descriptor, in the order of the descriptors. A
/// descriptor that cannot be processed is reported in its place, and the
/// others are generated as if it were not there.
pub fn gen_functions(defs: &Vec<MethodDescriptor>, ctx: &GenerationContext) -> (fragments: Vec<
    Result<String, ClassificationError>,
>)
    ensures
        fragments.len() == defs.len(),
        forall|i: int|
            0 <= i < defs.len() ==> fragment_view(#[trigger] fragments[i]) == generated(
                defs[i]@,
                ctx@,
            ),
{
    let mut fragments: Vec<Result<String, ClassificationError>> = Vec::new();
    let mut i: usize = 0;
    while i < defs.len()
        invariant
            i <= defs.len(),
            fragments.len() == i,
            forall|j: int|
                0 <= j < i ==> fragment_view(#[trigger] fragments[j]) == generated(
                    defs[j]@,
                    ctx@,
                ),
        decreases defs.len() - i,
    {
        fragments.push(gen_function(&defs[i], ctx));
        i += 1;
    }
    fragments
}

/// Generation is a function of its input: descriptors and contexts with the
/// same content yield the same fragment, character for character, and so
/// does one input whenever it is generated again.
pub proof fn generation_is_deterministic(
    a: MethodDescriptor,
    b: MethodDescriptor,
    c: GenerationContext,
    d: GenerationContext,
)
    requires
        a@ == b@,
        c@ == d@,
    ensures
        generated(a@, c@) == generated(b@, d@),
{
}

/// The architecture gate stands first in the fragment of a descriptor that
/// restricts the architecture, and a descriptor with no restriction and no
/// required feature yields the bare wrapper, compiled unconditionally.
pub proof fn gates_lead_the_fragment(def: MethodView, link: LinkView)
    ensures
        architecture_line(link.architecture_gate).is_prefix_of(wrapper_text(def, link)),
        link.architecture_gate is None ==> wrapper_text(def, link) == feature_line(
            link.feature_gate,
        ) + definition_text(def, link),
        link.architecture_gate is None && link.feature_gate.len() == 0 ==> wrapper_text(def, link)
            == definition_text(def, link),
{
    let arch = architecture_line(link.architecture_gate);
    let rest = feature_line(link.feature_gate) + definition_text(def, link);
    assert(wrapper_text(def, link) =~= arch + rest);
    assert((arch + rest).subrange(0, arch.len() as int) =~= arch);
    if link.architecture_gate is None {
        assert(arch + rest =~= rest);
        if link.feature_gate.len() == 0 {
            assert(rest =~= definition_text(def, link));
        }
    }
}

/// What is generated for a descriptor with a linkage is the line that
/// restricts it to its architecture, the line that demands its features and
/// the wrapper, in that order; a descriptor without a restriction has no
/// architecture line, and one that requires no feature has no feature line.
pub proof fn generated_fragment_is_gated(def: MethodView, ctx: ContextView)
    requires
        linkage(def, ctx) is Ok,
    ensures
        generated(def, ctx) == Ok::<Seq<char>, ClassificationError>(
            architecture_line(def.supported_architecture) + feature_line(
                required_features(def, ctx),
            ) + definition_text(def, linkage(def, ctx)->Ok_0),
        ),
        def.supported_architecture is None ==> architecture_line(def.supported_architecture).len()
            == 0,
        def.supported_architecture is Some ==> architecture_line(def.supported_architecture)
            == "#[cfg(target_arch = \""@ + def.supported_architecture->Some_0 + "\")]\n"@,
        required_features(def, ctx).len() == 0 ==> feature_line(
            required_features(def, ctx),
        ).len() == 0,
{
}

/// Every wrapper is declared `unsafe` under the name of its descriptor: the
/// definition begins with that declaration, whatever the kind.
pub proof fn wrapper_is_declared_unsafe(def: MethodView, link: LinkView)
    ensures
        ("pub unsafe fn "@ + def.name).is_prefix_of(definition_text(def, link)),
        ("pub unsafe fn "@ + def.name).is_prefix_of(
            wrapper_head(def, signature_kind(def), leading_mapping(def)),
        ),
{
    let kind = signature_kind(def);
    let ms = leading_mapping(def);
    let declared = "pub unsafe fn "@ + def.name;
    let signature = "<"@ + generic_parameters(kind, ms) + ">("@ + caller_parameters(ms, ms.len())
        + slot_parameter(kind) + ")"@ + result_clause(def, kind) + " {\n"@;
    let body = import_block(def, link) + call_text(def, kind, call_arguments(ms, ms.len()))
        + FAIL_FAST@;
    assert(wrapper_head(def, kind, ms) =~= declared + signature);
    assert((declared + signature).subrange(0, declared.len() as int) =~= declared);
    assert(definition_text(def, link) =~= declared + (signature + body));
    assert((declared + (signature + body)).subrange(0, declared.len() as int) =~= declared);
}

/// Every fragment ends in the branch for an unsupported platform, which
/// fails at once: no wrapper falls through to a made-up value there.
pub proof fn wrapper_ends_in_fail_fast(def: MethodView, link: LinkView)
    ensures
        FAIL_FAST@.is_suffix_of(wrapper_text(def, link)),
{
    let whole = wrapper_text(def, link);
    let kind = signature_kind(def);
    let ms = leading_mapping(def);
    let front = architecture_line(link.architecture_gate) + feature_line(link.feature_gate)
        + wrapper_head(def, kind, ms) + import_block(def, link) + call_text(
        def,
        kind,
        call_arguments(ms, ms.len()),
    );
    assert(whole =~= front + FAIL_FAST@);
    assert((front + FAIL_FAST@).subrange(whole.len() - FAIL_FAST@.len(), whole.len() as int)
        =~= FAIL_FAST@);
}

} // verus!
