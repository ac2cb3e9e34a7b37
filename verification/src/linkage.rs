//! The linkage resolver: which library a native function is imported from,
//! how it is linked, and under which architecture and features the wrapper
//! is compiled at all.

use crate::descriptor::{
    optional_text, text_list, ContextView, FeatureRuleView, GenerationContext, MethodDescriptor,
    MethodView, NativeType,
};
use crate::text::{lowercased, starts_with, to_lowercase};
use vstd::prelude::*;

verus! {

/// How the import library is linked.
#[derive(Clone, Copy, Debug, PartialEq, Eq, Structural)]
pub enum LinkMode {
    Static,
    Dynamic,
}

/// Why a descriptor cannot be processed: its metadata fits no convention
/// of linkage.
#[derive(Clone, Copy, Debug, PartialEq, Eq, Structural)]
pub enum ClassificationError {
    /// The descriptor names no static library and no owning scope, and the
    /// namespace gives no default.
    UnresolvedLinkage,
}

/// The linkage of one native function and the gates of its wrapper.
#[derive(Clone, Debug, PartialEq, Eq)]
pub struct LinkSpec {
    pub target_name: String,
    pub mode: LinkMode,
    /// The only architecture for which the wrapper is compiled, if any.
    pub architecture_gate: Option<String>,
    /// The features that must all be enabled; none means no gate.
    pub feature_gate: Vec<String>,
}

/// What the contracts see of a [`LinkSpec`].
pub struct LinkView {
    pub target_name: Seq<char>,
    pub mode: LinkMode,
    pub architecture_gate: Option<Seq<char>>,
    pub feature_gate: Seq<Seq<char>>,
}

impl View for LinkSpec {
    type V = LinkView;

    open spec fn view(&self) -> LinkView {
        LinkView {
            target_name: self.target_name@,
            mode: self.mode,
            architecture_gate: optional_text(self.architecture_gate),
            feature_gate: text_list(self.feature_gate@),
        }
    }
}

/// The prefix of every namespace under the umbrella namespace.
pub const UMBRELLA_PREFIX: &'static str = "Windows.";

/// The dynamic library that everything under the umbrella namespace is
/// imported from.
pub const DEFAULT_LIBRARY: &'static str = "windows";

/// The namespace lies under the umbrella namespace.
pub open spec fn in_umbrella(namespace: Seq<char>) -> bool {
    UMBRELLA_PREFIX@.is_prefix_of(namespace)
}

/// The signature has `shape` as its return type or as the type of a parameter.
pub open spec fn uses_shape(def: MethodView, shape: NativeType) -> bool {
    def.return_type == shape || exists|i: int|
        0 <= i < def.parameters.len() && (#[trigger] def.parameters[i]).native_type == shape
}

/// A list of flags with one more behind it, unless it is there already.
pub open spec fn with_flag(flags: Seq<Seq<char>>, flag: Seq<char>) -> Seq<Seq<char>> {
    if flags.contains(flag) {
        flags
    } else {
        flags.push(flag)
    }
}

/// The first `n` of a descriptor's own requirements, each once, in the
/// order in which they first occur.
pub open spec fn own_flags(requirements: Seq<Seq<char>>, n: nat) -> Seq<Seq<char>>
    decreases n,
{
    if n == 0 {
        Seq::empty()
    } else {
        with_flag(own_flags(requirements, (n - 1) as nat), requirements[n - 1])
    }
}

/// The descriptor's own requirements and behind them what the first `n`
/// rules of the oracle report for the signature, each flag once.
pub open spec fn gate_flags(def: MethodView, table: Seq<FeatureRuleView>, n: nat) -> Seq<
    Seq<char>,
>
    decreases n,
{
    if n == 0 {
        own_flags(def.feature_requirements, def.feature_requirements.len())
    } else {
        let earlier = gate_flags(def, table, (n - 1) as nat);
        if uses_shape(def, table[n - 1].shape) {
            with_flag(earlier, table[n - 1].flag)
        } else {
            earlier
        }
    }
}

/// The conjunction that gates a wrapper: the descriptor's own requirements,
/// then what the oracle reports for its parameter and return shapes, each
/// flag once. An empty conjunction gates nothing.
pub open spec fn required_features(def: MethodView, ctx: ContextView) -> Seq<Seq<char>> {
    gate_flags(def, ctx.feature_table, ctx.feature_table.len())
}

/// One of the first `n` rules of the oracle reports the flag for the
/// signature.
pub open spec fn oracle_reports(
    def: MethodView,
    table: Seq<FeatureRuleView>,
    flag: Seq<char>,
    n: nat,
) -> bool {
    exists|k: int|
        0 <= k < n && uses_shape(def, (#[trigger] table[k]).shape) && table[k].flag == flag
}

/// The import library and its link mode: the explicit static library, else
/// the default under the umbrella namespace, else the owning scope in lower
/// case. `None` where the descriptor offers none of these.
pub open spec fn link_target(def: MethodView, ctx: ContextView) -> Option<(Seq<char>, LinkMode)> {
    match def.static_library {
        Some(name) => Some((name, LinkMode::Static)),
        None => if in_umbrella(ctx.namespace) {
            Some((DEFAULT_LIBRARY@, LinkMode::Dynamic))
        } else {
            match def.owning_scope {
                Some(scope) => Some((lowercased(scope), LinkMode::Dynamic)),
                None => None,
            }
        },
    }
}

/// The link specification with a given target.
pub open spec fn link_view_for(
    target_name: Seq<char>,
    mode: LinkMode,
    def: MethodView,
    ctx: ContextView,
) -> LinkView {
    LinkView {
        target_name,
        mode,
        architecture_gate: def.supported_architecture,
        feature_gate: required_features(def, ctx),
    }
}

/// The linkage of a descriptor, or the error where it has no target.
pub open spec fn linkage(def: MethodView, ctx: ContextView) -> Result<LinkView, ClassificationError> {
    match link_target(def, ctx) {
        Some((name, mode)) => Ok(link_view_for(name, mode, def, ctx)),
        None => Err(ClassificationError::UnresolvedLinkage),
    }
}

/// What the contracts see of the outcome of [`resolve_linkage`].
pub open spec fn outcome_view(r: Result<LinkSpec, ClassificationError>) -> Result<
    LinkView,
    ClassificationError,
> {
    match r {
        Ok(link) => Ok(link@),
        Err(e) => Err(e),
    }
}

/// Says whether the signature uses a shape.
pub fn signature_uses(def: &MethodDescriptor, shape: NativeType) -> (used: bool)
    ensures
        used == uses_shape(def@, shape),
{
    if def.return_type == shape {
        return true;
    }
    let mut i: usize = 0;
    while i < def.parameters.len()
        invariant
            i <= def.parameters.len(),
            def.return_type != shape,
            forall|j: int| 0 <= j < i ==> (#[trigger] def@.parameters[j]).native_type != shape,
        decreases def.parameters.len() - i,
    {
        if def.parameters[i].native_type == shape {
            assert(def@.parameters[i as int].native_type == shape);
            return true;
        }
        i += 1;
    }
    false
}

/// The characters of a list with one more string are those of the list
/// with the characters of that string behind them.
pub proof fn text_list_push(texts: Seq<String>, last: String)
    ensures
        text_list(texts.push(last)) == text_list(texts).push(last@),
{
    assert(text_list(texts.push(last)) =~= text_list(texts).push(last@));
}

/// Says whether a text is in a list.
pub fn holds_text(texts: &Vec<String>, text: &String) -> (found: bool)
    ensures
        found == text_list(texts@).contains(text@),
{
    let mut i: usize = 0;
    while i < texts.len()
        invariant
            i <= texts.len(),
            forall|j: int| 0 <= j < i ==> (#[trigger] text_list(texts@)[j]) != text@,
        decreases texts.len() - i,
    {
        if texts[i] == *text {
            assert(text_list(texts@)[i as int] == text@);
            return true;
        }
        i += 1;
    }
    false
}

/// Puts a flag behind a list of flags, unless it is there already.
pub fn push_flag(flags: &mut Vec<String>, flag: &String)
    ensures
        text_list(final(flags)@) == with_flag(text_list(old(flags)@), flag@),
{
    if !holds_text(flags, flag) {
        let copy = flag.clone();
        proof {
            text_list_push(flags@, copy);
        }
        flags.push(copy);
    }
}

/// Copies an optional string.
pub fn copy_optional_text(text: &Option<String>) -> (copy: Option<String>)
    ensures
        optional_text(copy) == optional_text(*text),
{
    match text {
        Some(t) => Some(t.clone()),
        None => None,
    }
}

/// Collects the features that gate the wrapper of a descriptor: no flag
/// twice, the descriptor's own first.
pub fn feature_gate(def: &MethodDescriptor, ctx: &GenerationContext) -> (flags: Vec<String>)
    ensures
        text_list(flags@) == required_features(def@, ctx@),
{
    let mut flags: Vec<String> = Vec::new();
    assert(text_list(flags@) =~= Seq::empty());
    let mut i: usize = 0;
    while i < def.feature_requirements.len()
        invariant
            i <= def.feature_requirements.len(),
            text_list(flags@) == own_flags(def@.feature_requirements, i as nat),
        decreases def.feature_requirements.len() - i,
    {
        assert(def@.feature_requirements[i as int] == def.feature_requirements[i as int]@);
        push_flag(&mut flags, &def.feature_requirements[i]);
        i += 1;
    }
    let mut k: usize = 0;
    while k < ctx.feature_table.len()
        invariant
            k <= ctx.feature_table.len(),
            text_list(flags@) == gate_flags(def@, ctx@.feature_table, k as nat),
        decreases ctx.feature_table.len() - k,
    {
        let rule = &ctx.feature_table[k];
        assert(ctx@.feature_table[k as int] == rule@);
        if signature_uses(def, rule.shape) {
            push_flag(&mut flags, &rule.flag);
        }
        k += 1;
    }
    flags
}

/// Builds the link specification of a descriptor whose target is known:
/// the gates come from the descriptor and the context.
pub fn link_spec_for(
    target_name: String,
    mode: LinkMode,
    def: &MethodDescriptor,
    ctx: &GenerationContext,
) -> (link: LinkSpec)
    ensures
        link@ == link_view_for(target_name@, mode, def@, ctx@),
{
    LinkSpec {
        target_name,
        mode,
        architecture_gate: copy_optional_text(&def.supported_architecture),
        feature_gate: feature_gate(def, ctx),
    }
}

/// Resolves the linkage of a descriptor. Fails exactly where the descriptor
/// names no static library, the namespace is not under the umbrella
/// namespace, and there is no owning scope.
pub fn resolve_linkage(def: &MethodDescriptor, ctx: &GenerationContext) -> (outcome: Result<
    LinkSpec,
    ClassificationError,
>)
    ensures
        outcome_view(outcome) == linkage(def@, ctx@),
{
    match &def.static_library {
        Some(name) => Ok(link_spec_for(name.clone(), LinkMode::Static, def, ctx)),
        None => {
            if starts_with(ctx.namespace.as_str(), UMBRELLA_PREFIX) {
                Ok(link_spec_for(String::from_str(DEFAULT_LIBRARY), LinkMode::Dynamic, def, ctx))
            } else {
                match &def.owning_scope {
                    Some(scope) => Ok(
                        link_spec_for(to_lowercase(scope.as_str()), LinkMode::Dynamic, def, ctx),
                    ),
                    None => Err(ClassificationError::UnresolvedLinkage),
                }
            }
        },
    }
}

/// The three sources of a link target, in their order of precedence: an
/// explicit static library is the target whatever the owning scope is; with
/// none, a namespace under the umbrella namespace gives the default dynamic
/// library; any other descriptor is linked to its owning scope in lower
/// case, and one without an owning scope has no linkage.
pub proof fn link_target_precedence(def: MethodView, ctx: ContextView)
    ensures
        def.static_library is Some ==> link_target(def, ctx) == Some(
            (def.static_library->Some_0, LinkMode::Static),
        ),
        def.static_library is None && in_umbrella(ctx.namespace) ==> link_target(def, ctx)
            == Some((DEFAULT_LIBRARY@, LinkMode::Dynamic)),
        def.static_library is None && !in_umbrella(ctx.namespace) && def.owning_scope is Some
            ==> link_target(def, ctx) == Some(
            (lowercased(def.owning_scope->Some_0), LinkMode::Dynamic),
        ),
        linkage(def, ctx) is Err <==> def.static_library is None && !in_umbrella(ctx.namespace)
            && def.owning_scope is None,
        linkage(def, ctx) is Ok ==> linkage(def, ctx)->Ok_0.target_name == link_target(
            def,
            ctx,
        )->Some_0.0,
{
}

/// The architecture gate is present exactly where the descriptor restricts
/// the architecture, and then it is that architecture.
pub proof fn architecture_gate_follows_descriptor(def: MethodView, ctx: ContextView)
    requires
        linkage(def, ctx) is Ok,
    ensures
        linkage(def, ctx)->Ok_0.architecture_gate == def.supported_architecture,
{
}

/// Putting a flag behind a list keeps the list free of repeats, and the
/// list then holds what it held before and that flag.
pub proof fn with_flag_keeps_distinct(flags: Seq<Seq<char>>, flag: Seq<char>, other: Seq<char>)
    ensures
        flags.no_duplicates() ==> with_flag(flags, flag).no_duplicates(),
        with_flag(flags, flag).contains(other) <==> flags.contains(other) || other == flag,
{
    let longer = with_flag(flags, flag);
    if !flags.contains(flag) {
        assert(longer[flags.len() as int] == flag);
        if flags.contains(other) {
            let i = choose|i: int| 0 <= i < flags.len() && flags[i] == other;
            assert(longer[i] == other);
        }
        if longer.contains(other) {
            let i = choose|i: int| 0 <= i < longer.len() && longer[i] == other;
            if i < flags.len() {
                assert(flags[i] == other);
            }
        }
    }
}

/// The first `n` own requirements as a list: free of repeats, and holding
/// exactly the flags among them.
pub proof fn own_flags_are_the_requirements(requirements: Seq<Seq<char>>, n: nat, flag: Seq<char>)
    requires
        n <= requirements.len(),
    ensures
        own_flags(requirements, n).no_duplicates(),
        own_flags(requirements, n).contains(flag) <==> requirements.take(n as int).contains(flag),
    decreases n,
{
    if n > 0 {
        let earlier = own_flags(requirements, (n - 1) as nat);
        own_flags_are_the_requirements(requirements, (n - 1) as nat, flag);
        with_flag_keeps_distinct(earlier, requirements[n - 1], flag);
        let shorter = requirements.take(n - 1);
        let longer = requirements.take(n as int);
        assert(longer[n - 1] == requirements[n - 1]);
        if shorter.contains(flag) {
            let i = choose|i: int| 0 <= i < shorter.len() && shorter[i] == flag;
            assert(longer[i] == flag);
        }
        if longer.contains(flag) {
            let i = choose|i: int| 0 <= i < longer.len() && longer[i] == flag;
            if i < n - 1 {
                assert(shorter[i] == flag);
            }
        }
    }
}

/// The flags of a descriptor with the first `n` rules of the oracle: free
/// of repeats, and holding exactly the descriptor's own requirements and
/// what those rules report.
pub proof fn gate_flags_are_a_set(
    def: MethodView,
    table: Seq<FeatureRuleView>,
    n: nat,
    flag: Seq<char>,
)
    requires
        n <= table.len(),
    ensures
        gate_flags(def, table, n).no_duplicates(),
        gate_flags(def, table, n).contains(flag) <==> def.feature_requirements.contains(flag)
            || oracle_reports(def, table, flag, n),
    decreases n,
{
    if n == 0 {
        own_flags_are_the_requirements(
            def.feature_requirements,
            def.feature_requirements.len(),
            flag,
        );
        assert(def.feature_requirements.take(def.feature_requirements.len() as int)
            =~= def.feature_requirements);
    } else {
        let earlier = gate_flags(def, table, (n - 1) as nat);
        gate_flags_are_a_set(def, table, (n - 1) as nat, flag);
        with_flag_keeps_distinct(earlier, table[n - 1].flag, flag);
        if oracle_reports(def, table, flag, n) {
            let k = choose|k: int|
                0 <= k < n && uses_shape(def, (#[trigger] table[k]).shape) && table[k].flag == flag;
            if k < n - 1 {
                assert(oracle_reports(def, table, flag, (n - 1) as nat));
            }
        }
        if oracle_reports(def, table, flag, (n - 1) as nat) {
            let k = choose|k: int|
                0 <= k < n - 1 && uses_shape(def, (#[trigger] table[k]).shape) && table[k].flag
                    == flag;
            assert(oracle_reports(def, table, flag, n));
        }
        if uses_shape(def, table[n - 1].shape) && table[n - 1].flag == flag {
            assert(oracle_reports(def, table, flag, n));
        }
    }
}

/// The feature gate is a set: it holds no flag twice, and a flag is in it
/// exactly if the descriptor requires it or the oracle reports it for a
/// shape of the signature.
pub proof fn feature_gate_is_a_set(def: MethodView, ctx: ContextView, flag: Seq<char>)
    ensures
        required_features(def, ctx).no_duplicates(),
        required_features(def, ctx).contains(flag) <==> def.feature_requirements.contains(flag)
            || oracle_reports(def, ctx.feature_table, flag, ctx.feature_table.len()),
{
    gate_flags_are_a_set(def, ctx.feature_table, ctx.feature_table.len(), flag);
}

} // verus!
