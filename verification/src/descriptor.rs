//! The data that one generation run reads: method and parameter descriptors
//! and the generation context, each with the mathematical view that the
//! contracts of the other modules speak of.

use vstd::prelude::*;

verus! {

/// The shape of a native type, as far as conventions depend on it.
#[derive(Clone, Copy, Debug, PartialEq, Eq, Structural)]
pub enum NativeType {
    /// No value (only meaningful as a return type).
    Void,
    /// A simple success/failure status code.
    Status,
    /// A plain scalar.
    Scalar,
    /// An opaque handle.
    Handle,
    /// A runtime type identifier.
    Identifier,
    /// A pointer to a native interface.
    InterfacePointer,
    /// A composite value returned by the native struct-return convention.
    Struct,
    /// Anything else, such as a raw count or an opaque code.
    Opaque,
}

/// One native parameter.
#[derive(Clone, Debug, PartialEq, Eq)]
pub struct ParameterDescriptor {
    pub name: String,
    /// The native type as it is spelled in a declaration.
    pub type_text: String,
    pub native_type: NativeType,
    pub is_output: bool,
    pub is_optional: bool,
}

/// What the contracts see of a [`ParameterDescriptor`].
pub struct ParameterView {
    pub name: Seq<char>,
    pub type_text: Seq<char>,
    pub native_type: NativeType,
    pub is_output: bool,
    pub is_optional: bool,
}

impl View for ParameterDescriptor {
    type V = ParameterView;

    open spec fn view(&self) -> ParameterView {
        ParameterView {
            name: self.name@,
            type_text: self.type_text@,
            native_type: self.native_type,
            is_output: self.is_output,
            is_optional: self.is_optional,
        }
    }
}

/// One native function to bind. The order of `parameters` is the native
/// order and the order in which a caller sees them.
#[derive(Clone, Debug, PartialEq, Eq)]
pub struct MethodDescriptor {
    pub name: String,
    pub parameters: Vec<ParameterDescriptor>,
    pub return_type: NativeType,
    /// The native return type as it is spelled in a declaration.
    pub return_type_text: String,
    pub static_library: Option<String>,
    pub supported_architecture: Option<String>,
    pub owning_scope: Option<String>,
    pub feature_requirements: Vec<String>,
}

/// What the contracts see of a [`MethodDescriptor`].
pub struct MethodView {
    pub name: Seq<char>,
    pub parameters: Seq<ParameterView>,
    pub return_type: NativeType,
    pub return_type_text: Seq<char>,
    pub static_library: Option<Seq<char>>,
    pub supported_architecture: Option<Seq<char>>,
    pub owning_scope: Option<Seq<char>>,
    pub feature_requirements: Seq<Seq<char>>,
}

/// The characters of an optional string.
pub open spec fn optional_text(s: Option<String>) -> Option<Seq<char>> {
    match s {
        Some(t) => Some(t@),
        None => None,
    }
}

/// The characters of each string of a list.
pub open spec fn text_list(v: Seq<String>) -> Seq<Seq<char>> {
    v.map_values(|s: String| s@)
}

/// The views of a list of parameters.
pub open spec fn parameter_views(v: Seq<ParameterDescriptor>) -> Seq<ParameterView> {
    v.map_values(|p: ParameterDescriptor| p@)
}

impl View for MethodDescriptor {
    type V = MethodView;

    open spec fn view(&self) -> MethodView {
        MethodView {
            name: self.name@,
            parameters: parameter_views(self.parameters@),
            return_type: self.return_type,
            return_type_text: self.return_type_text@,
            static_library: optional_text(self.static_library),
            supported_architecture: optional_text(self.supported_architecture),
            owning_scope: optional_text(self.owning_scope),
            feature_requirements: text_list(self.feature_requirements@),
        }
    }
}

/// One answer of the features oracle: signatures that use `shape` need `flag`.
#[derive(Clone, Debug, PartialEq, Eq)]
pub struct FeatureRule {
    pub shape: NativeType,
    pub flag: String,
}

/// What the contracts see of a [`FeatureRule`].
pub struct FeatureRuleView {
    pub shape: NativeType,
    pub flag: Seq<char>,
}

impl View for FeatureRule {
    type V = FeatureRuleView;

    open spec fn view(&self) -> FeatureRuleView {
        FeatureRuleView { shape: self.shape, flag: self.flag@ }
    }
}

/// What is fixed for one generation run: the namespace that is being
/// generated and the features oracle, as a table of its answers.
#[derive(Clone, Debug, PartialEq, Eq)]
pub struct GenerationContext {
    pub namespace: String,
    pub feature_table: Vec<FeatureRule>,
}

/// What the contracts see of a [`GenerationContext`].
pub struct ContextView {
    pub namespace: Seq<char>,
    pub feature_table: Seq<FeatureRuleView>,
}

impl View for GenerationContext {
    type V = ContextView;

    open spec fn view(&self) -> ContextView {
        ContextView {
            namespace: self.namespace@,
            feature_table: self.feature_table@.map_values(|r: FeatureRule| r@),
        }
    }
}

} // verus!
