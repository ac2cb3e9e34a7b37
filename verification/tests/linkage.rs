use wrapper_gen::descriptor::{
    FeatureRule, GenerationContext, MethodDescriptor, NativeType, ParameterDescriptor,
};
use wrapper_gen::linkage::{
    copy_optional_text, feature_gate, holds_text, link_spec_for, push_flag, resolve_linkage,
    signature_uses, ClassificationError, LinkMode, DEFAULT_LIBRARY, UMBRELLA_PREFIX,
};

fn scalar(name: &str) -> ParameterDescriptor {
    ParameterDescriptor {
        name: name.to_string(),
        type_text: "u32".to_string(),
        native_type: NativeType::Scalar,
        is_output: false,
        is_optional: false,
    }
}

fn plain(scope: Option<&str>, library: Option<&str>) -> MethodDescriptor {
    MethodDescriptor {
        name: "Probe".to_string(),
        parameters: vec![scalar("a")],
        return_type: NativeType::Status,
        return_type_text: "HRESULT".to_string(),
        static_library: library.map(|s| s.to_string()),
        supported_architecture: None,
        owning_scope: scope.map(|s| s.to_string()),
        feature_requirements: Vec::new(),
    }
}

fn context(namespace: &str) -> GenerationContext {
    GenerationContext { namespace: namespace.to_string(), feature_table: Vec::new() }
}

#[test]
fn constants_have_their_values() {
    assert_eq!(UMBRELLA_PREFIX, "Windows.");
    assert_eq!(DEFAULT_LIBRARY, "windows");
}

#[test]
fn static_library_wins_over_scope_and_namespace() {
    for namespace in ["Windows.Win32.System", "Vendor.Library", ""] {
        for scope in [Some("Kernel32"), None] {
            let link = resolve_linkage(&plain(scope, Some("MyStatic")), &context(namespace)).unwrap();
            assert_eq!(link.target_name, "MyStatic");
            assert_eq!(link.mode, LinkMode::Static);
        }
    }
}

#[test]
fn umbrella_namespace_gives_the_default_library() {
    for scope in [Some("Kernel32"), None] {
        let link = resolve_linkage(&plain(scope, None), &context("Windows.Win32.System")).unwrap();
        assert_eq!(link.target_name, "windows");
        assert_eq!(link.mode, LinkMode::Dynamic);
    }
    let link = resolve_linkage(&plain(Some("Kernel32"), None), &context("Windows.")).unwrap();
    assert_eq!(link.target_name, "windows");
}

#[test]
fn other_namespace_gives_the_scope_in_lower_case() {
    let link = resolve_linkage(&plain(Some("KERNEL32"), None), &context("Vendor.Library")).unwrap();
    assert_eq!(link.target_name, "kernel32");
    assert_eq!(link.mode, LinkMode::Dynamic);
    let link = resolve_linkage(&plain(Some("User32"), None), &context("")).unwrap();
    assert_eq!(link.target_name, "user32");
}

#[test]
fn the_prefix_must_match_to_the_dot() {
    for namespace in ["Windows", "WindowsX.Win32", "windows.Win32", "My.Windows.Win32"] {
        let link = resolve_linkage(&plain(Some("User32"), None), &context(namespace)).unwrap();
        assert_eq!(link.target_name, "user32");
    }
}

#[test]
fn static_library_keeps_its_case() {
    let link = resolve_linkage(&plain(Some("User32"), Some("LibCMT")), &context("Vendor")).unwrap();
    assert_eq!(link.target_name, "LibCMT");
}

#[test]
fn no_source_of_linkage_is_an_error() {
    let outcome = resolve_linkage(&plain(None, None), &context("Vendor.Library"));
    assert_eq!(outcome, Err(ClassificationError::UnresolvedLinkage));
}

#[test]
fn architecture_gate_is_the_restriction() {
    let mut def = plain(Some("Kernel32"), None);
    let link = resolve_linkage(&def, &context("Vendor")).unwrap();
    assert_eq!(link.architecture_gate, None);
    def.supported_architecture = Some("x86_64".to_string());
    let link = resolve_linkage(&def, &context("Vendor")).unwrap();
    assert_eq!(link.architecture_gate, Some("x86_64".to_string()));
}

#[test]
fn feature_gate_joins_requirements_and_oracle() {
    let mut def = plain(Some("Kernel32"), None);
    def.feature_requirements = vec!["Win32_Foundation".to_string()];
    let ctx = GenerationContext {
        namespace: "Vendor".to_string(),
        feature_table: vec![
            FeatureRule { shape: NativeType::Handle, flag: "Win32_Handles".to_string() },
            FeatureRule { shape: NativeType::Scalar, flag: "Win32_Scalars".to_string() },
            FeatureRule { shape: NativeType::Status, flag: "Win32_Status".to_string() },
            FeatureRule { shape: NativeType::Struct, flag: "Win32_Structs".to_string() },
        ],
    };
    let expected = vec![
        "Win32_Foundation".to_string(),
        "Win32_Scalars".to_string(),
        "Win32_Status".to_string(),
    ];
    assert_eq!(feature_gate(&def, &ctx), expected);
    assert_eq!(resolve_linkage(&def, &ctx).unwrap().feature_gate, expected);
}

#[test]
fn feature_gate_is_empty_without_flags() {
    let def = plain(Some("Kernel32"), None);
    assert!(feature_gate(&def, &context("Vendor")).is_empty());
    let ctx = GenerationContext {
        namespace: "Vendor".to_string(),
        feature_table: vec![FeatureRule { shape: NativeType::Handle, flag: "H".to_string() }],
    };
    assert!(feature_gate(&def, &ctx).is_empty());
}

#[test]
fn signature_uses_looks_at_return_and_parameters() {
    let def = plain(Some("Kernel32"), None);
    assert!(signature_uses(&def, NativeType::Status));
    assert!(signature_uses(&def, NativeType::Scalar));
    assert!(!signature_uses(&def, NativeType::Handle));
    assert!(!signature_uses(&def, NativeType::Void));
}

#[test]
fn link_spec_for_takes_the_target_as_given() {
    let mut def = plain(None, None);
    def.supported_architecture = Some("x86".to_string());
    def.feature_requirements = vec!["F".to_string()];
    let link = link_spec_for("MiXed".to_string(), LinkMode::Dynamic, &def, &context("Vendor"));
    assert_eq!(link.target_name, "MiXed");
    assert_eq!(link.mode, LinkMode::Dynamic);
    assert_eq!(link.architecture_gate, Some("x86".to_string()));
    assert_eq!(link.feature_gate, vec!["F".to_string()]);
}

#[test]
fn optional_text_is_copied() {
    assert_eq!(copy_optional_text(&Some("x".to_string())), Some("x".to_string()));
    assert_eq!(copy_optional_text(&None), None);
}

#[test]
fn feature_gate_holds_each_flag_once() {
    let mut def = plain(Some("Kernel32"), None);
    def.feature_requirements =
        vec!["B".to_string(), "A".to_string(), "B".to_string(), "C".to_string()];
    let ctx = GenerationContext {
        namespace: "Vendor".to_string(),
        feature_table: vec![
            FeatureRule { shape: NativeType::Scalar, flag: "A".to_string() },
            FeatureRule { shape: NativeType::Status, flag: "D".to_string() },
            FeatureRule { shape: NativeType::Scalar, flag: "D".to_string() },
            FeatureRule { shape: NativeType::Handle, flag: "E".to_string() },
        ],
    };
    let expected =
        vec!["B".to_string(), "A".to_string(), "C".to_string(), "D".to_string()];
    assert_eq!(feature_gate(&def, &ctx), expected);
}

#[test]
fn push_flag_skips_what_is_there() {
    let mut flags = vec!["A".to_string(), "B".to_string()];
    assert!(holds_text(&flags, &"A".to_string()));
    assert!(holds_text(&flags, &"B".to_string()));
    assert!(!holds_text(&flags, &"a".to_string()));
    assert!(!holds_text(&Vec::new(), &"A".to_string()));
    push_flag(&mut flags, &"A".to_string());
    assert_eq!(flags, vec!["A".to_string(), "B".to_string()]);
    push_flag(&mut flags, &"C".to_string());
    assert_eq!(flags, vec!["A".to_string(), "B".to_string(), "C".to_string()]);
}
