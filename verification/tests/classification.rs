use wrapper_gen::classify::{classify, SignatureKind};
use wrapper_gen::descriptor::{MethodDescriptor, NativeType, ParameterDescriptor};
use wrapper_gen::mapper::{count_leading, decimal, declare_type, map_parameter, map_parameters};

fn param(name: &str, text: &str, shape: NativeType, out: bool, optional: bool) -> ParameterDescriptor {
    ParameterDescriptor {
        name: name.to_string(),
        type_text: text.to_string(),
        native_type: shape,
        is_output: out,
        is_optional: optional,
    }
}

fn method(parameters: Vec<ParameterDescriptor>, ret: NativeType, ret_text: &str) -> MethodDescriptor {
    MethodDescriptor {
        name: "Probe".to_string(),
        parameters,
        return_type: ret,
        return_type_text: ret_text.to_string(),
        static_library: None,
        supported_architecture: None,
        owning_scope: Some("Kernel32".to_string()),
        feature_requirements: Vec::new(),
    }
}

fn query_tail(optional: bool) -> Vec<ParameterDescriptor> {
    vec![
        param("flags", "u32", NativeType::Scalar, false, false),
        param("riid", "GUID", NativeType::Identifier, true, false),
        param("ppv", "IUnknown", NativeType::InterfacePointer, true, optional),
    ]
}

#[test]
fn query_slots_give_query() {
    let def = method(query_tail(false), NativeType::Status, "HRESULT");
    assert_eq!(classify(&def), SignatureKind::Query);
}

#[test]
fn optional_result_slot_gives_query_optional() {
    let def = method(query_tail(true), NativeType::Status, "HRESULT");
    assert_eq!(classify(&def), SignatureKind::QueryOptional);
}

#[test]
fn query_wins_over_the_return_type() {
    let def = method(query_tail(false), NativeType::Struct, "POINT");
    assert_eq!(classify(&def), SignatureKind::Query);
    let def = method(query_tail(true), NativeType::Void, "");
    assert_eq!(classify(&def), SignatureKind::QueryOptional);
}

#[test]
fn query_needs_both_slots_to_be_outputs() {
    let mut ps = query_tail(false);
    ps[1].is_output = false;
    let def = method(ps, NativeType::Status, "HRESULT");
    assert_eq!(classify(&def), SignatureKind::PreserveSig);
    let mut ps = query_tail(false);
    ps[2].is_output = false;
    let def = method(ps, NativeType::Status, "HRESULT");
    assert_eq!(classify(&def), SignatureKind::ResultVoid);
}

#[test]
fn query_needs_the_slots_in_order() {
    let ps = vec![
        param("ppv", "IUnknown", NativeType::InterfacePointer, true, false),
        param("riid", "GUID", NativeType::Identifier, true, false),
    ];
    let def = method(ps, NativeType::Status, "HRESULT");
    assert_eq!(classify(&def), SignatureKind::PreserveSig);
}

#[test]
fn lone_interface_slot_is_no_query() {
    let ps = vec![param("ppv", "IUnknown", NativeType::InterfacePointer, true, false)];
    let def = method(ps, NativeType::Status, "HRESULT");
    assert_eq!(classify(&def), SignatureKind::PreserveSig);
}

#[test]
fn status_with_scalar_output_gives_result_value() {
    let ps = vec![
        param("index", "u32", NativeType::Scalar, false, false),
        param("count", "u32", NativeType::Scalar, true, false),
    ];
    let def = method(ps, NativeType::Status, "HRESULT");
    assert_eq!(classify(&def), SignatureKind::ResultValue);
}

#[test]
fn status_with_handle_output_gives_result_value() {
    let ps = vec![param("handle", "HANDLE", NativeType::Handle, true, false)];
    let def = method(ps, NativeType::Status, "HRESULT");
    assert_eq!(classify(&def), SignatureKind::ResultValue);
}

#[test]
fn status_without_trailing_output_gives_result_void() {
    let ps = vec![
        param("count", "u32", NativeType::Scalar, true, false),
        param("index", "u32", NativeType::Scalar, false, false),
    ];
    let def = method(ps, NativeType::Status, "HRESULT");
    assert_eq!(classify(&def), SignatureKind::ResultVoid);
}

#[test]
fn status_without_parameters_gives_result_void() {
    let def = method(Vec::new(), NativeType::Status, "HRESULT");
    assert_eq!(classify(&def), SignatureKind::ResultVoid);
}

#[test]
fn struct_return_gives_return_struct() {
    let ps = vec![param("count", "u32", NativeType::Scalar, true, false)];
    let def = method(ps, NativeType::Struct, "POINT");
    assert_eq!(classify(&def), SignatureKind::ReturnStruct);
    let def = method(Vec::new(), NativeType::Struct, "POINT");
    assert_eq!(classify(&def), SignatureKind::ReturnStruct);
}

#[test]
fn everything_else_keeps_its_signature() {
    for ret in [
        NativeType::Void,
        NativeType::Scalar,
        NativeType::Handle,
        NativeType::Identifier,
        NativeType::InterfacePointer,
        NativeType::Opaque,
    ] {
        let ps = vec![param("count", "u32", NativeType::Scalar, true, false)];
        assert_eq!(classify(&method(ps, ret, "X")), SignatureKind::PreserveSig);
        assert_eq!(classify(&method(Vec::new(), ret, "X")), SignatureKind::PreserveSig);
    }
}

#[test]
fn status_with_composite_output_falls_through() {
    let ps = vec![param("rect", "RECT", NativeType::Struct, true, false)];
    let def = method(ps, NativeType::Status, "HRESULT");
    assert_eq!(classify(&def), SignatureKind::PreserveSig);
}

#[test]
fn classifying_again_gives_the_same_kind() {
    let defs = vec![
        method(query_tail(false), NativeType::Status, "HRESULT"),
        method(query_tail(true), NativeType::Status, "HRESULT"),
        method(Vec::new(), NativeType::Status, "HRESULT"),
        method(Vec::new(), NativeType::Struct, "POINT"),
        method(Vec::new(), NativeType::Opaque, "u32"),
    ];
    for def in &defs {
        let first = classify(def);
        assert_eq!(classify(def), first);
        assert_eq!(classify(&def.clone()), first);
    }
}

#[test]
fn leading_count_follows_the_kind() {
    let query = method(query_tail(false), NativeType::Status, "HRESULT");
    assert_eq!(count_leading(&query), 1);
    assert_eq!(map_parameters(&query).len(), 1);

    let optional = method(query_tail(true), NativeType::Status, "HRESULT");
    assert_eq!(count_leading(&optional), 1);

    let bare_query = method(query_tail(false)[1..].to_vec(), NativeType::Status, "HRESULT");
    assert_eq!(classify(&bare_query), SignatureKind::Query);
    assert_eq!(count_leading(&bare_query), 0);
    assert!(map_parameters(&bare_query).is_empty());

    let value = method(
        vec![
            param("a", "u32", NativeType::Scalar, false, false),
            param("b", "u32", NativeType::Scalar, false, false),
            param("out", "u32", NativeType::Scalar, true, false),
        ],
        NativeType::Status,
        "HRESULT",
    );
    assert_eq!(count_leading(&value), 2);
    assert_eq!(map_parameters(&value).len(), 2);

    let two = vec![
        param("a", "u32", NativeType::Scalar, false, false),
        param("b", "u32", NativeType::Scalar, false, false),
    ];
    assert_eq!(count_leading(&method(two.clone(), NativeType::Status, "HRESULT")), 2);
    assert_eq!(count_leading(&method(two.clone(), NativeType::Struct, "POINT")), 2);
    assert_eq!(count_leading(&method(two, NativeType::Opaque, "u32")), 2);
}

#[test]
fn value_parameter_maps_to_itself() {
    let m = map_parameter(&param("index", "u32", NativeType::Scalar, false, false), 0);
    assert_eq!(m.name, "index");
    assert_eq!(m.caller_type, "u32");
    assert_eq!(m.raw_argument, "index");
    assert_eq!(m.constraint, None);
}

#[test]
fn output_parameter_maps_to_a_reference() {
    let m = map_parameter(&param("rect", "RECT", NativeType::Struct, true, false), 3);
    assert_eq!(m.name, "rect");
    assert_eq!(m.caller_type, "&mut RECT");
    assert_eq!(m.raw_argument, "::std::mem::transmute(rect)");
}

#[test]
fn optional_output_parameter_maps_to_an_optional_reference() {
    let m = map_parameter(&param("rect", "RECT", NativeType::Struct, true, true), 1);
    assert_eq!(m.caller_type, "::std::option::Option<&mut RECT>");
    assert_eq!(m.raw_argument, "::std::mem::transmute(rect)");
}

#[test]
fn optional_input_parameter_is_passed_by_value() {
    let m = map_parameter(&param("owner", "HWND", NativeType::Handle, false, true), 2);
    assert_eq!(m.caller_type, "HWND");
    assert_eq!(m.raw_argument, "owner");
}

#[test]
fn mapping_keeps_order_and_names() {
    let def = method(
        vec![
            param("a", "u32", NativeType::Scalar, false, false),
            param("b", "RECT", NativeType::Struct, true, false),
            param("out", "HANDLE", NativeType::Handle, true, false),
        ],
        NativeType::Status,
        "HRESULT",
    );
    let ms = map_parameters(&def);
    assert_eq!(ms.len(), 2);
    assert_eq!(ms[0], map_parameter(&def.parameters[0], 0));
    assert_eq!(ms[1], map_parameter(&def.parameters[1], 1));
    assert_eq!(ms[1].name, "b");
}

#[test]
fn input_interface_maps_to_a_generic_type() {
    let m = map_parameter(&param("unknown", "IUnknown", NativeType::InterfacePointer, false, false), 12);
    assert_eq!(m.name, "unknown");
    assert_eq!(m.caller_type, "Param12");
    assert_eq!(m.raw_argument, "unknown.into_param().abi()");
    assert_eq!(
        m.constraint,
        Some("Param12: ::windows::runtime::IntoParam<'a, IUnknown>".to_string())
    );
}

#[test]
fn output_interface_has_no_generic_type() {
    let m = map_parameter(&param("unknown", "IUnknown", NativeType::InterfacePointer, true, false), 0);
    assert_eq!(m.caller_type, "&mut IUnknown");
    assert_eq!(m.constraint, None);
}

#[test]
fn generic_types_are_numbered_by_position() {
    let def = method(
        vec![
            param("a", "u32", NativeType::Scalar, false, false),
            param("b", "IUnknown", NativeType::InterfacePointer, false, false),
            param("c", "IStream", NativeType::InterfacePointer, false, true),
        ],
        NativeType::Void,
        "",
    );
    let ms = map_parameters(&def);
    assert_eq!(ms[0].constraint, None);
    assert_eq!(ms[1].caller_type, "Param1");
    assert_eq!(ms[2].caller_type, "Param2");
    assert_eq!(
        ms[2].constraint,
        Some("Param2: ::windows::runtime::IntoParam<'a, IStream>".to_string())
    );
}

#[test]
fn decimal_writes_digits() {
    assert_eq!(decimal(0), "0");
    assert_eq!(decimal(7), "7");
    assert_eq!(decimal(9), "9");
    assert_eq!(decimal(10), "10");
    assert_eq!(decimal(109), "109");
    assert_eq!(decimal(1234567890), "1234567890");
    assert_eq!(decimal(usize::MAX), usize::MAX.to_string());
}

#[test]
fn identifier_slot_is_read_only() {
    let p = param("riid", "GUID", NativeType::Identifier, true, false);
    let m = map_parameter(&p, 0);
    assert_eq!(m.caller_type, "&GUID");
    assert_eq!(m.raw_argument, "::std::mem::transmute(riid)");
    assert_eq!(declare_type(&p), "*const GUID");
    let p = param("riid", "GUID", NativeType::Identifier, true, true);
    assert_eq!(map_parameter(&p, 0).caller_type, "::std::option::Option<&GUID>");
    let p = param("id", "GUID", NativeType::Identifier, false, false);
    assert_eq!(map_parameter(&p, 0).caller_type, "GUID");
    assert_eq!(declare_type(&p), "GUID");
}
