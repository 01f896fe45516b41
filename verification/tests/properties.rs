use cxx_qt_signal_gen::fragment::CppFragment;
use cxx_qt_signal_gen::mappings::ParsedCxxMappings;
use cxx_qt_signal_gen::naming::{CombinedIdent, QObjectName, QSignalName};
use cxx_qt_signal_gen::parameter::ParsedFunctionParameter;
use cxx_qt_signal_gen::signal::{
    generate_cpp_free_signal, generate_cpp_signals, parameter_types_and_values, SelfValue,
};
use cxx_qt_signal_gen::signals::ParsedSignal;

fn owner_idents() -> QObjectName {
    QObjectName {
        cpp_class: CombinedIdent {
            cpp: "MyObject".to_string(),
            rust: "MyObjectRust".to_string(),
        },
    }
}

fn signal(parameters: Vec<ParsedFunctionParameter>, inherit: bool) -> ParsedSignal {
    ParsedSignal {
        qobject_ident: "MyObject".to_string(),
        mutable: true,
        parameters,
        ident: CombinedIdent {
            cpp: "dataChanged".to_string(),
            rust: "data_changed".to_string(),
        },
        safe: true,
        inherit,
    }
}

fn param(ident: &str, ty: &str) -> ParsedFunctionParameter {
    ParsedFunctionParameter {
        ident: ident.to_string(),
        ty: ty.to_string(),
    }
}

#[test]
fn test_zero_parameters_marshalling() {
    let built = parameter_types_and_values(
        &vec![],
        &ParsedCxxMappings::default(),
        SelfValue {
            ident: "self",
            ty: "MyType",
        },
    )
    .unwrap();
    assert_eq!(built.types_signal.as_str(), "");
    assert_eq!(built.types_closure.as_str(), "MyType&");
    assert_eq!(built.values_closure.as_str(), "self");
}

#[test]
fn test_forwarding_values_order() {
    let built = parameter_types_and_values(
        &vec![param("trivial", "T"), param("opaque", "U")],
        &ParsedCxxMappings::default(),
        SelfValue {
            ident: "*this",
            ty: "MyObject",
        },
    )
    .unwrap();
    assert_eq!(
        built.values_closure.as_str(),
        "*this, ::std::move(trivial), ::std::move(opaque)"
    );
    assert_eq!(built.types_signal.as_str(), "T trivial, U opaque");
    assert_eq!(
        built.types_closure.as_str(),
        "MyObject&, T trivial, U opaque"
    );
}

#[test]
fn test_unresolved_type_fails_whole_call() {
    let result = parameter_types_and_values(
        &vec![param("trivial", "T"), param("opaque", "Vec<T>")],
        &ParsedCxxMappings::default(),
        SelfValue {
            ident: "self",
            ty: "MyType",
        },
    );
    let error = result.unwrap_err();
    assert_eq!(error.ty.as_str(), "Vec<T>");
    assert_eq!(error.message().as_str(), "unknown type: Vec<T>");
}

#[test]
fn test_unresolved_type_emits_no_fragment() {
    let signals = vec![
        signal(vec![param("trivial", "T")], false),
        signal(vec![param("opaque", "Vec<T>")], false),
    ];
    let result = generate_cpp_signals(&signals, &owner_idents(), &ParsedCxxMappings::default());
    let error = result.unwrap_err();
    assert_eq!(error.ty.as_str(), "Vec<T>");

    let free = signal(vec![param("opaque", "Vec<T>")], false);
    let error = generate_cpp_free_signal(&free, &ParsedCxxMappings::default()).unwrap_err();
    assert_eq!(error.ty.as_str(), "Vec<T>");
}

#[test]
fn test_empty_signal_list() {
    let generated =
        generate_cpp_signals(&vec![], &owner_idents(), &ParsedCxxMappings::default()).unwrap();
    assert_eq!(generated.methods.len(), 0);
}

#[test]
fn test_deterministic_generation() {
    let signals = vec![
        signal(vec![param("trivial", "T")], false),
        signal(vec![], true),
    ];
    let first = generate_cpp_signals(&signals, &owner_idents(), &ParsedCxxMappings::default())
        .unwrap();
    let second = generate_cpp_signals(&signals, &owner_idents(), &ParsedCxxMappings::default())
        .unwrap();
    assert_eq!(first, second);

    let free = signal(vec![param("trivial", "T")], false);
    let first = generate_cpp_free_signal(&free, &ParsedCxxMappings::default()).unwrap();
    let second = generate_cpp_free_signal(&free, &ParsedCxxMappings::default()).unwrap();
    assert_eq!(first, second);
}

#[test]
fn test_rename_changes_only_type_text() {
    let signals = vec![signal(vec![param("mapped", "A")], false)];

    let plain = generate_cpp_signals(&signals, &owner_idents(), &ParsedCxxMappings::default())
        .unwrap();
    let header = if let CppFragment::Header(header) = &plain.methods[0] {
        header
    } else {
        panic!("Expected header")
    };
    assert_eq!(header.as_str(), "Q_SIGNAL void dataChanged(A mapped);");

    let mut renaming = ParsedCxxMappings::default();
    renaming.cxx_names.push(("A".to_string(), "A1".to_string()));
    let renamed = generate_cpp_signals(&signals, &owner_idents(), &renaming).unwrap();
    let header = if let CppFragment::Header(header) = &renamed.methods[0] {
        header
    } else {
        panic!("Expected header")
    };
    assert_eq!(header.as_str(), "Q_SIGNAL void dataChanged(A1 mapped);");
}

#[test]
fn test_inherit_emits_single_pair() {
    let signals = vec![signal(vec![], true)];
    let generated =
        generate_cpp_signals(&signals, &owner_idents(), &ParsedCxxMappings::default()).unwrap();
    assert_eq!(generated.methods.len(), 1);
    assert!(matches!(&generated.methods[0], CppFragment::Pair { .. }));
}

#[test]
fn test_declaration_precedes_pair() {
    let signals = vec![signal(vec![], false)];
    let generated =
        generate_cpp_signals(&signals, &owner_idents(), &ParsedCxxMappings::default()).unwrap();
    assert_eq!(generated.methods.len(), 2);
    assert!(matches!(&generated.methods[0], CppFragment::Header(_)));
    assert!(matches!(&generated.methods[1], CppFragment::Pair { .. }));
}

#[test]
fn test_qualified_name_resolution() {
    let mut mappings = ParsedCxxMappings::default();
    mappings
        .cxx_names
        .push(("ObjRust".to_string(), "ObjCpp".to_string()));
    assert_eq!(mappings.cxx(&"ObjRust".to_string()).as_str(), "ObjCpp");

    let mut mappings = ParsedCxxMappings::default();
    mappings
        .namespaces
        .push(("ObjRust".to_string(), "mynamespace".to_string()));
    assert_eq!(
        mappings.cxx(&"ObjRust".to_string()).as_str(),
        "::mynamespace::ObjRust"
    );

    assert_eq!(
        ParsedCxxMappings::default()
            .cxx(&"ObjRust".to_string())
            .as_str(),
        "ObjRust"
    );
}

#[test]
fn test_type_resolution() {
    let mut mappings = ParsedCxxMappings::default();
    mappings
        .type_names
        .push(("i32".to_string(), "::std::int32_t".to_string()));
    assert_eq!(
        mappings.resolve(&"i32".to_string()).unwrap().as_str(),
        "::std::int32_t"
    );
    assert_eq!(mappings.resolve(&"A1".to_string()).unwrap().as_str(), "A1");
    let error = mappings.resolve(&"Pin<&mut T>".to_string()).unwrap_err();
    assert_eq!(error.ty.as_str(), "Pin<&mut T>");
}

#[test]
fn test_connect_name_derivation() {
    let names = QSignalName::from_signal(&signal(vec![], false));
    assert_eq!(names.name.cpp.as_str(), "dataChanged");
    assert_eq!(names.name.rust.as_str(), "data_changed");
    assert_eq!(names.connect_name.cpp.as_str(), "dataChangedConnect");
    assert_eq!(names.connect_name.rust.as_str(), "connect_data_changed");
}
