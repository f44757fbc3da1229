use jsx_import::ast::{Module, Node};
use jsx_import::config::{Config, ConfigError};
use jsx_import::transform::{process_transform, transform, TransformVisitor};

fn default_config() -> Config {
    Config { import_source: None }
}

fn assert_import(item: &Node, locals: &[&str], src: &str) {
    match item {
        Node::Import(d) => {
            assert_eq!(d.src, src);
            assert_eq!(d.specifiers.len(), locals.len());
            for (sp, want) in d.specifiers.iter().zip(locals.iter()) {
                assert_eq!(sp.local, *want);
                assert!(sp.imported.is_none());
            }
        }
        _ => panic!("expected an import declaration"),
    }
}

#[test]
fn test_no_transform() {
    // console.log('No transform'): one plain statement, no JSX anywhere.
    let mut m = Module {
        items: vec![Node::Other(vec![Node::Other(Vec::new())])],
    };
    transform(&mut m, &default_config());
    assert_eq!(m.items.len(), 1);
    assert!(matches!(&m.items[0], Node::Other(cs) if cs.len() == 1));
}

#[test]
fn test_element_pragma() {
    // const jsx = <div />
    let mut m = Module {
        items: vec![Node::Other(vec![Node::JsxElement(Vec::new())])],
    };
    transform(&mut m, &default_config());
    assert_eq!(m.items.len(), 2);
    assert_import(&m.items[0], &["createElement"], "react");
    assert!(matches!(&m.items[1], Node::Other(_)));
}

#[test]
fn test_component_pragma() {
    // const jsx = <Component />: a component-style element is still an element.
    let mut m = Module {
        items: vec![Node::JsxElement(Vec::new())],
    };
    transform(&mut m, &default_config());
    assert_eq!(m.items.len(), 2);
    assert_import(&m.items[0], &["createElement"], "react");
    assert!(matches!(&m.items[1], Node::JsxElement(_)));
}

#[test]
fn test_fragment() {
    // const jsx = <></>
    let mut m = Module {
        items: vec![Node::Other(vec![Node::JsxFragment(Vec::new())])],
    };
    transform(&mut m, &default_config());
    assert_eq!(m.items.len(), 2);
    assert_import(&m.items[0], &["Fragment"], "react");
}

#[test]
fn test_pragma_and_fragment() {
    // const jsx = <><div /></>: element always comes before Fragment in the
    // specifier list, even though the fragment is met first in the walk.
    let mut m = Module {
        items: vec![Node::Other(vec![Node::JsxFragment(vec![Node::JsxElement(
            Vec::new(),
        )])])],
    };
    transform(&mut m, &default_config());
    assert_eq!(m.items.len(), 2);
    assert_import(&m.items[0], &["createElement", "Fragment"], "react");
}

#[test]
fn test_import_source() {
    // With {importSource: "preact"} the injected import points at preact.
    let mut m = Module {
        items: vec![Node::Other(vec![Node::JsxElement(Vec::new())])],
    };
    let cfg = Config {
        import_source: Some("preact".to_string()),
    };
    transform(&mut m, &cfg);
    assert_eq!(m.items.len(), 2);
    assert_import(&m.items[0], &["createElement"], "preact");
}

#[test]
fn test_empty_module_unchanged() {
    let mut m = Module { items: Vec::new() };
    transform(&mut m, &default_config());
    assert_eq!(m.items.len(), 0);
}

#[test]
fn test_deeply_nested_usage_single_combined_import() {
    // A fragment containing an element containing a fragment still yields one
    // import with both specifiers, element first.
    let deep = Node::JsxFragment(vec![Node::JsxElement(vec![Node::JsxFragment(
        Vec::new(),
    )])]);
    let mut m = Module {
        items: vec![Node::Other(vec![Node::Other(vec![deep])])],
    };
    transform(&mut m, &default_config());
    assert_eq!(m.items.len(), 2);
    assert_import(&m.items[0], &["createElement", "Fragment"], "react");
}

#[test]
fn test_double_transform_duplicates_import() {
    // The transform is not idempotent: a second run over already-transformed
    // output inserts a second, independent import declaration.
    let mut m = Module {
        items: vec![Node::Other(vec![Node::JsxElement(Vec::new())])],
    };
    transform(&mut m, &default_config());
    transform(&mut m, &default_config());
    assert_eq!(m.items.len(), 3);
    assert_import(&m.items[0], &["createElement"], "react");
    assert_import(&m.items[1], &["createElement"], "react");
    assert!(matches!(&m.items[2], Node::Other(_)));
}

#[test]
fn test_existing_import_not_merged() {
    // An import of createElement already present is neither inspected nor
    // merged: a fresh declaration is still inserted at index 0.
    let existing = Node::Import(jsx_import::ast::ImportDecl {
        specifiers: vec![jsx_import::ast::ImportSpecifier {
            local: "createElement".to_string(),
            imported: None,
        }],
        src: "react".to_string(),
    });
    let mut m = Module {
        items: vec![existing, Node::JsxElement(Vec::new())],
    };
    transform(&mut m, &default_config());
    assert_eq!(m.items.len(), 3);
    assert_import(&m.items[0], &["createElement"], "react");
    assert_import(&m.items[1], &["createElement"], "react");
    assert!(matches!(&m.items[2], Node::JsxElement(_)));
}

#[test]
fn test_visitor_flags_monotonic() {
    // Once a usage flag is set, later visits never clear it.
    let mut v = TransformVisitor::new("react".to_string());
    assert!(!v.has_jsx_element);
    assert!(!v.has_jsx_fragment);
    v.visit_mut_jsx_element(&Vec::new());
    assert!(v.has_jsx_element);
    v.visit_mut_jsx_fragment(&Vec::new());
    assert!(v.has_jsx_element);
    assert!(v.has_jsx_fragment);
    let mut items = vec![Node::Other(Vec::new())];
    v.visit_mut_module_items(&mut items);
    assert!(v.has_jsx_element);
    assert!(v.has_jsx_fragment);
}

#[test]
fn test_visitor_default_source_is_react() {
    let v = TransformVisitor::default();
    assert!(!v.has_jsx_element);
    assert!(!v.has_jsx_fragment);
    assert_eq!(v.import_source, "react");
}

#[test]
fn test_process_transform_configured_source() {
    let m = Module {
        items: vec![Node::Other(vec![Node::JsxElement(Vec::new())])],
    };
    let out = process_transform(m, Some("{\"importSource\": \"preact\"}"));
    match out {
        Ok(m2) => {
            assert_eq!(m2.items.len(), 2);
            assert_import(&m2.items[0], &["createElement"], "preact");
        }
        Err(_) => panic!("a valid configuration must be accepted"),
    }
}

#[test]
fn test_process_transform_missing_payload() {
    let m = Module { items: Vec::new() };
    assert!(matches!(
        process_transform(m, None),
        Err(ConfigError::MissingPayload)
    ));
}

#[test]
fn test_process_transform_invalid_json() {
    let m = Module { items: Vec::new() };
    assert!(matches!(
        process_transform(m, Some("not json")),
        Err(ConfigError::InvalidConfig)
    ));
}
