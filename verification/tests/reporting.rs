use wail::constructor::link::LinkConstructor;
use wail::constructor::validation::{
    lists_interface, UnlinkedInterface, ValidationError, ValidationReport,
};
use wail::models::{Direction, InterfaceInfo, InterfaceRequirement};

fn unlinked() -> UnlinkedInterface {
    UnlinkedInterface {
        component: "a".to_string(),
        interface: InterfaceRequirement::new(
            "x".to_string(),
            "ns".to_string(),
            "pkg".to_string(),
            Direction::Import,
            "a".to_string(),
        ),
        potential_matches: vec![],
    }
}

#[test]
fn new_report_is_valid_and_empty() {
    let report = ValidationReport::new();
    assert!(report.is_valid);
    assert!(report.errors.is_empty());
    assert!(report.warnings.is_empty());
    assert!(report.discovered_links.is_empty());
    assert!(report.unlinked_interfaces.is_empty());
    assert_eq!(report.summary(), "All validations passed successfully");
}

#[test]
fn warnings_do_not_invalidate() {
    let mut report = ValidationReport::new();
    report.add_warning("careful".to_string());
    report.add_warning("again".to_string());
    assert!(report.is_valid);
    assert_eq!(report.warnings, vec!["careful".to_string(), "again".to_string()]);
    assert_eq!(report.summary(), "2 warnings");
}

#[test]
fn errors_invalidate() {
    let mut report = ValidationReport::new();
    report.add_error(ValidationError::LinkError("broken".to_string()));
    assert!(!report.is_valid);
    assert_eq!(report.errors.len(), 1);
    assert_eq!(report.summary(), "1 errors");
    report.add_warning("w".to_string());
    assert!(!report.is_valid);
    assert_eq!(report.summary(), "1 warnings, 1 errors");
}

#[test]
fn summary_counts_every_kind() {
    let mut report = ValidationReport::new();
    for _ in 0..12 {
        report.discovered_links.push(LinkConstructor {
            pre_component_id: "a".to_string(),
            post_component_id: None,
            interfaces: vec![],
            namespace: String::new(),
            package: String::new(),
        });
    }
    report.unlinked_interfaces.push(unlinked());
    for i in 0..105 {
        report.add_error(ValidationError::ComponentError(i.to_string()));
    }
    report.add_warning("w".to_string());
    assert_eq!(
        report.summary(),
        "Discovered 12 implicit links, Found 1 unlinked interfaces, 1 warnings, 105 errors"
    );
}

#[test]
fn errors_read_as_kind_and_message() {
    assert_eq!(
        ValidationError::ComponentError("c".to_string()).to_text(),
        "Component error: c"
    );
    assert_eq!(ValidationError::LinkError("l".to_string()).to_text(), "Link error: l");
    assert_eq!(
        ValidationError::InterfaceError("i".to_string()).to_text(),
        "Interface error: i"
    );
    let copy = ValidationError::LinkError("l".to_string()).clone();
    assert!(matches!(copy, ValidationError::LinkError(m) if m == "l"));
}

#[test]
fn lists_interface_wants_the_whole_triple() {
    let list = vec![
        InterfaceInfo {
            name: "x".to_string(),
            namespace: "ns".to_string(),
            package: "pkg".to_string(),
        },
        InterfaceInfo {
            name: "y".to_string(),
            namespace: "ns".to_string(),
            package: "other".to_string(),
        },
    ];
    assert!(lists_interface(&list, "ns", "pkg", "x"));
    assert!(lists_interface(&list, "ns", "other", "y"));
    assert!(!lists_interface(&list, "ns", "pkg", "y"));
    assert!(!lists_interface(&list, "pkg", "ns", "x"));
    assert!(!lists_interface(&vec![], "ns", "pkg", "x"));
}

#[test]
fn default_report_is_empty_and_not_valid() {
    let report = ValidationReport::default();
    assert!(!report.is_valid);
    assert!(report.errors.is_empty() && report.warnings.is_empty());
    assert!(report.discovered_links.is_empty() && report.unlinked_interfaces.is_empty());
}
