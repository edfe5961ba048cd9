use diagnostics::anchor::FileIdentity;
use diagnostics::collection::{AnyDiagnostic, DiagnosticCollection};
use diagnostics::diagnostic::{
    Diagnostic, InactiveCode, UnresolvedExternCrate, UnresolvedImport, UnresolvedModule,
};
use diagnostics::pointer::{StablePointer, TypedPointer};
use diagnostics::tree::{
    SyntaxNode, TextRange, DEPENDENCY_DECLARATION, MODULE_DECLARATION, USE_TREE,
};

fn leaf(kind: u32, start: usize, end: usize) -> SyntaxNode {
    SyntaxNode { kind, range: TextRange { start, end }, children: vec![] }
}

fn node(kind: u32, start: usize, end: usize, children: Vec<SyntaxNode>) -> SyntaxNode {
    SyntaxNode { kind, range: TextRange { start, end }, children }
}

fn module_diag(tree: &SyntaxNode, candidate: &str) -> UnresolvedModule {
    UnresolvedModule {
        file: FileIdentity::Real(1),
        decl: TypedPointer::capture(tree, vec![0], MODULE_DECLARATION),
        candidate: candidate.to_owned(),
    }
}

fn dependency_diag(tree: &SyntaxNode) -> UnresolvedExternCrate {
    UnresolvedExternCrate {
        file: FileIdentity::Real(2),
        item: TypedPointer::capture(tree, vec![1], DEPENDENCY_DECLARATION),
    }
}

fn import_diag(tree: &SyntaxNode) -> UnresolvedImport {
    UnresolvedImport {
        file: FileIdentity::Real(3),
        node: TypedPointer::capture(tree, vec![2], USE_TREE),
    }
}

fn inactive_diag(tree: &SyntaxNode) -> InactiveCode {
    InactiveCode {
        file: FileIdentity::Real(4),
        node: StablePointer::capture(tree, vec![3]),
    }
}

fn sample_tree() -> SyntaxNode {
    node(
        0,
        0,
        100,
        vec![
            leaf(MODULE_DECLARATION, 0, 10),
            leaf(DEPENDENCY_DECLARATION, 10, 30),
            leaf(USE_TREE, 30, 50),
            leaf(20, 50, 100),
        ],
    )
}

#[test]
fn codes_constant_across_calls_and_instances() {
    let tree = sample_tree();
    let a = module_diag(&tree, "foo");
    let b = module_diag(&tree, "other");
    assert_eq!(a.code().text, a.code().text);
    assert_eq!(a.code().text, b.code().text);

    let c = import_diag(&tree);
    let d = import_diag(&tree);
    assert_eq!(c.code().text, d.code().text);
}

#[test]
fn codes_distinct_across_kinds() {
    let tree = sample_tree();
    let codes = [
        module_diag(&tree, "foo").code().as_str(),
        dependency_diag(&tree).code().as_str(),
        import_diag(&tree).code().as_str(),
        inactive_diag(&tree).code().as_str(),
    ];
    for i in 0..codes.len() {
        for j in 0..codes.len() {
            if i != j {
                assert_ne!(codes[i], codes[j]);
            }
        }
    }
}

#[test]
fn missing_submodule_reports_unresolved_module() {
    // A file declares a sub-module `foo` and no backing file is on the
    // search path: the pass emits exactly one UnresolvedModule.
    let tree = sample_tree();
    let mut pass_result = DiagnosticCollection::new();
    pass_result.push(AnyDiagnostic::UnresolvedModule(module_diag(&tree, "foo")));

    assert_eq!(pass_result.len(), 1);
    let entry = pass_result.get(0);
    assert_eq!(entry.code().as_str(), "unresolved-module");
    assert_eq!(entry.message(), "unresolved module");
    assert!(!entry.is_experimental());
    let recovered = entry.recover_unresolved_module().unwrap();
    assert_eq!(recovered.candidate, "foo");
}

#[test]
fn missing_dependency_reports_unresolved_extern_crate() {
    // A declaration names `bar`, absent from the dependency graph: the pass
    // emits exactly one UnresolvedExternCrate.
    let tree = sample_tree();
    let mut pass_result = DiagnosticCollection::new();
    pass_result.push(AnyDiagnostic::UnresolvedExternCrate(dependency_diag(&tree)));

    assert_eq!(pass_result.len(), 1);
    let entry = pass_result.get(0);
    assert_eq!(entry.code().as_str(), "unresolved-extern-crate");
    assert_eq!(entry.message(), "unresolved extern crate");
    assert!(!entry.is_experimental());
    assert!(entry.recover_unresolved_extern_crate().is_some());
}

#[test]
fn failing_import_reports_unresolved_import() {
    // An import path `nonexistent::path` fails to resolve: the pass emits
    // exactly one UnresolvedImport, and the kind is experimental.
    let tree = sample_tree();
    let mut pass_result = DiagnosticCollection::new();
    pass_result.push(AnyDiagnostic::UnresolvedImport(import_diag(&tree)));

    assert_eq!(pass_result.len(), 1);
    let entry = pass_result.get(0);
    assert_eq!(entry.code().as_str(), "unresolved-import");
    assert_eq!(entry.message(), "unresolved import");
    assert!(entry.is_experimental());
    assert!(entry.recover_unresolved_import().is_some());
}

#[test]
fn disabled_condition_reports_inactive_code() {
    // A function is guarded by a disabled conditional-compilation attribute:
    // the pass emits exactly one InactiveCode spanning that function's node,
    // with the fixed generic message, whatever made the condition false.
    let tree = sample_tree();
    let mut pass_result = DiagnosticCollection::new();
    pass_result.push(AnyDiagnostic::InactiveCode(inactive_diag(&tree)));

    assert_eq!(pass_result.len(), 1);
    let entry = pass_result.get(0);
    assert_eq!(entry.code().as_str(), "inactive-code");
    assert_eq!(
        entry.message(),
        "code is inactive due to conditional-compilation directives"
    );
    assert!(!entry.is_experimental());
    let anchor = entry.display_source();
    assert_eq!(anchor.resolve(&tree), Some(TextRange { start: 50, end: 100 }));
}

#[test]
fn recovery_succeeds_iff_constructed_as_that_kind() {
    let tree = sample_tree();
    let entries = [
        AnyDiagnostic::UnresolvedModule(module_diag(&tree, "foo")),
        AnyDiagnostic::UnresolvedExternCrate(dependency_diag(&tree)),
        AnyDiagnostic::UnresolvedImport(import_diag(&tree)),
        AnyDiagnostic::InactiveCode(inactive_diag(&tree)),
    ];
    for (i, entry) in entries.iter().enumerate() {
        assert_eq!(entry.recover_unresolved_module().is_some(), i == 0);
        assert_eq!(entry.recover_unresolved_extern_crate().is_some(), i == 1);
        assert_eq!(entry.recover_unresolved_import().is_some(), i == 2);
        assert_eq!(entry.recover_inactive_code().is_some(), i == 3);
    }
}

#[test]
fn only_unresolved_import_is_experimental() {
    let tree = sample_tree();
    assert!(!module_diag(&tree, "foo").is_experimental());
    assert!(!dependency_diag(&tree).is_experimental());
    assert!(import_diag(&tree).is_experimental());
    assert!(!inactive_diag(&tree).is_experimental());
}

#[test]
fn display_source_carries_file_and_position() {
    let tree = sample_tree();
    let d = module_diag(&tree, "foo");
    let anchor = d.display_source();
    assert_eq!(anchor.file, FileIdentity::Real(1));
    assert_eq!(anchor.ptr.kind, MODULE_DECLARATION);
    assert_eq!(anchor.ptr.path, vec![0]);
    assert_eq!(anchor.resolve(&tree), Some(TextRange { start: 0, end: 10 }));
}

#[test]
fn collection_preserves_emission_order() {
    let tree = sample_tree();
    let mut pass_result = DiagnosticCollection::new();
    assert_eq!(pass_result.len(), 0);
    pass_result.push(AnyDiagnostic::UnresolvedImport(import_diag(&tree)));
    pass_result.push(AnyDiagnostic::UnresolvedModule(module_diag(&tree, "foo")));
    pass_result.push(AnyDiagnostic::InactiveCode(inactive_diag(&tree)));

    assert_eq!(pass_result.len(), 3);
    assert_eq!(pass_result.get(0).code().as_str(), "unresolved-import");
    assert_eq!(pass_result.get(1).code().as_str(), "unresolved-module");
    assert_eq!(pass_result.get(2).code().as_str(), "inactive-code");
}

#[test]
fn candidate_is_structured_data_not_message_text() {
    let tree = sample_tree();
    let d = module_diag(&tree, "foo");
    assert_eq!(d.candidate, "foo");
    // The attempted name is deliberately not interpolated into the message.
    assert!(!d.message().contains("foo"));
}
