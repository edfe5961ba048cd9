//! Heterogeneous diagnostic entries, typed recovery, and the producer-owned
//! collection.
//!
//! A pass appends its entries in emission order; a consumer reads them
//! through the capability interface and may recover each entry's concrete
//! kind. Recovery succeeds exactly when the entry was constructed as the
//! asked-for kind, and reports no match otherwise — it never faults and
//! never hands back a value of the wrong kind.

use vstd::prelude::*;

use crate::anchor::{FileIdentity, SourceAnchor};
use crate::code::DiagnosticCode;
use crate::diagnostic::{
    Diagnostic, InactiveCode, UnresolvedExternCrate, UnresolvedImport, UnresolvedModule,
};

verus! {

/// One diagnostic of any kind, as held in a collection.
#[derive(Debug)]
pub enum AnyDiagnostic {
    UnresolvedModule(UnresolvedModule),
    UnresolvedExternCrate(UnresolvedExternCrate),
    UnresolvedImport(UnresolvedImport),
    InactiveCode(InactiveCode),
}

impl Diagnostic for AnyDiagnostic {
    open spec fn spec_code(&self) -> Seq<char> {
        match self {
            AnyDiagnostic::UnresolvedModule(d) => d.spec_code(),
            AnyDiagnostic::UnresolvedExternCrate(d) => d.spec_code(),
            AnyDiagnostic::UnresolvedImport(d) => d.spec_code(),
            AnyDiagnostic::InactiveCode(d) => d.spec_code(),
        }
    }

    open spec fn spec_message(&self) -> Seq<char> {
        match self {
            AnyDiagnostic::UnresolvedModule(d) => d.spec_message(),
            AnyDiagnostic::UnresolvedExternCrate(d) => d.spec_message(),
            AnyDiagnostic::UnresolvedImport(d) => d.spec_message(),
            AnyDiagnostic::InactiveCode(d) => d.spec_message(),
        }
    }

    open spec fn spec_file(&self) -> FileIdentity {
        match self {
            AnyDiagnostic::UnresolvedModule(d) => d.spec_file(),
            AnyDiagnostic::UnresolvedExternCrate(d) => d.spec_file(),
            AnyDiagnostic::UnresolvedImport(d) => d.spec_file(),
            AnyDiagnostic::InactiveCode(d) => d.spec_file(),
        }
    }

    open spec fn spec_target_kind(&self) -> u32 {
        match self {
            AnyDiagnostic::UnresolvedModule(d) => d.spec_target_kind(),
            AnyDiagnostic::UnresolvedExternCrate(d) => d.spec_target_kind(),
            AnyDiagnostic::UnresolvedImport(d) => d.spec_target_kind(),
            AnyDiagnostic::InactiveCode(d) => d.spec_target_kind(),
        }
    }

    open spec fn spec_target_path(&self) -> Seq<usize> {
        match self {
            AnyDiagnostic::UnresolvedModule(d) => d.spec_target_path(),
            AnyDiagnostic::UnresolvedExternCrate(d) => d.spec_target_path(),
            AnyDiagnostic::UnresolvedImport(d) => d.spec_target_path(),
            AnyDiagnostic::InactiveCode(d) => d.spec_target_path(),
        }
    }

    open spec fn spec_experimental(&self) -> bool {
        match self {
            AnyDiagnostic::UnresolvedModule(d) => d.spec_experimental(),
            AnyDiagnostic::UnresolvedExternCrate(d) => d.spec_experimental(),
            AnyDiagnostic::UnresolvedImport(d) => d.spec_experimental(),
            AnyDiagnostic::InactiveCode(d) => d.spec_experimental(),
        }
    }

    fn code(&self) -> (c: DiagnosticCode) {
        match self {
            AnyDiagnostic::UnresolvedModule(d) => d.code(),
            AnyDiagnostic::UnresolvedExternCrate(d) => d.code(),
            AnyDiagnostic::UnresolvedImport(d) => d.code(),
            AnyDiagnostic::InactiveCode(d) => d.code(),
        }
    }

    fn message(&self) -> (m: String) {
        match self {
            AnyDiagnostic::UnresolvedModule(d) => d.message(),
            AnyDiagnostic::UnresolvedExternCrate(d) => d.message(),
            AnyDiagnostic::UnresolvedImport(d) => d.message(),
            AnyDiagnostic::InactiveCode(d) => d.message(),
        }
    }

    fn display_source(&self) -> (a: SourceAnchor) {
        match self {
            AnyDiagnostic::UnresolvedModule(d) => d.display_source(),
            AnyDiagnostic::UnresolvedExternCrate(d) => d.display_source(),
            AnyDiagnostic::UnresolvedImport(d) => d.display_source(),
            AnyDiagnostic::InactiveCode(d) => d.display_source(),
        }
    }

    fn is_experimental(&self) -> (b: bool) {
        match self {
            AnyDiagnostic::UnresolvedModule(d) => d.is_experimental(),
            AnyDiagnostic::UnresolvedExternCrate(d) => d.is_experimental(),
            AnyDiagnostic::UnresolvedImport(d) => d.is_experimental(),
            AnyDiagnostic::InactiveCode(d) => d.is_experimental(),
        }
    }
}

impl AnyDiagnostic {
    /// Views the entry as an UnresolvedModule: succeeds exactly when it was
    /// constructed as one, and reports no match otherwise.
    pub fn recover_unresolved_module(&self) -> (r: Option<&UnresolvedModule>)
        ensures
            (r is Some) == (self is UnresolvedModule),
            r matches Some(d) ==> *self == AnyDiagnostic::UnresolvedModule(*d),
    {
        match self {
            AnyDiagnostic::UnresolvedModule(d) => Some(d),
            _ => None,
        }
    }

    /// Views the entry as an UnresolvedExternCrate: succeeds exactly when it
    /// was constructed as one, and reports no match otherwise.
    pub fn recover_unresolved_extern_crate(&self) -> (r: Option<&UnresolvedExternCrate>)
        ensures
            (r is Some) == (self is UnresolvedExternCrate),
            r matches Some(d) ==> *self == AnyDiagnostic::UnresolvedExternCrate(*d),
    {
        match self {
            AnyDiagnostic::UnresolvedExternCrate(d) => Some(d),
            _ => None,
        }
    }

    /// Views the entry as an UnresolvedImport: succeeds exactly when it was
    /// constructed as one, and reports no match otherwise.
    pub fn recover_unresolved_import(&self) -> (r: Option<&UnresolvedImport>)
        ensures
            (r is Some) == (self is UnresolvedImport),
            r matches Some(d) ==> *self == AnyDiagnostic::UnresolvedImport(*d),
    {
        match self {
            AnyDiagnostic::UnresolvedImport(d) => Some(d),
            _ => None,
        }
    }

    /// Views the entry as an InactiveCode: succeeds exactly when it was
    /// constructed as one, and reports no match otherwise.
    pub fn recover_inactive_code(&self) -> (r: Option<&InactiveCode>)
        ensures
            (r is Some) == (self is InactiveCode),
            r matches Some(d) ==> *self == AnyDiagnostic::InactiveCode(*d),
    {
        match self {
            AnyDiagnostic::InactiveCode(d) => Some(d),
            _ => None,
        }
    }
}

/// Whether two entries were constructed as the same kind.
pub open spec fn same_kind(a: AnyDiagnostic, b: AnyDiagnostic) -> bool {
    ||| (a is UnresolvedModule && b is UnresolvedModule)
    ||| (a is UnresolvedExternCrate && b is UnresolvedExternCrate)
    ||| (a is UnresolvedImport && b is UnresolvedImport)
    ||| (a is InactiveCode && b is InactiveCode)
}

/// Law: the code identifies the kind — it is constant across all instances
/// of one kind, and no two kinds share a code.
pub proof fn lemma_code_identifies_kind(a: AnyDiagnostic, b: AnyDiagnostic)
    ensures
        a.spec_code() == b.spec_code() <==> same_kind(a, b),
{
    reveal_strlit("unresolved-module");
    reveal_strlit("unresolved-extern-crate");
    reveal_strlit("unresolved-import");
    reveal_strlit("inactive-code");
    assert("unresolved-module"@[11] != "unresolved-import"@[11]);
    assert("unresolved-module"@ != "unresolved-import"@);
    assert("unresolved-module"@.len() != "unresolved-extern-crate"@.len());
    assert("unresolved-module"@.len() != "inactive-code"@.len());
    assert("unresolved-extern-crate"@.len() != "unresolved-import"@.len());
    assert("unresolved-extern-crate"@.len() != "inactive-code"@.len());
    assert("unresolved-import"@.len() != "inactive-code"@.len());
}

/// Law: the unresolved-import kind is experimental and no other kind is.
pub proof fn lemma_experimental_kinds(a: AnyDiagnostic)
    ensures
        a.spec_experimental() <==> a is UnresolvedImport,
{
}

/// A pass's growable result collection. Entries stand in it in emission
/// order, and nothing reorders or drops them on the way to a consumer.
#[derive(Debug)]
pub struct DiagnosticCollection {
    entries: Vec<AnyDiagnostic>,
}

impl View for DiagnosticCollection {
    type V = Seq<AnyDiagnostic>;

    closed spec fn view(&self) -> Seq<AnyDiagnostic> {
        self.entries@
    }
}

impl DiagnosticCollection {
    /// An empty collection, for a pass that is about to run.
    pub fn new() -> (c: DiagnosticCollection)
        ensures
            c@ == Seq::<AnyDiagnostic>::empty(),
    {
        DiagnosticCollection { entries: Vec::new() }
    }

    /// Appends one entry after everything emitted so far.
    pub fn push(&mut self, d: AnyDiagnostic)
        ensures
            final(self)@ == old(self)@.push(d),
    {
        self.entries.push(d);
    }

    /// How many entries the pass has emitted.
    pub fn len(&self) -> (n: usize)
        ensures
            n == self@.len(),
    {
        self.entries.len()
    }

    /// The entry at position `i` in emission order.
    pub fn get(&self, i: usize) -> (r: &AnyDiagnostic)
        requires
            i < self@.len(),
        ensures
            *r == self@[i as int],
    {
        &self.entries[i]
    }
}

} // verus!
