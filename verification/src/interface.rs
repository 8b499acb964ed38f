//! What a module declares to the outside: its exports and its imports.

use vstd::prelude::*;
use crate::value::{Signature, SignatureSpec};

verus! {

/// The mathematical content of an [`ExternKind`].
pub enum ExternSpec {
    Function(SignatureSpec),
    Global,
    Table,
    Memory,
    Tag,
}

/// The kind of an item that a module exports or imports.
#[derive(Debug)]
pub enum ExternKind {
    Function(Signature),
    Global,
    Table,
    Memory,
    Tag,
}

impl View for ExternKind {
    type V = ExternSpec;

    open spec fn view(&self) -> ExternSpec {
        match self {
            ExternKind::Function(signature) => ExternSpec::Function(signature@),
            ExternKind::Global => ExternSpec::Global,
            ExternKind::Table => ExternSpec::Table,
            ExternKind::Memory => ExternSpec::Memory,
            ExternKind::Tag => ExternSpec::Tag,
        }
    }
}

impl ExternKind {
    /// A copy of this kind.
    pub fn duplicate(&self) -> (copy: ExternKind)
        ensures
            copy@ == self@,
    {
        match self {
            ExternKind::Function(signature) => ExternKind::Function(signature.duplicate()),
            ExternKind::Global => ExternKind::Global,
            ExternKind::Table => ExternKind::Table,
            ExternKind::Memory => ExternKind::Memory,
            ExternKind::Tag => ExternKind::Tag,
        }
    }
}

/// The mathematical content of an [`Export`].
pub struct ExportSpec {
    pub name: Seq<char>,
    pub kind: ExternSpec,
}

/// One export of a module: its name and what it is.
#[derive(Debug)]
pub struct Export {
    pub name: String,
    pub kind: ExternKind,
}

impl View for Export {
    type V = ExportSpec;

    open spec fn view(&self) -> ExportSpec {
        ExportSpec { name: self.name@, kind: self.kind@ }
    }
}

impl Export {
    /// A copy of this export.
    pub fn duplicate(&self) -> (copy: Export)
        ensures
            copy@ == self@,
    {
        Export { name: self.name.clone(), kind: self.kind.duplicate() }
    }
}

/// The mathematical content of an [`Import`].
pub struct ImportSpec {
    pub module: Seq<char>,
    pub name: Seq<char>,
    pub kind: ExternSpec,
}

/// One import of a module: the namespace and name under which it asks for an
/// item, and what the item has to be.
#[derive(Debug)]
pub struct Import {
    pub module: String,
    pub name: String,
    pub kind: ExternKind,
}

impl View for Import {
    type V = ImportSpec;

    open spec fn view(&self) -> ImportSpec {
        ImportSpec { module: self.module@, name: self.name@, kind: self.kind@ }
    }
}

/// The contents of a list of exports.
pub open spec fn export_specs(exports: Seq<Export>) -> Seq<ExportSpec> {
    exports.map_values(|e: Export| e@)
}

/// The contents of a list of imports.
pub open spec fn import_specs(imports: Seq<Import>) -> Seq<ImportSpec> {
    imports.map_values(|i: Import| i@)
}

/// The contents of a list of strings.
pub open spec fn texts(strings: Seq<String>) -> Seq<Seq<char>> {
    strings.map_values(|s: String| s@)
}

/// The kind of the first export called `name`, if there is one.
pub open spec fn lookup(exports: Seq<ExportSpec>, name: Seq<char>) -> Option<ExternSpec>
    decreases exports.len(),
{
    if exports.len() == 0 {
        None
    } else if exports[0].name == name {
        Some(exports[0].kind)
    } else {
        lookup(exports.skip(1), name)
    }
}

/// The signature of the first function exported as `name`; `None` where no
/// function is exported under that name.
pub open spec fn exported_function(exports: Seq<ExportSpec>, name: Seq<char>) -> Option<
    SignatureSpec,
>
    decreases exports.len(),
{
    if exports.len() == 0 {
        None
    } else {
        let rest = exported_function(exports.skip(1), name);
        match exports[0].kind {
            ExternSpec::Function(signature) => if exports[0].name == name {
                Some(signature)
            } else {
                rest
            },
            _ => rest,
        }
    }
}

/// Whether some function among `exports` is called `name`.
pub open spec fn names_function(exports: Seq<ExportSpec>, name: Seq<char>) -> bool {
    exists|i: int| 0 <= i < exports.len() && (#[trigger] exports[i]).name == name && is_function(
        exports[i],
    )
}

/// Whether an export is a function.
pub open spec fn is_function(export: ExportSpec) -> bool {
    export.kind is Function
}

/// The names of the exported functions, in the order of their declaration.
pub open spec fn function_names(exports: Seq<ExportSpec>) -> Seq<Seq<char>> {
    exports.filter(|e: ExportSpec| is_function(e)).map_values(|e: ExportSpec| e.name)
}

/// A function is found under a name exactly when some function export has
/// that name.
pub proof fn found_iff_named(exports: Seq<ExportSpec>, name: Seq<char>)
    ensures
        exported_function(exports, name) is Some <==> names_function(exports, name),
    decreases exports.len(),
{
    if exports.len() > 0 {
        let rest = exports.skip(1);
        found_iff_named(rest, name);
        if names_function(exports, name) {
            let i = choose|i: int|
                0 <= i < exports.len() && (#[trigger] exports[i]).name == name && is_function(
                    exports[i],
                );
            if i > 0 {
                assert(rest[i - 1] == exports[i]);
            }
        }
        if names_function(rest, name) {
            let i = choose|i: int|
                0 <= i < rest.len() && (#[trigger] rest[i]).name == name && is_function(rest[i]);
            assert(exports[i + 1] == rest[i]);
        }
    }
}

/// A name is listed exactly when some function export has that name.
pub proof fn listed_iff_named(exports: Seq<ExportSpec>, name: Seq<char>)
    ensures
        function_names(exports).contains(name) <==> names_function(exports, name),
    decreases exports.len(),
{
    reveal(Seq::filter);
    let keep = |e: ExportSpec| is_function(e);
    let name_of = |e: ExportSpec| e.name;
    if exports.len() == 0 {
        assert(function_names(exports) =~= Seq::<Seq<char>>::empty());
    } else {
        let front = exports.drop_last();
        let last = exports.last();
        let listed = function_names(exports);
        let before = function_names(front);
        listed_iff_named(front, name);
        if is_function(last) {
            assert(exports.filter(keep) == front.filter(keep).push(last));
            assert(listed =~= before.push(last.name));
        } else {
            assert(exports.filter(keep) == front.filter(keep));
            assert(listed =~= before);
        }
        if listed.contains(name) {
            let j = choose|j: int| 0 <= j < listed.len() && listed[j] == name;
            if j < before.len() {
                assert(before[j] == name);
                assert(before.contains(name));
                let i = choose|i: int|
                    0 <= i < front.len() && (#[trigger] front[i]).name == name && is_function(
                        front[i],
                    );
                assert(exports[i] == front[i]);
            } else {
                assert(exports[exports.len() - 1].name == name);
            }
        }
        if names_function(exports, name) {
            let i = choose|i: int|
                0 <= i < exports.len() && (#[trigger] exports[i]).name == name && is_function(
                    exports[i],
                );
            if i < front.len() {
                assert(front[i] == exports[i]);
                assert(before.contains(name));
                let j = choose|j: int| 0 <= j < before.len() && before[j] == name;
                assert(listed[j] == name);
            } else {
                assert(listed[listed.len() - 1] == name);
            }
        }
    }
}

/// The listing and the lookup agree: a name is among the listed functions
/// exactly when a function is found under it.
pub proof fn listed_iff_found(exports: Seq<ExportSpec>, name: Seq<char>)
    ensures
        function_names(exports).contains(name) <==> exported_function(exports, name) is Some,
{
    found_iff_named(exports, name);
    listed_iff_named(exports, name);
}

/// A copy of `exports`.
pub fn copy_exports(exports: &Vec<Export>) -> (copy: Vec<Export>)
    ensures
        export_specs(copy@) == export_specs(exports@),
{
    let mut copy: Vec<Export> = Vec::new();
    let mut i: usize = 0;
    while i < exports.len()
        invariant
            i <= exports.len(),
            copy@.len() == i,
            forall|j: int| 0 <= j < i ==> (#[trigger] copy@[j])@ == exports@[j]@,
        decreases exports.len() - i,
    {
        copy.push(exports[i].duplicate());
        i += 1;
    }
    assert(export_specs(copy@) =~= export_specs(exports@));
    copy
}

/// Finds the first export called `name`.
pub fn find_export(exports: &Vec<Export>, name: &str) -> (found: Option<usize>)
    ensures
        found is Some == lookup(export_specs(exports@), name@) is Some,
        found matches Some(i) ==> i < exports@.len() && lookup(export_specs(exports@), name@)
            == Some(exports@[i as int]@.kind),
{
    let key = name.to_owned();
    let ghost all = export_specs(exports@);
    let mut i: usize = 0;
    assert(all.skip(0) =~= all);
    while i < exports.len()
        invariant
            i <= exports.len(),
            key@ == name@,
            all == export_specs(exports@),
            lookup(all, name@) == lookup(all.skip(i as int), name@),
        decreases exports.len() - i,
    {
        proof {
            assert(all.skip(i as int)[0] == exports@[i as int]@);
            assert(all.skip(i as int).skip(1) =~= all.skip(i + 1));
        }
        if exports[i].name == key {
            return Some(i);
        }
        i += 1;
    }
    None
}

/// Finds the first function exported as `name` and returns its signature.
pub fn find_function(exports: &Vec<Export>, name: &str) -> (found: Option<Signature>)
    ensures
        found is Some == exported_function(export_specs(exports@), name@) is Some,
        found matches Some(signature) ==> exported_function(export_specs(exports@), name@)
            == Some(signature@),
{
    let key = name.to_owned();
    let ghost all = export_specs(exports@);
    let mut i: usize = 0;
    assert(all.skip(0) =~= all);
    while i < exports.len()
        invariant
            i <= exports.len(),
            key@ == name@,
            all == export_specs(exports@),
            exported_function(all, name@) == exported_function(all.skip(i as int), name@),
        decreases exports.len() - i,
    {
        proof {
            assert(all.skip(i as int)[0] == exports@[i as int]@);
            assert(all.skip(i as int).skip(1) =~= all.skip(i + 1));
        }
        match &exports[i].kind {
            ExternKind::Function(signature) => {
                if exports[i].name == key {
                    return Some(signature.duplicate());
                }
            },
            _ => {},
        }
        i += 1;
    }
    None
}

/// Whether a memory is exported as `name`.
pub fn exports_memory(exports: &Vec<Export>, name: &str) -> (found: bool)
    ensures
        found == (lookup(export_specs(exports@), name@) == Some(ExternSpec::Memory)),
{
    match find_export(exports, name) {
        Some(i) => match &exports[i].kind {
            ExternKind::Memory => true,
            _ => false,
        },
        None => false,
    }
}

/// Lists the names of the exported functions, in the order of their declaration.
pub fn list_function_names(exports: &Vec<Export>) -> (names: Vec<String>)
    ensures
        texts(names@) == function_names(export_specs(exports@)),
{
    let ghost all = export_specs(exports@);
    let ghost keep = |e: ExportSpec| is_function(e);
    let ghost name_of = |e: ExportSpec| e.name;
    let mut names: Vec<String> = Vec::new();
    let mut i: usize = 0;
    proof {
        reveal(Seq::filter);
        assert(all.take(0).filter(keep) =~= Seq::<ExportSpec>::empty());
        assert(texts(names@) =~= all.take(0).filter(keep).map_values(name_of));
    }
    while i < exports.len()
        invariant
            i <= exports.len(),
            all == export_specs(exports@),
            keep == (|e: ExportSpec| is_function(e)),
            name_of == (|e: ExportSpec| e.name),
            texts(names@) == all.take(i as int).filter(keep).map_values(name_of),
        decreases exports.len() - i,
    {
        let ghost before = all.take(i as int);
        let ghost after = all.take(i + 1);
        proof {
            reveal(Seq::filter);
            assert(after.drop_last() =~= before);
            assert(after.last() == exports@[i as int]@);
        }
        match &exports[i].kind {
            ExternKind::Function(_) => {
                let ghost old_names = names@;
                names.push(exports[i].name.clone());
                proof {
                    assert(after.filter(keep) == before.filter(keep).push(after.last()));
                    assert(texts(names@) =~= texts(old_names).push(exports@[i as int].name@));
                    assert(after.filter(keep).map_values(name_of) =~= before.filter(
                        keep,
                    ).map_values(name_of).push(after.last().name));
                }
            },
            _ => {
                proof {
                    assert(after.filter(keep) == before.filter(keep));
                }
            },
        }
        i += 1;
    }
    assert(all.take(exports@.len() as int) =~= all);
    names
}

} // verus!
