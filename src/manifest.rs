use vstd::prelude::*;
use crate::error::WorkspaceError;

verus! {

#[verifier::external_type_specification]
#[verifier::external_body]
pub struct ExDocument(toml_edit::Document);

#[verifier::external_type_specification]
#[verifier::external_body]
pub struct ExTomlError(toml_edit::TomlError);

/// One entry of a dependency table: its key, the TOML text of its value (empty for an
/// array of tables or the none item), and whether the value has a `path`.
pub type DependencyEntry = (Seq<char>, Seq<char>, bool);

/// The entries of the `[dependencies]` table of a manifest, in order. Empty when the
/// root or `dependencies` is not a table.
pub uninterp spec fn dependency_entries(d: toml_edit::Document) -> Seq<DependencyEntry>;

/// Whether the document's root item is a table, as every parsed document's is.
pub uninterp spec fn root_is_table(d: toml_edit::Document) -> bool;

/// Whether the text is a TOML document.
pub uninterp spec fn toml_parses(text: Seq<char>) -> bool;

/// The dependency entries of the document that the text parses to.
pub uninterp spec fn parsed_entries(text: Seq<char>) -> Seq<DependencyEntry>;

/// The TOML text of a document.
pub uninterp spec fn document_text_of(d: toml_edit::Document) -> Seq<char>;

pub open spec fn key_differs(k: Seq<char>) -> spec_fn(DependencyEntry) -> bool {
    |e: DependencyEntry| e.0 != k
}

pub open spec fn not_path() -> spec_fn(DependencyEntry) -> bool {
    |e: DependencyEntry| !e.2
}

pub open spec fn distinct_keys(s: Seq<DependencyEntry>) -> bool {
    forall|i: int, j: int| 0 <= i < s.len() && 0 <= j < s.len() && i != j ==> s[i].0 != s[j].0
}

/// Relies on `toml_edit::Document`'s `FromStr`, which depends on the text alone and
/// builds a document whose root is a table.
#[verifier::external_body]
fn parse_document(text: &str) -> (r: Result<toml_edit::Document, toml_edit::TomlError>)
    ensures
        r is Ok <==> toml_parses(text@),
        r matches Ok(d) ==> dependency_entries(d) == parsed_entries(text@) && root_is_table(d),
{
    text.parse::<toml_edit::Document>()
}

/// Relies on `toml_edit::Document`'s `Display`, which panics unless the root is a table.
#[verifier::external_body]
fn document_text(doc: &toml_edit::Document) -> (r: String)
    requires
        root_is_table(*doc),
    ensures
        r@ == document_text_of(*doc),
{
    doc.to_string()
}

/// Relies on `Table::iter` of toml_edit, which walks the table's linked hash map in
/// order, on the `Display` of a value or table, and on indexing an item by `"path"`.
/// Keys are distinct, as the keys of a map are.
#[verifier::external_body]
fn dependency_entries_of(doc: &toml_edit::Document) -> (r: Vec<(String, String, bool)>)
    ensures
        r@.map_values(|e: (String, String, bool)| (e.0@, e.1@, e.2)) == dependency_entries(*doc),
        forall|i: int, j: int|
            0 <= i < r@.len() && 0 <= j < r@.len() && i != j ==> r@[i].0@ != r@[j].0@,
        !root_is_table(*doc) ==> r@.len() == 0,
{
    match doc.root.as_table().and_then(|root| root.get("dependencies")) {
        Some(toml_edit::Item::Table(t)) => t.iter().map(|(k, i)| {
            let text = match i {
                toml_edit::Item::Value(v) => v.to_string(),
                toml_edit::Item::Table(t) => t.to_string(),
                _ => String::new(),
            };
            (k.to_owned(), text, !i["path"].is_none())
        }).collect(),
        _ => Vec::new(),
    }
}

/// Relies on `Table::get` and indexing a table by key in toml_edit: when the root of
/// `to` is a table, its `dependencies` item becomes a clone of that of `from` (the
/// none item when `from` has none); otherwise `to` is left alone.
#[verifier::external_body]
fn copy_dependencies(from: &toml_edit::Document, to: &mut toml_edit::Document)
    ensures
        root_is_table(*final(to)) == root_is_table(*old(to)),
        root_is_table(*old(to)) ==> dependency_entries(*final(to)) == dependency_entries(*from),
        !root_is_table(*old(to)) ==> *final(to) == *old(to),
{
    let item = from.root.as_table().and_then(|root| root.get("dependencies")).cloned();
    if let Some(root) = to.root.as_table_mut() {
        root["dependencies"] = item.unwrap_or(toml_edit::Item::None);
    }
}

/// Relies on `Table::remove` of toml_edit, a linked hash map removal that keeps the
/// order of the other entries; nothing changes when there is no dependency table.
#[verifier::external_body]
fn remove_dependency(doc: &mut toml_edit::Document, key: &str)
    ensures
        root_is_table(*final(doc)) == root_is_table(*old(doc)),
        dependency_entries(*final(doc)) == dependency_entries(*old(doc)).filter(key_differs(key@)),
{
    if let Some(root) = doc.root.as_table_mut() {
        if let Some(toml_edit::Item::Table(t)) = root.get_mut("dependencies") {
            t.remove(key);
        }
    }
}

proof fn lemma_filter_filter<A>(s: Seq<A>, p: spec_fn(A) -> bool, q: spec_fn(A) -> bool)
    ensures
        s.filter(p).filter(q) == s.filter(|e: A| p(e) && q(e)),
    decreases s.len(),
{
    reveal(Seq::filter);
    let both = |e: A| p(e) && q(e);
    if s.len() > 0 {
        lemma_filter_filter(s.drop_last(), p, q);
        let sub = s.drop_last().filter(p);
        if p(s.last()) {
            assert(sub.push(s.last()).drop_last() =~= sub);
        }
    }
}

proof fn lemma_filter_congruent<A>(s: Seq<A>, p: spec_fn(A) -> bool, q: spec_fn(A) -> bool)
    requires
        forall|i: int| 0 <= i < s.len() ==> p(s[i]) == q(s[i]),
    ensures
        s.filter(p) == s.filter(q),
    decreases s.len(),
{
    reveal(Seq::filter);
    if s.len() > 0 {
        assert forall|i: int| 0 <= i < s.drop_last().len() implies p(s.drop_last()[i]) == q(s.drop_last()[i]) by {
            assert(s.drop_last()[i] == s[i]);
        }
        lemma_filter_congruent(s.drop_last(), p, q);
    }
}

/// Entries whose key is not that of a path entry among the first `i` of `e`.
pub open spec fn kept_after(e: Seq<DependencyEntry>, i: int) -> spec_fn(DependencyEntry) -> bool {
    |x: DependencyEntry| forall|j: int| 0 <= j < i ==> !(#[trigger] e[j].2 && e[j].0 == x.0)
}

/// Removes from the `[dependencies]` table every entry that resolves through a local
/// path, keeping the others, with their values, in order.
pub fn strip_path_dependencies(doc: &mut toml_edit::Document)
    ensures
        root_is_table(*final(doc)) == root_is_table(*old(doc)),
        dependency_entries(*final(doc)) == dependency_entries(*old(doc)).filter(not_path()),
{
    let entries = dependency_entries_of(doc);
    let ghost e = dependency_entries(*old(doc));
    proof {
        assert forall|a: int, b: int| 0 <= a < e.len() && 0 <= b < e.len() && a != b implies e[a].0 != e[b].0 by {
            assert(e[a].0 == entries@[a].0@);
            assert(e[b].0 == entries@[b].0@);
        }
        lemma_filter_congruent(e, |x: DependencyEntry| true, kept_after(e, 0));
        lemma_filter_all(e);
    }
    let mut i: usize = 0;
    while i < entries.len()
        invariant
            entries@.map_values(|x: (String, String, bool)| (x.0@, x.1@, x.2)) == e,
            distinct_keys(e),
            i <= entries@.len(),
            root_is_table(*doc) == root_is_table(*old(doc)),
            dependency_entries(*doc) == e.filter(kept_after(e, i as int)),
        decreases entries@.len() - i,
    {
        assert(e[i as int] == (entries@[i as int].0@, entries@[i as int].1@, entries@[i as int].2));
        if entries[i].2 {
            remove_dependency(doc, entries[i].0.as_str());
            proof {
                assert(e[i as int].2);
                lemma_filter_filter(e, kept_after(e, i as int), key_differs(e[i as int].0));
                lemma_filter_congruent(
                    e,
                    |x: DependencyEntry| kept_after(e, i as int)(x) && key_differs(e[i as int].0)(x),
                    kept_after(e, i + 1),
                );
            }
        } else {
            proof {
                lemma_filter_congruent(e, kept_after(e, i as int), kept_after(e, i + 1));
            }
        }
        i = i + 1;
    }
    proof {
        assert forall|m: int| 0 <= m < e.len() implies kept_after(e, e.len() as int)(e[m]) == not_path()(e[m]) by {
            if e[m].2 {
                assert(!kept_after(e, e.len() as int)(e[m]));
            }
        }
        lemma_filter_congruent(e, kept_after(e, e.len() as int), not_path());
    }
}

proof fn lemma_filter_all<A>(s: Seq<A>)
    ensures
        s.filter(|x: A| true) == s,
    decreases s.len(),
{
    reveal(Seq::filter);
    if s.len() > 0 {
        lemma_filter_all(s.drop_last());
        assert(s.drop_last().push(s.last()) =~= s);
    }
}

/// The scratch manifest: the skeleton manifest with the original manifest's dependency
/// table, less the entries that resolve through a local path. Fails exactly when either
/// text is not TOML.
pub fn patch_manifest(original: &str, skeleton: &str) -> (r: Result<String, WorkspaceError>)
    ensures
        r is Ok <==> toml_parses(original@) && toml_parses(skeleton@),
        r matches Err(e) ==> e is InvalidManifest,
        r matches Ok(t) ==> exists|d: toml_edit::Document|
            t@ == document_text_of(d) && root_is_table(d) && dependency_entries(d)
                == parsed_entries(original@).filter(not_path()),
{
    let orig = match parse_document(original) {
        Ok(d) => d,
        Err(_) => return Err(WorkspaceError::InvalidManifest(original.to_owned())),
    };
    let mut scratch = match parse_document(skeleton) {
        Ok(d) => d,
        Err(_) => return Err(WorkspaceError::InvalidManifest(skeleton.to_owned())),
    };
    patch_dependencies(&orig, &mut scratch);
    let text = document_text(&scratch);
    assert(text@ == document_text_of(scratch));
    Ok(text)
}

/// Gives `scratch` the dependency table of `original`, less its path entries. A
/// document whose root is not a table gets nothing copied in.
pub fn patch_dependencies(original: &toml_edit::Document, scratch: &mut toml_edit::Document)
    ensures
        root_is_table(*final(scratch)) == root_is_table(*old(scratch)),
        root_is_table(*old(scratch)) ==> dependency_entries(*final(scratch))
            == dependency_entries(*original).filter(not_path()),
        !root_is_table(*old(scratch)) ==> dependency_entries(*final(scratch))
            == dependency_entries(*old(scratch)).filter(not_path()),
{
    copy_dependencies(original, scratch);
    strip_path_dependencies(scratch);
}

} // verus!
