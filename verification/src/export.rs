//! Planning of the export walk: resolution of schema/table filters
//! against the catalog, and the mapping from discovered indexes to the
//! statement files written for them.
//!
//! The catalog queries themselves and all directory/file writes are
//! performed by the unverified driver; it feeds the discovered names
//! into these functions and executes the returned plans verbatim.

use crate::sanitize::sanitized_file_name;
use vstd::prelude::*;

verus! {

/// One index discovered on a table: its name and the already rendered,
/// executable statement text. The statement is opaque to this crate and
/// is passed through unchanged.
pub struct IndexStatement {
    pub name: String,
    pub statement: String,
}

/// A filter value of `*` selects everything; any other value selects
/// exactly the one named object.
pub open spec fn is_wildcard(s: Seq<char>) -> bool {
    s.len() == 1 && s[0] == '*'
}

/// The effective object set for a filter: the whole catalog under the
/// wildcard, otherwise the singleton of the filter itself.
pub open spec fn resolved_filter(filter: Seq<char>, catalog: Seq<Seq<char>>) -> Seq<Seq<char>> {
    if is_wildcard(filter) {
        catalog
    } else {
        seq![filter]
    }
}

/// Resolves a schema or table filter against the catalog's object list:
/// `*` expands to the full list in catalog order, anything else stands
/// for itself alone.
pub fn resolve_filter(filter: &String, catalog: &Vec<String>) -> (r: Vec<String>)
    ensures
        r.deep_view() == resolved_filter(filter@, catalog.deep_view()),
{
    let is_star: bool = filter.unicode_len() == 1 && filter.as_str().get_char(0) == '*';
    if is_star {
        let mut out: Vec<String> = Vec::new();
        let mut i: usize = 0;
        while i < catalog.len()
            invariant
                i <= catalog.len(),
                out@.len() == i,
                forall|j: int| 0 <= j < i ==> #[trigger] out@[j]@ == catalog@[j]@,
            decreases catalog.len() - i,
        {
            out.push(catalog[i].clone());
            i = i + 1;
        }
        proof {
            assert(out.deep_view() =~= catalog.deep_view());
        }
        out
    } else {
        let mut out: Vec<String> = Vec::new();
        out.push(filter.clone());
        proof {
            assert(out.deep_view() =~= seq![filter@]);
        }
        out
    }
}

/// Wildcard expansion law: under the wildcard filter the effective set
/// is exactly the catalog — one resolved entry per catalog object, in
/// the catalog's order — so the export walk creates exactly one output
/// subdirectory per non-excluded schema.
pub proof fn lemma_wildcard_expansion(filter: Seq<char>, catalog: Seq<Seq<char>>)
    requires
        is_wildcard(filter),
    ensures
        resolved_filter(filter, catalog).len() == catalog.len(),
        forall|i: int|
            0 <= i < catalog.len() ==> resolved_filter(filter, catalog)[i] == catalog[i],
{
}

/// The file plan for one table: one (filename, content) pair per index,
/// in discovery order, where the filename is the sanitized index name
/// and the content is the statement text verbatim.
pub open spec fn index_file_plan(indexes: Seq<IndexStatement>) -> Seq<(Seq<char>, Seq<char>)> {
    indexes.map_values(|ix: IndexStatement| (sanitized_file_name(ix.name@), ix.statement@))
}

/// Maps each discovered index of a table to the statement file written
/// for it: the sanitized name as filename, the statement text unchanged
/// as content.
pub fn plan_index_files(indexes: &Vec<IndexStatement>) -> (r: Vec<(String, String)>)
    ensures
        r@.map_values(|p: (String, String)| (p.0@, p.1@)) == index_file_plan(indexes@),
{
    let mut out: Vec<(String, String)> = Vec::new();
    let mut i: usize = 0;
    while i < indexes.len()
        invariant
            i <= indexes.len(),
            out@.len() == i,
            forall|j: int|
                0 <= j < i ==> #[trigger] out@[j].0@ == sanitized_file_name(indexes@[j].name@)
                    && out@[j].1@ == indexes@[j].statement@,
        decreases indexes.len() - i,
    {
        let file_name = crate::sanitize::sanitize_index_file_name(indexes[i].name.as_str());
        let content = indexes[i].statement.clone();
        out.push((file_name, content));
        i = i + 1;
    }
    proof {
        assert(out@.map_values(|p: (String, String)| (p.0@, p.1@)) =~= index_file_plan(indexes@));
    }
    out
}

} // verus!
