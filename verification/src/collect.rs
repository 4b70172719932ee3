//! The statement collector: a depth-first walk over a directory tree,
//! selecting statement files by their extension and pairing each file's
//! content with its path as a human-readable label.
//!
//! The unverified driver reads the tree from disk in one pass — either
//! completely or not at all — and hands it over as [`FsNode`] values;
//! the selection and labeling logic here is verified for every tree.

use crate::replay::WorkItem;
use vstd::prelude::*;

verus! {

broadcast use vstd::std_specs::vec::axiom_vec_index_decreases;

/// One node of the directory tree, as listed by the driver: a regular
/// file with its content, a subdirectory with its entries, or anything
/// else (sockets, symlinks, ...), which is skipped.
pub enum FsNode {
    File { name: String, content: String },
    Dir { name: String, entries: Vec<FsNode> },
    Other { name: String },
}

/// A path component appended to a directory prefix.
pub open spec fn join_path(prefix: Seq<char>, name: Seq<char>) -> Seq<char> {
    prefix + seq!['/'] + name
}

/// Whether a filename carries the statement-file extension: at least one
/// character of stem, then `.sql`.
pub open spec fn has_sql_ext(name: Seq<char>) -> bool {
    &&& name.len() >= 5
    &&& name[name.len() - 4] == '.'
    &&& name[name.len() - 3] == 's'
    &&& name[name.len() - 2] == 'q'
    &&& name[name.len() - 1] == 'l'
}

/// The (path, content) pairs collected from one node, depth first.
pub open spec fn collected_from_node(prefix: Seq<char>, node: FsNode) -> Seq<
    (Seq<char>, Seq<char>),
>
    decreases node, 0int,
{
    match node {
        FsNode::File { name, content } => {
            if has_sql_ext(name@) {
                seq![(join_path(prefix, name@), content@)]
            } else {
                Seq::empty()
            }
        },
        FsNode::Dir { name, entries } => collected_from_entries(
            join_path(prefix, name@),
            entries,
            entries@.len() as int,
        ),
        FsNode::Other { name } => Seq::empty(),
    }
}

/// The pairs collected from the first `n` entries of a directory, in
/// listing order.
pub open spec fn collected_from_entries(prefix: Seq<char>, entries: Vec<FsNode>, n: int) -> Seq<
    (Seq<char>, Seq<char>),
>
    decreases entries, n,
{
    if n <= 0 || entries@.len() < n {
        Seq::empty()
    } else {
        collected_from_entries(prefix, entries, n - 1) + collected_from_node(
            prefix,
            entries@[n - 1],
        )
    }
}

/// The (label, statement) views of collected work items.
pub open spec fn items_view(s: Seq<WorkItem>) -> Seq<(Seq<char>, Seq<char>)> {
    s.map_values(|w: WorkItem| (w.label@, w.statement@))
}

/// Checks the statement-file extension on a filename.
pub fn has_sql_ext_exec(name: &str) -> (b: bool)
    ensures
        b == has_sql_ext(name@),
{
    let n: usize = name.unicode_len();
    n >= 5 && name.get_char(n - 4) == '.' && name.get_char(n - 3) == 's' && name.get_char(n - 2)
        == 'q' && name.get_char(n - 1) == 'l'
}

/// Appends one path component to a directory prefix.
fn join_path_exec(prefix: &String, name: &String) -> (r: String)
    ensures
        r@ == join_path(prefix@, name@),
{
    let mut out: String = prefix.clone();
    out.append("/");
    out.append(name.as_str());
    proof {
        reveal_strlit("/");
        assert("/"@ =~= seq!['/']);
        assert(out@ =~= join_path(prefix@, name@));
    }
    out
}

/// Collects the statement files under one node, depth first: every
/// regular file with the statement extension becomes one work item whose
/// label is its path and whose statement is the file content verbatim;
/// other entries are skipped and subdirectories are recursed into.
pub fn collect_from_node(prefix: &String, node: &FsNode) -> (r: Vec<WorkItem>)
    ensures
        items_view(r@) == collected_from_node(prefix@, *node),
    decreases *node, 0int,
{
    match node {
        FsNode::File { name, content } => {
            let mut out: Vec<WorkItem> = Vec::new();
            if has_sql_ext_exec(name.as_str()) {
                let label = join_path_exec(prefix, name);
                out.push(WorkItem { label, statement: content.clone() });
            }
            proof {
                assert(items_view(out@) =~= collected_from_node(prefix@, *node));
            }
            out
        },
        FsNode::Dir { name, entries } => {
            let child_prefix = join_path_exec(prefix, name);
            proof {
                assert(decreases_to!(*node => *entries));
            }
            collect_statements(&child_prefix, entries)
        },
        FsNode::Other { name } => {
            let out: Vec<WorkItem> = Vec::new();
            proof {
                assert(items_view(out@) =~= Seq::<(Seq<char>, Seq<char>)>::empty());
            }
            out
        },
    }
}

/// Collects the statement files under a whole directory, given its path
/// and its listed entries, in listing order and depth first.
pub fn collect_statements(root: &String, entries: &Vec<FsNode>) -> (r: Vec<WorkItem>)
    ensures
        items_view(r@) == collected_from_entries(root@, *entries, entries@.len() as int),
    decreases *entries, entries@.len(),
{
    let mut out: Vec<WorkItem> = Vec::new();
    let mut i: usize = 0;
    while i < entries.len()
        invariant
            i <= entries@.len(),
            items_view(out@) =~= collected_from_entries(root@, *entries, i as int),
        decreases entries@.len() - i,
    {
        proof {
            assert(decreases_to!(*entries => entries@[i as int]));
        }
        let mut sub = collect_from_node(root, &entries[i]);
        proof {
            assert(items_view(out@ + sub@) =~= items_view(out@) + items_view(sub@));
        }
        out.append(&mut sub);
        i = i + 1;
    }
    out
}

/// The pairs collected from a listing of sibling nodes, in listing
/// order.
pub open spec fn collected_over(prefix: Seq<char>, nodes: Seq<FsNode>) -> Seq<
    (Seq<char>, Seq<char>),
>
    decreases nodes.len(),
{
    if nodes.len() == 0 {
        Seq::empty()
    } else {
        collected_over(prefix, nodes.drop_last()) + collected_from_node(prefix, nodes.last())
    }
}

/// What the collector gathers from a directory's first `n` entries is
/// the fold over that listing.
pub proof fn lemma_collected_entries_as_over(prefix: Seq<char>, entries: Vec<FsNode>, n: int)
    requires
        0 <= n <= entries@.len(),
    ensures
        collected_from_entries(prefix, entries, n) == collected_over(prefix, entries@.take(n)),
    decreases n,
{
    if n > 0 {
        lemma_collected_entries_as_over(prefix, entries, n - 1);
        assert(entries@.take(n).drop_last() =~= entries@.take(n - 1));
        assert(entries@.take(n).last() == entries@[n - 1]);
    } else {
        assert(entries@.take(0) =~= Seq::<FsNode>::empty());
    }
}

/// Collection distributes over concatenation of listings.
pub proof fn lemma_collected_over_concat(prefix: Seq<char>, u: Seq<FsNode>, v: Seq<FsNode>)
    ensures
        collected_over(prefix, u + v) == collected_over(prefix, u) + collected_over(prefix, v),
    decreases v.len(),
{
    if v.len() == 0 {
        assert(u + v =~= u);
        assert(collected_over(prefix, u) + Seq::<(Seq<char>, Seq<char>)>::empty()
            =~= collected_over(prefix, u));
    } else {
        lemma_collected_over_concat(prefix, u, v.drop_last());
        assert((u + v).drop_last() =~= u + v.drop_last());
        assert((u + v).last() == v.last());
        assert((collected_over(prefix, u) + collected_over(prefix, v.drop_last()))
            + collected_from_node(prefix, v.last()) =~= collected_over(prefix, u) + (
        collected_over(prefix, v.drop_last()) + collected_from_node(prefix, v.last())));
    }
}

/// Order-independence law: two listings of the same directory entries —
/// the same nodes, in any order — collect the same multiset of
/// (path, content) pairs.
pub proof fn lemma_collect_order_independent(
    prefix: Seq<char>,
    first_listing: Seq<FsNode>,
    second_listing: Seq<FsNode>,
)
    requires
        first_listing.to_multiset() == second_listing.to_multiset(),
    ensures
        collected_over(prefix, first_listing).to_multiset() == collected_over(
            prefix,
            second_listing,
        ).to_multiset(),
    decreases first_listing.len(),
{
    broadcast use vstd::seq_lib::group_to_multiset_ensures;
    broadcast use vstd::multiset::group_multiset_axioms;

    first_listing.to_multiset_ensures();
    second_listing.to_multiset_ensures();
    if first_listing.len() == 0 {
        assert(second_listing.len() == 0);
    } else {
        let x = first_listing.last();
        let rest = first_listing.drop_last();
        assert(first_listing.contains(x));
        assert(second_listing.to_multiset().count(x) > 0);
        assert(second_listing.contains(x));
        let j = choose|j: int| 0 <= j < second_listing.len() && second_listing[j] == x;
        let removed = second_listing.remove(j);
        assert(rest.push(x) =~= first_listing);
        assert(rest.push(x).to_multiset() =~= rest.to_multiset().insert(x));
        assert(rest.to_multiset() =~= first_listing.to_multiset().remove(x));
        assert(removed.to_multiset() =~= second_listing.to_multiset().remove(x));
        lemma_collect_order_independent(prefix, rest, removed);

        let before = second_listing.take(j);
        let after = second_listing.skip(j + 1);
        assert(second_listing =~= (before + seq![x]) + after);
        assert(removed =~= before + after);
        assert(seq![x].drop_last() =~= Seq::<FsNode>::empty());
        assert(seq![x].last() == x);
        assert(collected_over(prefix, Seq::<FsNode>::empty()) =~= Seq::<
            (Seq<char>, Seq<char>),
        >::empty());
        assert(Seq::<(Seq<char>, Seq<char>)>::empty() + collected_from_node(prefix, x)
            =~= collected_from_node(prefix, x));
        assert(collected_over(prefix, seq![x]) =~= collected_from_node(prefix, x));
        lemma_collected_over_concat(prefix, before + seq![x], after);
        lemma_collected_over_concat(prefix, before, seq![x]);
        lemma_collected_over_concat(prefix, before, after);

        let from_before = collected_over(prefix, before);
        let from_after = collected_over(prefix, after);
        let from_x = collected_from_node(prefix, x);
        vstd::seq_lib::lemma_multiset_commutative(from_before + from_x, from_after);
        vstd::seq_lib::lemma_multiset_commutative(from_before, from_x);
        vstd::seq_lib::lemma_multiset_commutative(from_before, from_after);
        vstd::seq_lib::lemma_multiset_commutative(collected_over(prefix, rest), from_x);
        vstd::seq_lib::lemma_multiset_commutative(collected_over(prefix, removed), from_x);
        assert(collected_over(prefix, first_listing) =~= collected_over(prefix, rest) + from_x);
        assert(collected_over(prefix, first_listing).to_multiset() =~= collected_over(
            prefix,
            second_listing,
        ).to_multiset());
    }
}

/// Idempotent collection law: two walks of an unchanged tree collect the
/// same (path, content) pairs — the same sequence, hence the same set of
/// pairs.
pub proof fn lemma_collect_idempotent(
    first: Seq<(Seq<char>, Seq<char>)>,
    second: Seq<(Seq<char>, Seq<char>)>,
    root: Seq<char>,
    entries: Vec<FsNode>,
)
    requires
        first == collected_from_entries(root, entries, entries@.len() as int),
        second == collected_from_entries(root, entries, entries@.len() as int),
    ensures
        first == second,
        first.to_set() == second.to_set(),
{
}

} // verus!
