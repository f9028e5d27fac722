//! The flatten step of the repository fetch: after the sparse pull the
//! subdirectory's entries are moved up to the installation root,
//! except where an entry of the same name already stands there (this
//! protects the version-control metadata directory).

use vstd::prelude::*;

verus! {

/// The entries to move up: those of the subdirectory that do not
/// collide with an entry already present at the root.
pub open spec fn relocation_plan(sub: Seq<Seq<char>>, root: Seq<Seq<char>>) -> Seq<Seq<char>> {
    sub.filter(|e: Seq<char>| !root.contains(e))
}

/// Whether `v` holds a string equal to `s`.
fn vec_contains_string(v: &Vec<String>, s: &String) -> (r: bool)
    ensures
        r == v.deep_view().contains(s@),
{
    let mut i: usize = 0;
    while i < v.len()
        invariant
            0 <= i <= v.len(),
            forall|k: int| 0 <= k < i ==> v.deep_view()[k] != s@,
        decreases v.len() - i,
    {
        if s.eq(&v[i]) {
            proof {
                assert(v.deep_view()[i as int] == s@);
            }
            return true;
        }
        i = i + 1;
    }
    false
}

/// Computes the relocation plan: the subdirectory entries, in listing
/// order, that do not collide with a root entry.
pub fn flatten_plan(subdir_entries: &Vec<String>, root_entries: &Vec<String>) -> (r: Vec<String>)
    ensures
        r.deep_view() == relocation_plan(subdir_entries.deep_view(), root_entries.deep_view()),
{
    let ghost sub = subdir_entries.deep_view();
    let ghost root = root_entries.deep_view();
    let mut r: Vec<String> = Vec::new();
    let mut i: usize = 0;
    proof {
        reveal(Seq::filter);
        assert(r.deep_view() =~= relocation_plan(sub.take(0), root));
    }
    while i < subdir_entries.len()
        invariant
            0 <= i <= subdir_entries.len(),
            sub == subdir_entries.deep_view(),
            root == root_entries.deep_view(),
            r.deep_view() == relocation_plan(sub.take(i as int), root),
        decreases subdir_entries.len() - i,
    {
        let ghost r_before = r.deep_view();
        let collides = vec_contains_string(root_entries, &subdir_entries[i]);
        if !collides {
            r.push(subdir_entries[i].clone());
        }
        proof {
            reveal(Seq::filter);
            assert(subdir_entries@[i as int]@ == sub[i as int]);
            assert(sub.take(i + 1).drop_last() =~= sub.take(i as int));
            assert(sub.take(i + 1).last() == sub[i as int]);
            if !collides {
                assert(r.deep_view() =~= r_before.push(sub[i as int]));
            }
            assert(r.deep_view() == relocation_plan(sub.take(i + 1), root));
        }
        i = i + 1;
    }
    proof {
        assert(sub.take(subdir_entries.len() as int) =~= sub);
    }
    r
}

/// The root contents after the flatten step, as sets of entry names:
/// the prior root entries, minus the emptied subdirectory, plus every
/// subdirectory entry that did not collide with a root entry.
pub open spec fn flattened_root(
    root: Set<Seq<char>>,
    sub: Set<Seq<char>>,
    subdirectory: Seq<char>,
) -> Set<Seq<char>> {
    root.remove(subdirectory).union(sub.difference(root))
}

/// An entry of the relocation plan comes from the subdirectory and
/// does not collide with a root entry.
proof fn lemma_plan_entry_from_subdirectory(sub: Seq<Seq<char>>, root: Seq<Seq<char>>, x: Seq<char>)
    requires
        relocation_plan(sub, root).contains(x),
    ensures
        sub.contains(x),
        !root.contains(x),
    decreases sub.len(),
{
    reveal(Seq::filter);
    let plan = relocation_plan(sub, root);
    let dl_plan = relocation_plan(sub.drop_last(), root);
    if sub.len() == 0 {
    } else {
        if !root.contains(sub.last()) && x == sub.last() {
            assert(sub[sub.len() - 1] == x);
        } else {
            let i = choose|i: int| 0 <= i < plan.len() && plan[i] == x;
            assert(dl_plan.contains(x)) by {
                assert(dl_plan[i] == x);
            }
            lemma_plan_entry_from_subdirectory(sub.drop_last(), root, x);
            let j = choose|j: int| 0 <= j < sub.drop_last().len() && sub.drop_last()[j] == x;
            assert(sub[j] == x);
        }
    }
}

/// The relocation plan moves exactly the subdirectory entries that
/// are not already present at the root.
pub proof fn lemma_relocation_plan_exact(sub: Seq<Seq<char>>, root: Seq<Seq<char>>)
    ensures
        forall|x: Seq<char>|
            #[trigger] relocation_plan(sub, root).contains(x) <==> sub.contains(x)
                && !root.contains(x),
{
    let plan = relocation_plan(sub, root);
    assert forall|x: Seq<char>| #[trigger] plan.contains(x) implies sub.contains(x)
        && !root.contains(x) by {
        lemma_plan_entry_from_subdirectory(sub, root, x);
    }
    assert forall|x: Seq<char>| sub.contains(x) && !root.contains(x) implies #[trigger] plan
        .contains(x) by {
        let i = choose|i: int| 0 <= i < sub.len() && sub[i] == x;
        lemma_plan_keeps_entry(sub, root, i);
    }
}

/// A non-colliding subdirectory entry stands in the relocation plan.
proof fn lemma_plan_keeps_entry(sub: Seq<Seq<char>>, root: Seq<Seq<char>>, i: int)
    requires
        0 <= i < sub.len(),
        !root.contains(sub[i]),
    ensures
        relocation_plan(sub, root).contains(sub[i]),
    decreases sub.len(),
{
    reveal(Seq::filter);
    let plan = relocation_plan(sub, root);
    let dl_plan = relocation_plan(sub.drop_last(), root);
    if i == sub.len() - 1 {
        assert(plan[plan.len() - 1] == sub[i]);
    } else {
        assert(sub.drop_last()[i] == sub[i]);
        lemma_plan_keeps_entry(sub.drop_last(), root, i);
        let j = choose|j: int| 0 <= j < dl_plan.len() && dl_plan[j] == sub[i];
        assert(plan[j] == sub[i]);
    }
}

/// Law: whatever stood at the installation path before the run, a
/// successful run leaves exactly the flattened subdirectory contents
/// plus the version-control metadata and the generated environment
/// file, and no leftover nested subdirectory. The directory is
/// recreated empty before the fetch, so the fetch materializes exactly
/// the metadata directory and the subdirectory at the root; flattening
/// and the environment write then determine the final tree from the
/// remote contents alone.
pub proof fn lemma_clean_install_tree(sub: Set<Seq<char>>)
    ensures
        ({
            let root = set![".git"@, "web"@];
            let final_tree = flattened_root(root, sub, "web"@).insert(".env"@);
            &&& final_tree =~= sub.difference(set![".git"@, "web"@]).union(set![".git"@, ".env"@])
            &&& !final_tree.contains("web"@)
        }),
{
    reveal_strlit(".git");
    reveal_strlit("web");
    reveal_strlit(".env");
    assert(".git"@.len() == 4);
    assert("web"@.len() == 3);
    assert(".env"@.len() == 4);
    assert(".git"@[1] == 'g');
    assert(".env"@[1] == 'e');
}

} // verus!
