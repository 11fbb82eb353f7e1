use vstd::prelude::*;
use vstd::set_lib::{lemma_int_range, lemma_len_subset, set_int_range};

verus! {

broadcast use vstd::seq_lib::lemma_seq_contains_after_push;

/// Member `k` of `r` is the child, by one of `links` (pairs of a process id
/// and its parent's id), of a member that comes before it.
pub open spec fn joined(links: Seq<(i32, i32)>, r: Seq<i32>, k: int) -> bool {
    exists|j: int, m: int|
        0 <= j < links.len() && 0 <= m < k && #[trigger] links[j].0 == r[k] && links[j].1 == #[trigger] r[m]
}

/// Whether `v` holds `x`.
pub fn vec_contains(v: &Vec<i32>, x: i32) -> (r: bool)
    ensures
        r == v@.contains(x),
{
    let mut i: usize = 0;
    while i < v.len()
        invariant
            i <= v@.len(),
            forall|k: int| 0 <= k < i ==> v@[k] != x,
        decreases v@.len() - i,
    {
        if v[i] == x {
            assert(v@[i as int] == x);
            return true;
        }
        i = i + 1;
    }
    false
}

/// The process tree of `root`: the root first, then every process that
/// descends from it through `links`, each once. `links` pairs each visible
/// process id with its parent's id, as read in one scan.
pub fn process_tree(root: i32, links: &Vec<(i32, i32)>) -> (r: Vec<i32>)
    ensures
        r@.len() >= 1,
        r@[0] == root,
        r@.no_duplicates(),
        forall|k: int| 0 < k < r@.len() ==> joined(links@, r@, k),
        forall|j: int| 0 <= j < links@.len() && r@.contains(#[trigger] links@[j].1) ==> r@.contains(links@[j].0),
{
    let mut r: Vec<i32> = Vec::new();
    r.push(root);
    let ghost mut used: Set<int> = Set::empty();
    let mut i: usize = 0;
    while i < r.len()
        invariant
            1 <= r@.len(),
            r@[0] == root,
            i <= r@.len(),
            r@.no_duplicates(),
            forall|k: int| 0 < k < r@.len() ==> joined(links@, r@, k),
            forall|j: int, m: int| 0 <= j < links@.len() && 0 <= m < i && links@[j].1 == #[trigger] r@[m]
                ==> r@.contains(#[trigger] links@[j].0),
            used.finite(),
            used.subset_of(set_int_range(0, links@.len() as int)),
            r@.len() == used.len() + 1,
            forall|u: int| used.contains(u) ==> r@.contains(#[trigger] links@[u].0),
        decreases links@.len() + 1 - i,
    {
        proof {
            lemma_int_range(0, links@.len() as int);
            lemma_len_subset(used, set_int_range(0, links@.len() as int));
        }
        let p = r[i];
        let mut j: usize = 0;
        while j < links.len()
            invariant
                1 <= r@.len(),
                r@[0] == root,
                i < r@.len(),
                r@[i as int] == p,
                j <= links@.len(),
                r@.no_duplicates(),
                forall|k: int| 0 < k < r@.len() ==> joined(links@, r@, k),
                forall|j2: int, m: int| 0 <= j2 < links@.len() && 0 <= m < i && links@[j2].1 == #[trigger] r@[m]
                    ==> r@.contains(#[trigger] links@[j2].0),
                forall|j2: int| 0 <= j2 < j && links@[j2].1 == p ==> r@.contains(#[trigger] links@[j2].0),
                used.finite(),
                used.subset_of(set_int_range(0, links@.len() as int)),
                r@.len() == used.len() + 1,
                forall|u: int| used.contains(u) ==> r@.contains(#[trigger] links@[u].0),
            decreases links@.len() - j,
        {
            let (child, parent) = links[j];
            if parent == p && !vec_contains(&r, child) {
                let ghost old_r = r@;
                r.push(child);
                proof {
                    assert(!used.contains(j as int));
                    used = used.insert(j as int);
                    assert forall|k: int| 0 < k < r@.len() implies joined(links@, r@, k) by {
                        if k < old_r.len() {
                            assert(joined(links@, old_r, k));
                            let (ja, ma) = choose|ja: int, ma: int|
                                0 <= ja < links@.len() && 0 <= ma < k && #[trigger] links@[ja].0 == old_r[k]
                                    && links@[ja].1 == #[trigger] old_r[ma];
                            assert(r@[k] == old_r[k] && r@[ma] == old_r[ma]);
                            assert(links@[ja].0 == r@[k] && links@[ja].1 == r@[ma]);
                        } else {
                            assert(links@[j as int].0 == r@[k] && links@[j as int].1 == r@[i as int]);
                        }
                    }
                    assert forall|a: int, b: int| 0 <= a < b < r@.len() implies r@[a] != r@[b] by {
                        if b == old_r.len() {
                            assert(old_r.contains(r@[a]));
                        }
                    }
                }
            }
            j = j + 1;
        }
        i = i + 1;
    }
    r
}

} // verus!
