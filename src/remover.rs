use vstd::multiset::Multiset;
use vstd::prelude::*;

verus! {

/// One entry found under the directory being removed.
#[derive(Debug)]
pub struct Entry {
    pub path: String,
    pub is_dir: bool,
}

/// `a` sorts strictly before `b`, comparing character by character.
pub open spec fn lex_lt(a: Seq<char>, b: Seq<char>) -> bool
    decreases a.len(),
{
    if b.len() == 0 {
        false
    } else if a.len() == 0 {
        true
    } else if a[0] < b[0] {
        true
    } else if a[0] == b[0] {
        lex_lt(a.drop_first(), b.drop_first())
    } else {
        false
    }
}

pub open spec fn lex_le(a: Seq<char>, b: Seq<char>) -> bool {
    lex_lt(a, b) || a == b
}

/// `d` names an ancestor of `p`: it is a proper prefix of it.
pub open spec fn is_ancestor(d: Seq<char>, p: Seq<char>) -> bool {
    d.len() < p.len() && p.subrange(0, d.len() as int) == d
}

pub open spec fn sorted_desc(s: Seq<Entry>) -> bool {
    forall|i: int, j: int| 0 <= i < j < s.len() ==> lex_le(#[trigger] s[j].path@, #[trigger] s[i].path@)
}

pub proof fn lemma_lex_lt_irreflexive(a: Seq<char>)
    ensures
        !lex_lt(a, a),
    decreases a.len(),
{
    if a.len() > 0 {
        lemma_lex_lt_irreflexive(a.drop_first());
    }
}

pub proof fn lemma_lex_total(a: Seq<char>, b: Seq<char>)
    ensures
        lex_lt(a, b) || a == b || lex_lt(b, a),
    decreases a.len(),
{
    if a.len() > 0 && b.len() > 0 && a[0] == b[0] {
        lemma_lex_total(a.drop_first(), b.drop_first());
        if a.drop_first() == b.drop_first() {
            assert(a =~= seq![a[0]] + a.drop_first());
            assert(b =~= seq![b[0]] + b.drop_first());
        }
    }
    if a.len() > 0 && b.len() > 0 && a[0] != b[0] {
        assert(a[0] < b[0] || b[0] < a[0]);
    }
    if a.len() == 0 && b.len() == 0 {
        assert(a =~= b);
    }
}

pub proof fn lemma_lex_trans(a: Seq<char>, b: Seq<char>, c: Seq<char>)
    requires
        lex_lt(a, b),
        lex_lt(b, c),
    ensures
        lex_lt(a, c),
    decreases a.len(),
{
    if a.len() > 0 && a[0] == b[0] && b[0] == c[0] {
        lemma_lex_trans(a.drop_first(), b.drop_first(), c.drop_first());
    }
}

pub proof fn lemma_lex_asym(a: Seq<char>, b: Seq<char>)
    requires
        lex_lt(a, b),
    ensures
        !lex_le(b, a),
{
    lemma_lex_lt_irreflexive(a);
    if lex_lt(b, a) {
        lemma_lex_trans(a, b, a);
    }
}

/// A path sorts strictly after each of its proper prefixes.
pub proof fn lemma_ancestor_sorts_first(d: Seq<char>, p: Seq<char>)
    requires
        is_ancestor(d, p),
    ensures
        lex_lt(d, p),
    decreases d.len(),
{
    if d.len() > 0 {
        assert(p[0] == d[0]);
        assert(p.drop_first().subrange(0, d.drop_first().len() as int) =~= d.drop_first());
        lemma_ancestor_sorts_first(d.drop_first(), p.drop_first());
    }
}

/// Whether `a` sorts strictly before `b`.
fn path_lt(a: &String, b: &String) -> (r: bool)
    ensures
        r == lex_lt(a@, b@),
{
    let a_len = a.as_str().unicode_len();
    let b_len = b.as_str().unicode_len();
    let mut i: usize = 0;
    proof {
        assert(a@.subrange(0, a_len as int) =~= a@);
        assert(b@.subrange(0, b_len as int) =~= b@);
    }
    while i < a_len && i < b_len
        invariant
            a_len == a@.len(),
            b_len == b@.len(),
            i <= a_len,
            i <= b_len,
            a@.subrange(0, i as int) == b@.subrange(0, i as int),
            lex_lt(a@, b@) == lex_lt(a@.subrange(i as int, a_len as int), b@.subrange(i as int, b_len as int)),
        decreases a_len - i,
    {
        let ca = a.as_str().get_char(i);
        let cb = b.as_str().get_char(i);
        if ca < cb {
            return true;
        }
        if ca != cb {
            return false;
        }
        proof {
            let sa = a@.subrange(i as int, a_len as int);
            let sb = b@.subrange(i as int, b_len as int);
            assert(sa.drop_first() =~= a@.subrange(i + 1, a_len as int));
            assert(sb.drop_first() =~= b@.subrange(i + 1, b_len as int));
            assert(a@.subrange(0, i + 1) =~= a@.subrange(0, i as int).push(ca));
            assert(b@.subrange(0, i + 1) =~= b@.subrange(0, i as int).push(cb));
        }
        i = i + 1;
    }
    i < b_len
}


/// The plain files among `s`, in their order.
pub open spec fn files_of(s: Seq<Entry>) -> Seq<Entry>
    decreases s.len(),
{
    if s.len() == 0 {
        Seq::empty()
    } else if !s.last().is_dir {
        files_of(s.drop_last()).push(s.last())
    } else {
        files_of(s.drop_last())
    }
}

/// The directories among `s`, in their order.
pub open spec fn dirs_of(s: Seq<Entry>) -> Seq<Entry>
    decreases s.len(),
{
    if s.len() == 0 {
        Seq::empty()
    } else if s.last().is_dir {
        dirs_of(s.drop_last()).push(s.last())
    } else {
        dirs_of(s.drop_last())
    }
}

/// `plan` removes the plain files of `entries` first, in their order, then its
/// directories from the greatest path down, then `root` itself.
pub open spec fn is_removal_plan(root: Seq<char>, entries: Seq<Entry>, plan: Seq<Entry>) -> bool {
    let nf = files_of(entries).len() as int;
    let nd = plan.len() - 1;
    &&& plan.len() == entries.len() + 1
    &&& plan.subrange(0, nf) == files_of(entries)
    &&& plan.subrange(nf, nd).to_multiset() == dirs_of(entries).to_multiset()
    &&& sorted_desc(plan.subrange(nf, nd))
    &&& forall|k: int| 0 <= k < nf ==> !(#[trigger] plan[k]).is_dir
    &&& forall|k: int| nf <= k < nd ==> (#[trigger] plan[k]).is_dir && entries.contains(plan[k])
    &&& plan[nd].path@ == root
    &&& plan[nd].is_dir
}

proof fn lemma_split_lens(s: Seq<Entry>)
    ensures
        files_of(s).len() + dirs_of(s).len() == s.len(),
    decreases s.len(),
{
    if s.len() > 0 {
        lemma_split_lens(s.drop_last());
    }
}

/// Sorts entries by path, greatest first.
fn sort_desc(v: Vec<Entry>) -> (r: Vec<Entry>)
    ensures
        r@.to_multiset() == v@.to_multiset(),
        sorted_desc(r@),
{
    broadcast use vstd::seq_lib::group_to_multiset_ensures;

    let mut rest = v;
    let mut out: Vec<Entry> = Vec::new();
    while rest.len() > 0
        invariant
            out@.to_multiset().add(rest@.to_multiset()) == v@.to_multiset(),
            sorted_desc(out@),
        decreases rest.len(),
    {
        let ghost before = rest@;
        let x = rest.pop().unwrap();
        proof {
            assert(before.remove(before.len() - 1) =~= rest@);
            assert(before[before.len() - 1] == x);
            assert(before.contains(x));
            assert(before =~= rest@.push(x));
            rest@.to_multiset_ensures();
            assert(before.to_multiset() =~= rest@.to_multiset().insert(x));
        }
        let mut p: usize = 0;
        while p < out.len() && path_lt(&x.path, &out[p].path)
            invariant
                p <= out.len(),
                forall|k: int| 0 <= k < p ==> lex_lt(x.path@, #[trigger] out@[k].path@),
            decreases out.len() - p,
        {
            p = p + 1;
        }
        let ghost old_out = out@;
        proof {
            if p < out.len() {
                lemma_lex_total(x.path@, out@[p as int].path@);
            }
        }
        out.insert(p, x);
        proof {
            assert(out@.remove(p as int) =~= old_out);
            assert(out@[p as int] == x);
            assert(out@.contains(x));
            out@.to_multiset_ensures();
            assert(old_out.to_multiset() =~= out@.to_multiset().remove(x));
            assert(out@.to_multiset() =~= old_out.to_multiset().insert(x));
            assert forall|i: int, j: int| 0 <= i < j < out@.len() implies lex_le(
                #[trigger] out@[j].path@,
                #[trigger] out@[i].path@,
            ) by {
                if j == p {
                    assert(lex_lt(x.path@, old_out[i].path@));
                } else if i == p {
                    assert(lex_le(old_out[j - 1].path@, old_out[p as int].path@));
                    if lex_lt(old_out[j - 1].path@, old_out[p as int].path@) && lex_lt(
                        old_out[p as int].path@,
                        x.path@,
                    ) {
                        lemma_lex_trans(old_out[j - 1].path@, old_out[p as int].path@, x.path@);
                    }
                } else if i < p && j > p {
                    assert(lex_le(old_out[j - 1].path@, old_out[i].path@));
                } else if i > p {
                    assert(lex_le(old_out[j - 1].path@, old_out[i - 1].path@));
                } else {
                    assert(lex_le(old_out[j].path@, old_out[i].path@));
                }
            }
        }
    }
    proof {
        assert(rest@.to_multiset() =~= Multiset::empty());
        assert(out@.to_multiset() =~= out@.to_multiset().add(rest@.to_multiset()));
    }
    out
}

/// Orders the removal of a directory tree whose contents were enumerated in full:
/// every plain file first, then the directories with the greatest path first, so
/// that each directory is removed after everything beneath it, then the root.
pub fn removal_plan(root: String, entries: Vec<Entry>) -> (plan: Vec<Entry>)
    requires
        entries@.len() < usize::MAX,
    ensures
        is_removal_plan(root@, entries@, plan@),
{
    let ghost orig = entries@;
    let mut rest = entries;
    let mut files: Vec<Entry> = Vec::new();
    let mut dirs: Vec<Entry> = Vec::new();
    let ghost mut k: int = 0;
    while rest.len() > 0
        invariant
            0 <= k <= orig.len(),
            rest@ == orig.subrange(k, orig.len() as int),
            files@ == files_of(orig.subrange(0, k)),
            dirs@ == dirs_of(orig.subrange(0, k)),
            forall|i: int| 0 <= i < files@.len() ==> !(#[trigger] files@[i]).is_dir,
            forall|i: int| 0 <= i < dirs@.len() ==> (#[trigger] dirs@[i]).is_dir && orig.contains(dirs@[i]),
        decreases rest.len(),
    {
        let e = rest.remove(0);
        proof {
            assert(orig.subrange(0, k + 1).drop_last() =~= orig.subrange(0, k));
            assert(orig.subrange(0, k + 1).last() == orig[k]);
            assert(rest@ =~= orig.subrange(k + 1, orig.len() as int));
            assert(orig[k] == e);
        }
        if e.is_dir {
            dirs.push(e);
        } else {
            files.push(e);
        }
        proof {
            k = k + 1;
        }
    }
    proof {
        assert(orig.subrange(0, k) =~= orig);
        lemma_split_lens(orig);
    }
    let ghost dirs0 = dirs@;
    let mut sorted = sort_desc(dirs);
    let mut plan = files;
    let ghost nf = plan@.len() as int;
    let ghost sorted0 = sorted@;
    plan.append(&mut sorted);
    plan.push(Entry { path: root, is_dir: true });
    proof {
        broadcast use vstd::seq_lib::group_to_multiset_ensures;

        let nd = plan@.len() - 1;
        assert(plan@.subrange(0, nf) =~= files_of(orig));
        let mid = plan@.subrange(nf, nd);
        assert(mid =~= sorted0);
        assert(dirs0 == dirs_of(orig));
        assert(mid.to_multiset() == dirs_of(orig).to_multiset());
        assert(sorted_desc(mid));
        assert forall|k: int| 0 <= k < nf implies !(#[trigger] plan@[k]).is_dir by {
            assert(plan@[k] == files_of(orig)[k]);
        }
        sorted0.to_multiset_ensures();
        dirs0.to_multiset_ensures();
        assert(plan@.len() == orig.len() + 1);
        assert(plan@[nd].path@ == root@);
        assert(nf == files_of(orig).len());
        assert forall|k: int| nf <= k < nd implies (#[trigger] plan@[k]).is_dir && orig.contains(
            plan@[k],
        ) by {
            assert(mid[k - nf] == plan@[k]);
            assert(mid.contains(plan@[k]));
            assert(mid.to_multiset().count(plan@[k]) > 0);
            assert(dirs0.to_multiset().count(plan@[k]) > 0);
            assert(dirs0.contains(plan@[k]));
            let m = choose|m: int| 0 <= m < dirs0.len() && dirs0[m] == plan@[k];
            assert(dirs0[m].is_dir && orig.contains(dirs0[m]));
        }
    }
    plan
}

/// In a removal plan of a tree whose entries all lie under `root`, every entry is
/// removed, and no directory is removed before anything that lies beneath it.
pub proof fn lemma_children_removed_first(root: Seq<char>, entries: Seq<Entry>, plan: Seq<Entry>)
    requires
        is_removal_plan(root, entries, plan),
        forall|k: int| 0 <= k < entries.len() ==> is_ancestor(root, #[trigger] entries[k].path@),
    ensures
        forall|i: int, j: int|
            0 <= i < plan.len() && 0 <= j < plan.len() && (#[trigger] plan[j]).is_dir
                && is_ancestor(plan[j].path@, #[trigger] plan[i].path@) ==> i < j,
        forall|e: Entry| entries.contains(e) ==> plan.contains(e),
{
    broadcast use vstd::seq_lib::group_to_multiset_ensures;

    let nf = files_of(entries).len() as int;
    let nd = plan.len() - 1;
    assert forall|i: int, j: int|
        0 <= i < plan.len() && 0 <= j < plan.len() && (#[trigger] plan[j]).is_dir && is_ancestor(
            plan[j].path@,
            #[trigger] plan[i].path@,
        ) implies i < j by {
        lemma_ancestor_sorts_first(plan[j].path@, plan[i].path@);
        if j < nd && i == nd {
            let m = choose|m: int| 0 <= m < entries.len() && entries[m] == plan[j];
            assert(is_ancestor(root, entries[m].path@));
        }
        if nf <= j && j < i && i < nd {
            let mid = plan.subrange(nf, nd);
            assert(mid[j - nf] == plan[j] && mid[i - nf] == plan[i]);
            assert(lex_le(plan[i].path@, plan[j].path@));
            lemma_lex_asym(plan[j].path@, plan[i].path@);
        }
    }
    assert forall|e: Entry| entries.contains(e) implies plan.contains(e) by {
        lemma_entry_planned(entries, plan, e);
    }
}

proof fn lemma_in_split(s: Seq<Entry>, e: Entry)
    requires
        s.contains(e),
    ensures
        e.is_dir ==> dirs_of(s).contains(e),
        !e.is_dir ==> files_of(s).contains(e),
    decreases s.len(),
{
    if s.last() != e {
        let m = choose|m: int| 0 <= m < s.len() && s[m] == e;
        assert(s.drop_last()[m] == e);
        lemma_in_split(s.drop_last(), e);
        let f = files_of(s.drop_last());
        let d = dirs_of(s.drop_last());
        if e.is_dir {
            let n = choose|n: int| 0 <= n < d.len() && d[n] == e;
            assert(dirs_of(s)[n] == e);
        } else {
            let n = choose|n: int| 0 <= n < f.len() && f[n] == e;
            assert(files_of(s)[n] == e);
        }
    } else {
        if e.is_dir {
            assert(dirs_of(s).last() == e);
        } else {
            assert(files_of(s).last() == e);
        }
    }
}

proof fn lemma_entry_planned(entries: Seq<Entry>, plan: Seq<Entry>, e: Entry)
    requires
        is_removal_plan(plan[plan.len() - 1].path@, entries, plan),
        entries.contains(e),
    ensures
        plan.contains(e),
{
    broadcast use vstd::seq_lib::group_to_multiset_ensures;

    let nf = files_of(entries).len() as int;
    let nd = plan.len() - 1;
    lemma_in_split(entries, e);
    if e.is_dir {
        let mid = plan.subrange(nf, nd);
        assert(dirs_of(entries).to_multiset().count(e) > 0);
        assert(mid.contains(e));
        let m = choose|m: int| 0 <= m < mid.len() && mid[m] == e;
        assert(plan[nf + m] == e);
    } else {
        let f = files_of(entries);
        let m = choose|m: int| 0 <= m < f.len() && f[m] == e;
        assert(plan.subrange(0, nf)[m] == e);
        assert(plan[m] == e);
    }
}

} // verus!
