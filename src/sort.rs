use vstd::prelude::*;

use crate::models::FileContext;
use crate::order::{lemma_lex_reflexive, lemma_lex_total, lemma_lex_transitive, lex_le, name_le};

verus! {

/// Ascending by name.
pub open spec fn sorted_by_name(r: Seq<FileContext>) -> bool {
    forall|i: int, j: int| 0 <= i < j < r.len() ==> lex_le(#[trigger] r[i].name@, #[trigger] r[j].name@)
}

/// `r` takes its `i`-th item from position `p[i]` of `s`, each position once,
/// and items of equal names keep their order from `s`.
pub open spec fn stable_rearrangement(p: Seq<int>, s: Seq<FileContext>, r: Seq<FileContext>) -> bool {
    &&& p.len() == r.len()
    &&& r.len() == s.len()
    &&& forall|i: int| 0 <= i < r.len() ==> 0 <= #[trigger] p[i] < s.len() && r[i] == s[p[i]]
    &&& forall|i: int, j: int| 0 <= i < j < r.len() ==> #[trigger] p[i] != #[trigger] p[j]
    &&& forall|i: int, j: int|
        0 <= i < j < r.len() && r[i].name@ == r[j].name@ ==> #[trigger] p[i] < #[trigger] p[j]
}

/// Position in `v` of the first item whose name is least.
fn first_least(v: &Vec<FileContext>) -> (m: usize)
    requires
        v@.len() > 0,
    ensures
        m < v@.len(),
        forall|t: int| 0 <= t < v@.len() ==> lex_le(v@[m as int].name@, #[trigger] v@[t].name@),
        forall|t: int| 0 <= t < m ==> #[trigger] v@[t].name@ != v@[m as int].name@,
{
    let mut m: usize = 0;
    let mut j: usize = 1;
    proof {
        lemma_lex_reflexive(v@[0].name@);
    }
    while j < v.len()
        invariant
            0 < j <= v@.len(),
            m < j,
            forall|t: int| 0 <= t < j ==> lex_le(v@[m as int].name@, #[trigger] v@[t].name@),
            forall|t: int| 0 <= t < m ==> #[trigger] v@[t].name@ != v@[m as int].name@,
        decreases v@.len() - j,
    {
        if !name_le(v[m].name.as_str(), v[j].name.as_str()) {
            proof {
                lemma_lex_total(v@[m as int].name@, v@[j as int].name@);
                lemma_lex_reflexive(v@[j as int].name@);
                assert forall|t: int| 0 <= t < j implies lex_le(
                    v@[j as int].name@,
                    #[trigger] v@[t].name@,
                ) by {
                    lemma_lex_transitive(v@[j as int].name@, v@[m as int].name@, v@[t].name@);
                }
                assert forall|t: int| 0 <= t < j implies #[trigger] v@[t].name@ != v@[j as int].name@ by {
                    if v@[t].name@ == v@[j as int].name@ {
                        assert(lex_le(v@[m as int].name@, v@[t].name@));
                    }
                }
            }
            m = j;
        }
        j = j + 1;
    }
    m
}

/// Sorts a listing by name, ascending in code point order; items of equal
/// names keep their order.
pub fn sort_by_name(v: Vec<FileContext>) -> (r: Vec<FileContext>)
    ensures
        r@.len() == v@.len(),
        sorted_by_name(r@),
        exists|p: Seq<int>| stable_rearrangement(p, v@, r@),
{
    let ghost s = v@;
    let ghost n = v@.len() as int;
    let mut rem = v;
    let mut out: Vec<FileContext> = Vec::new();
    let ghost mut idx: Seq<int> = Seq::new(n as nat, |k: int| k);
    let ghost mut pout: Seq<int> = Seq::empty();
    while rem.len() > 0
        invariant
            rem@.len() + out@.len() == n,
            n == s.len(),
            idx.len() == rem@.len(),
            pout.len() == out@.len(),
            forall|k: int| 0 <= k < rem@.len() ==> 0 <= #[trigger] idx[k] < n && rem@[k] == s[idx[k]],
            forall|a: int, b: int| 0 <= a < b < rem@.len() ==> #[trigger] idx[a] < #[trigger] idx[b],
            forall|k: int| 0 <= k < out@.len() ==> 0 <= #[trigger] pout[k] < n && out@[k] == s[pout[k]],
            forall|a: int, b: int| 0 <= a < b < out@.len() ==> #[trigger] pout[a] != #[trigger] pout[b],
            forall|a: int, b: int|
                0 <= a < out@.len() && 0 <= b < rem@.len() ==> #[trigger] pout[a] != #[trigger] idx[b],
            sorted_by_name(out@),
            forall|a: int, b: int|
                0 <= a < out@.len() && 0 <= b < rem@.len() ==> lex_le(
                    #[trigger] out@[a].name@,
                    #[trigger] rem@[b].name@,
                ),
            forall|a: int, b: int|
                0 <= a < out@.len() && 0 <= b < rem@.len() && out@[a].name@ == rem@[b].name@
                    ==> #[trigger] pout[a] < #[trigger] idx[b],
            forall|a: int, b: int|
                0 <= a < b < out@.len() && out@[a].name@ == out@[b].name@ ==> #[trigger] pout[a]
                    < #[trigger] pout[b],
        decreases rem@.len(),
    {
        let m = first_least(&rem);
        let ghost old_rem = rem@;
        let ghost old_out = out@;
        let ghost old_idx = idx;
        let ghost old_pout = pout;
        let x = rem.remove(m);
        out.push(x);
        proof {
            pout = old_pout.push(old_idx[m as int]);
            idx = old_idx.remove(m as int);
            assert(out@ == old_out.push(old_rem[m as int]));
            assert(rem@ == old_rem.remove(m as int));
            assert forall|b: int| 0 <= b < rem@.len() implies lex_le(
                old_rem[m as int].name@,
                #[trigger] rem@[b].name@,
            ) && (old_rem[m as int].name@ == rem@[b].name@ ==> old_idx[m as int] < idx[b]) by {
                if b < m {
                    assert(rem@[b] == old_rem[b]);
                    assert(lex_le(old_rem[m as int].name@, old_rem[b].name@));
                } else {
                    assert(rem@[b] == old_rem[b + 1]);
                    assert(lex_le(old_rem[m as int].name@, old_rem[b + 1].name@));
                    assert(old_idx[m as int] < old_idx[b + 1]);
                }
            }
            assert forall|a: int, b: int|
                0 <= a < out@.len() && 0 <= b < rem@.len() implies lex_le(
                #[trigger] out@[a].name@,
                #[trigger] rem@[b].name@,
            ) by {
                if a < old_out.len() {
                    if b < m {
                        assert(rem@[b] == old_rem[b]);
                    } else {
                        assert(rem@[b] == old_rem[b + 1]);
                    }
                }
            }
            assert forall|a: int, b: int|
                0 <= a < out@.len() && 0 <= b < rem@.len() && out@[a].name@ == rem@[b].name@
                    implies #[trigger] pout[a] < #[trigger] idx[b] by {
                if a < old_out.len() {
                    if b < m {
                        assert(rem@[b] == old_rem[b]);
                    } else {
                        assert(rem@[b] == old_rem[b + 1]);
                    }
                }
            }
            assert forall|a: int, b: int|
                0 <= a < out@.len() && 0 <= b < rem@.len() implies #[trigger] pout[a]
                != #[trigger] idx[b] by {
                if a < old_out.len() {
                    if b < m {
                        assert(idx[b] == old_idx[b]);
                    } else {
                        assert(idx[b] == old_idx[b + 1]);
                    }
                } else {
                    if b < m {
                        assert(old_idx[b] < old_idx[m as int]);
                    } else {
                        assert(old_idx[m as int] < old_idx[b + 1]);
                    }
                }
            }
            assert forall|a: int, b: int|
                0 <= a < b < out@.len() implies #[trigger] pout[a] != #[trigger] pout[b] by {
                if b == old_out.len() {
                    assert(old_pout[a] != old_idx[m as int]);
                }
            }
            assert forall|i: int, j: int| 0 <= i < j < out@.len() implies lex_le(
                #[trigger] out@[i].name@,
                #[trigger] out@[j].name@,
            ) by {
                if j == old_out.len() {
                    assert(lex_le(old_out[i].name@, old_rem[m as int].name@));
                }
            }
            assert forall|a: int, b: int|
                0 <= a < b < out@.len() && out@[a].name@ == out@[b].name@ implies #[trigger] pout[a]
                < #[trigger] pout[b] by {
                if b == old_out.len() {
                    assert(old_out[a].name@ == old_rem[m as int].name@);
                }
            }
        }
    }
    assert(stable_rearrangement(pout, s, out@));
    out
}

} // verus!
