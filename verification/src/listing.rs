//! Lists of virtual machines in identifier order.

use vstd::prelude::*;

use crate::domain::Vm;

verus! {

broadcast use vstd::seq_lib::group_to_multiset_ensures;

/// Identifiers never decrease along `s`.
pub open spec fn sorted_by_id(s: Seq<Vm>) -> bool {
    forall|i: int, j: int| 0 <= i <= j < s.len() ==> (#[trigger] s[i]).id <= (#[trigger] s[j]).id
}

/// No two machines in `s` share an identifier.
pub open spec fn distinct_ids(s: Seq<Vm>) -> bool {
    forall|i: int, j: int| 0 <= i < s.len() && 0 <= j < s.len() && i != j ==> (#[trigger] s[i]).id
        != (#[trigger] s[j]).id
}

/// Identifiers increase strictly along `s`.
pub open spec fn strictly_sorted_by_id(s: Seq<Vm>) -> bool {
    forall|i: int, j: int| 0 <= i < j < s.len() ==> (#[trigger] s[i]).id < (#[trigger] s[j]).id
}

/// The same virtual machines, in identifier order.
pub fn sort_vms_by_id(vms: Vec<Vm>) -> (r: Vec<Vm>)
    ensures
        sorted_by_id(r@),
        r@.to_multiset() == vms@.to_multiset(),
        distinct_ids(vms@) ==> strictly_sorted_by_id(r@),
{
    let mut out: Vec<Vm> = Vec::new();
    let mut rest = vms;
    let ghost original = rest@;
    let mut taken: usize = 0;
    let n = rest.len();
    proof {
        assert(original.subrange(0, 0) =~= Seq::<Vm>::empty());
    }
    while taken < n
        invariant
            n == original.len(),
            taken <= n,
            rest@ == original.subrange(taken as int, n as int),
            sorted_by_id(out@),
            out@.to_multiset() == original.subrange(0, taken as int).to_multiset(),
            out@.len() == taken,
            forall|i: int| 0 <= i < out@.len() ==> exists|j: int| 0 <= j < taken && (#[trigger] out@[i]).id == original[j].id,
            distinct_ids(original) ==> distinct_ids(out@),
        decreases n - taken,
    {
        let vm = rest.remove(0);
        proof {
            assert(vm == original[taken as int]);
            assert(rest@ =~= original.subrange(taken + 1, n as int));
        }
        let mut pos: usize = out.len();
        while pos > 0 && out[pos - 1].id > vm.id
            invariant
                pos <= out.len(),
                sorted_by_id(out@),
                forall|j: int| pos <= j < out.len() ==> (#[trigger] out@[j]).id > vm.id,
            decreases pos,
        {
            pos = pos - 1;
        }
        let ghost before = out@;
        out.insert(pos, vm);
        proof {
            assert(out@ == before.insert(pos as int, vm));
            vstd::seq_lib::to_multiset_insert(before, pos as int, vm);
            assert(original.subrange(0, taken + 1) =~= original.subrange(0, taken as int).push(
                vm,
            ));
            assert forall|i: int| 0 <= i < out@.len() implies exists|j: int| 0 <= j < taken + 1 && (#[trigger] out@[i]).id == original[j].id by {
                if i < pos {
                    assert(out@[i] == before[i]);
                } else if i == pos {
                    assert(out@[i].id == original[taken as int].id);
                } else {
                    assert(out@[i] == before[i - 1]);
                }
            }
            if distinct_ids(original) {
                assert forall|i: int, j: int| 0 <= i < out@.len() && 0 <= j < out@.len() && i != j implies (#[trigger] out@[i]).id
                    != (#[trigger] out@[j]).id by {
                    if i != pos && j != pos {
                        let bi = if i < pos { i } else { i - 1 };
                        let bj = if j < pos { j } else { j - 1 };
                        assert(out@[i] == before[bi]);
                        assert(out@[j] == before[bj]);
                    } else {
                        let other = if i == pos { j } else { i };
                        let bo = if other < pos { other } else { other - 1 };
                        assert(out@[other] == before[bo]);
                        let w = choose|w: int| 0 <= w < taken && before[bo].id == original[w].id;
                        assert(original[w].id != original[taken as int].id);
                    }
                }
            }
            assert forall|i: int, j: int| 0 <= i <= j < out@.len() implies (#[trigger] out@[i]).id
                <= (#[trigger] out@[j]).id by {
                if i < pos && j > pos {
                    assert(before[i].id <= before[j - 1].id);
                } else if i < pos && j == pos {
                    if pos > 0 {
                        assert(before[i].id <= before[pos - 1].id);
                    }
                } else if i == pos && j > pos {
                    assert(before[j - 1].id > vm.id);
                } else if i > pos {
                    assert(before[i - 1].id <= before[j - 1].id);
                }
            }
        }
        taken = taken + 1;
    }
    proof {
        assert(original.subrange(0, n as int) =~= original);
        if distinct_ids(original) {
            assert forall|i: int, j: int| 0 <= i < j < out@.len() implies (#[trigger] out@[i]).id
                < (#[trigger] out@[j]).id by {
                assert(out@[i].id <= out@[j].id);
                assert(out@[i].id != out@[j].id);
            }
        }
    }
    out
}

} // verus!
