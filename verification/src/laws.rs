//! Laws of the aggregator, proved over its mathematical model: what the
//! totals are for all-integer and all-text input and for empty input, and
//! that the totals do not depend on the order of the values.

use vstd::prelude::*;

use crate::aggregator::DataValue;
use crate::aggregator::int_sum_of;
use crate::aggregator::int_value;
use crate::aggregator::len_value;
use crate::aggregator::lemma_wrap_i64_fits;
use crate::aggregator::string_len_of;
use crate::aggregator::wrap_i64;
use crate::aggregator::wrap_u64;

verus! {

/// Removing one element takes exactly its contribution out of both totals.
proof fn lemma_sums_remove(s: Seq<DataValue>, i: int)
    requires
        0 <= i < s.len(),
    ensures
        int_sum_of(s.remove(i)) == int_sum_of(s) - int_value(s[i]),
        string_len_of(s.remove(i)) == string_len_of(s) - len_value(s[i]),
    decreases s.len(),
{
    if i == s.len() - 1 {
        assert(s.remove(i) =~= s.drop_last());
    } else {
        let t = s.remove(i);
        assert(t.drop_last() =~= s.drop_last().remove(i));
        assert(t.last() == s.last());
        lemma_sums_remove(s.drop_last(), i);
    }
}

/// A sequence of integers alone contributes nothing to the text total, and
/// when its exact sum fits in `i64` the wrapped sum is that exact sum.
pub proof fn lemma_all_integers(s: Seq<DataValue>)
    requires
        forall|i: int| 0 <= i < s.len() ==> s[i] is Integer,
    ensures
        string_len_of(s) == 0,
        i64::MIN <= int_sum_of(s) <= i64::MAX ==> wrap_i64(int_sum_of(s)) == int_sum_of(s),
    decreases s.len(),
{
    if s.len() > 0 {
        assert(forall|i: int| 0 <= i < s.len() - 1 ==> s.drop_last()[i] == s[i]);
        lemma_all_integers(s.drop_last());
    }
    if i64::MIN <= int_sum_of(s) <= i64::MAX {
        lemma_wrap_i64_fits(int_sum_of(s));
    }
}

/// A sequence of strings alone contributes nothing to the integer sum, and
/// the text total is the sum of the strings' lengths; when that total fits
/// in `u64` the wrapped total is exactly it.
pub proof fn lemma_all_text(s: Seq<DataValue>)
    requires
        forall|i: int| 0 <= i < s.len() ==> s[i] is Text,
    ensures
        int_sum_of(s) == 0,
        string_len_of(s) <= u64::MAX ==>
            wrap_u64(string_len_of(s)) == string_len_of(s),
    decreases s.len(),
{
    if s.len() > 0 {
        assert(forall|i: int| 0 <= i < s.len() - 1 ==> s.drop_last()[i] == s[i]);
        lemma_all_text(s.drop_last());
    }
    if string_len_of(s) <= u64::MAX {
        crate::aggregator::lemma_wrap_u64_fits(string_len_of(s));
    }
}

/// An empty sequence yields zero for both totals, wrapped or not.
pub proof fn lemma_empty(s: Seq<DataValue>)
    requires
        s.len() == 0,
    ensures
        int_sum_of(s) == 0,
        string_len_of(s) == 0,
        wrap_i64(int_sum_of(s)) == 0,
        wrap_u64(string_len_of(s)) == 0,
{
    lemma_wrap_i64_fits(0);
    crate::aggregator::lemma_wrap_u64_fits(0);
}

/// Order independence: two sequences that hold the same multiset of values
/// have the same totals, so any permutation of an input yields the same
/// response.
pub proof fn lemma_order_independence(s: Seq<DataValue>, t: Seq<DataValue>)
    requires
        s.to_multiset() == t.to_multiset(),
    ensures
        int_sum_of(s) == int_sum_of(t),
        string_len_of(s) == string_len_of(t),
    decreases s.len(),
{
    broadcast use vstd::seq_lib::group_to_multiset_ensures;

    if s.len() == 0 {
        assert(s.to_multiset().len() == s.len());
        assert(t.to_multiset().len() == t.len());
    } else {
        let a = s.last();
        assert(s.contains(a));
        assert(t.to_multiset().count(a) > 0);
        assert(t.contains(a));
        let i = choose|i: int| 0 <= i < t.len() && t[i] == a;
        let j: int = s.len() - 1;
        assert(s.remove(j) =~= s.drop_last());
        assert(s.remove(j).to_multiset() == t.remove(i).to_multiset());
        lemma_sums_remove(s, j);
        lemma_sums_remove(t, i);
        lemma_order_independence(s.drop_last(), t.remove(i));
    }
}

} // verus!
