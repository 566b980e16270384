//! The aggregator: a pure scan over a sequence of tagged values that sums
//! the integer elements and totals the lengths of the text elements.
//!
//! Two choices that the data model leaves open are fixed here:
//! - a string's length is its count of Unicode scalar values;
//! - both accumulators wrap around on overflow, as 64-bit two's-complement
//!   addition does.

use vstd::prelude::*;

verus! {

/// One element of a request: either a signed 64-bit integer or a text string.
pub enum DataValue {
    Integer(i64),
    Text(String),
}

/// An ordered sequence of values to aggregate.
pub struct DataRequest {
    pub data: Vec<DataValue>,
}

impl View for DataRequest {
    type V = Seq<DataValue>;

    open spec fn view(&self) -> Seq<DataValue> {
        self.data@
    }
}

/// The two totals computed from a request.
#[derive(Debug, PartialEq, Eq, Structural)]
pub struct DataResponse {
    pub string_len: u64,
    pub int_sum: i64,
}

/// The integer carried by a value: its own value for an integer, zero for text.
pub open spec fn int_value(v: DataValue) -> int {
    match v {
        DataValue::Integer(n) => n as int,
        DataValue::Text(_) => 0,
    }
}

/// The length carried by a value: the count of Unicode scalar values for
/// text, zero for an integer.
pub open spec fn len_value(v: DataValue) -> nat {
    match v {
        DataValue::Integer(_) => 0,
        DataValue::Text(t) => t@.len(),
    }
}

/// The exact (unbounded) sum of the integer elements of a sequence.
pub open spec fn int_sum_of(s: Seq<DataValue>) -> int
    decreases s.len(),
{
    if s.len() == 0 {
        0
    } else {
        int_sum_of(s.drop_last()) + int_value(s.last())
    }
}

/// The exact (unbounded) total length of the text elements of a sequence.
pub open spec fn string_len_of(s: Seq<DataValue>) -> nat
    decreases s.len(),
{
    if s.len() == 0 {
        0nat
    } else {
        string_len_of(s.drop_last()) + len_value(s.last())
    }
}

/// The value an `i64` accumulator holds after wrapping addition summed to
/// the exact value `x`: the representative of `x` modulo 2^64 in i64 range.
pub open spec fn wrap_i64(x: int) -> i64 {
    vstd::wrapping::i64_specs::signed_crop(x)
}

/// The value a `u64` accumulator holds after wrapping addition summed to
/// the exact value `x`: `x` modulo 2^64.
pub open spec fn wrap_u64(x: nat) -> u64 {
    (x % 0x1_0000_0000_0000_0000) as u64
}

/// Wrapping changes nothing when the exact sum fits in `i64`.
pub proof fn lemma_wrap_i64_fits(x: int)
    requires
        i64::MIN <= x <= i64::MAX,
    ensures
        wrap_i64(x) == x,
{
    let w: int = 0x1_0000_0000_0000_0000;
    if x >= 0 {
        vstd::arithmetic::div_mod::lemma_small_mod(x as nat, w as nat);
    } else {
        vstd::arithmetic::div_mod::lemma_fundamental_div_mod_converse_mod(x, w, -1, x + w);
    }
}

/// Wrapping changes nothing when the exact total fits in `u64`.
pub proof fn lemma_wrap_u64_fits(x: nat)
    requires
        x <= u64::MAX,
    ensures
        wrap_u64(x) == x,
{
    vstd::arithmetic::div_mod::lemma_small_mod(x, 0x1_0000_0000_0000_0000nat);
}

/// One wrapping `i64` addition advances the wrapped exact sum by one term.
proof fn lemma_wrap_i64_add(s: int, n: i64)
    ensures
        wrap_i64(s + n) == vstd::wrapping::i64_specs::wrapping_add(wrap_i64(s), n),
{
    let w: int = 0x1_0000_0000_0000_0000;
    let a: int = wrap_i64(s) as int;
    let r: int = vstd::wrapping::i64_specs::wrapping_add(wrap_i64(s), n) as int;
    vstd::arithmetic::div_mod::lemma_mod_bound(s, w);
    vstd::arithmetic::div_mod::lemma_fundamental_div_mod(s, w);
    let q: int = s / w;
    let k1: int = if s % w > i64::MAX as int { 1 } else { 0 };
    let k2: int = if a + n > i64::MAX as int { 1 } else if a + n < i64::MIN as int { -1 } else { 0 };
    assert(a == s % w - k1 * w);
    assert(r == a + n - k2 * w);
    assert(s + n == (q + k1 + k2) * w + r);
    if r >= 0 {
        vstd::arithmetic::div_mod::lemma_fundamental_div_mod_converse_mod(s + n, w, q + k1 + k2, r);
    } else {
        assert(s + n == (q + k1 + k2 - 1) * w + (r + w));
        vstd::arithmetic::div_mod::lemma_fundamental_div_mod_converse_mod(
            s + n, w, q + k1 + k2 - 1, r + w);
    }
}

/// One wrapping `u64` addition advances the wrapped exact total by one term.
proof fn lemma_wrap_u64_add(s: nat, n: u64)
    ensures
        wrap_u64((s + n) as nat) == vstd::wrapping::u64_specs::wrapping_add(wrap_u64(s), n),
{
    let w: int = 0x1_0000_0000_0000_0000;
    let a: int = wrap_u64(s) as int;
    let r: int = vstd::wrapping::u64_specs::wrapping_add(wrap_u64(s), n) as int;
    vstd::arithmetic::div_mod::lemma_mod_bound(s as int, w);
    vstd::arithmetic::div_mod::lemma_fundamental_div_mod(s as int, w);
    let q: int = s as int / w;
    let k2: int = if a + n > u64::MAX as int { 1 } else { 0 };
    assert(a == s as int % w);
    assert(r == a + n - k2 * w);
    assert(s + n == (q + k2) * w + r);
    vstd::arithmetic::div_mod::lemma_fundamental_div_mod_converse_mod(s as int + n, w, q + k2, r);
}

impl DataRequest {
    /// Scan the sequence once, summing integer elements and totalling the
    /// lengths of text elements, both with wraparound on overflow.
    pub fn aggregate(&self) -> (r: DataResponse)
        ensures
            r.int_sum == wrap_i64(int_sum_of(self@)),
            r.string_len == wrap_u64(string_len_of(self@)),
    {
        let mut int_sum: i64 = 0;
        let mut string_len: u64 = 0;
        let n = self.data.len();
        assert(self@.take(0) =~= Seq::<DataValue>::empty());
        for i in 0..n
            invariant
                n == self.data.len(),
                int_sum == wrap_i64(int_sum_of(self@.take(i as int))),
                string_len == wrap_u64(string_len_of(self@.take(i as int))),
        {
            let ghost prefix = self@.take(i as int);
            assert(self@.take(i + 1).drop_last() =~= prefix);
            match &self.data[i] {
                DataValue::Integer(num) => {
                    proof {
                        lemma_wrap_i64_add(int_sum_of(prefix), *num);
                    }
                    int_sum = int_sum.wrapping_add(*num);
                }
                DataValue::Text(text) => {
                    let len = text.as_str().unicode_len();
                    proof {
                        lemma_wrap_u64_add(string_len_of(prefix), len as u64);
                    }
                    string_len = string_len.wrapping_add(len as u64);
                }
            }
        }
        assert(self@.take(n as int) =~= self@);
        DataResponse { string_len, int_sum }
    }
}

} // verus!
