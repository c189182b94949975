//! Sequential ids such as `TASK-001`: the next id is the prefix followed by
//! one more than the largest number that follows the prefix in an existing
//! id, written with at least three digits.
use crate::keyed::{has_key, Keyed};
use crate::numbers::{format_padded, lemma_parse_padded, padded_decimal, parse_u32, parse_u32_spec};
use crate::text::{chars_of, has_prefix, string_of, strip_prefix_chars};
use vstd::prelude::*;

verus! {

/// The number after `prefix` in `id`, read as `str::parse::<u32>` reads it.
pub open spec fn suffix_number(id: Seq<char>, prefix: Seq<char>) -> Option<u32> {
    if has_prefix(id, prefix) {
        parse_u32_spec(id.subrange(prefix.len() as int, id.len() as int))
    } else {
        None
    }
}

/// The largest suffix number among the ids of `s`.
pub open spec fn max_suffix<T: Keyed>(s: Seq<T>, prefix: Seq<char>) -> Option<u32>
    decreases s.len(),
{
    if s.len() == 0 {
        None
    } else {
        let m = max_suffix(s.drop_last(), prefix);
        match suffix_number(s.last().key(), prefix) {
            Some(n) => match m {
                Some(x) => Some(if x < n {
                    n
                } else {
                    x
                }),
                None => Some(n),
            },
            None => m,
        }
    }
}

/// One more than the largest number, saturating at `u32::MAX`; 1 when there
/// is none.
pub open spec fn next_number(m: Option<u32>) -> u32 {
    match m {
        None => 1,
        Some(x) => if x == u32::MAX {
            x
        } else {
            (x + 1) as u32
        },
    }
}

/// The next sequential id after the ids of `s`.
pub open spec fn sequential_id<T: Keyed>(s: Seq<T>, prefix: Seq<char>) -> Seq<char> {
    prefix + padded_decimal(next_number(max_suffix(s, prefix)) as nat, 3)
}

pub proof fn lemma_max_suffix_bound<T: Keyed>(s: Seq<T>, prefix: Seq<char>, i: int)
    requires
        0 <= i < s.len(),
        suffix_number(s[i].key(), prefix) is Some,
    ensures
        max_suffix(s, prefix) is Some,
        suffix_number(s[i].key(), prefix).unwrap() <= max_suffix(s, prefix).unwrap(),
    decreases s.len(),
{
    if i < s.len() - 1 {
        lemma_max_suffix_bound(s.drop_last(), prefix, i);
        assert(s.drop_last()[i] == s[i]);
    }
}

/// The suffix number of the id that `sequential_id` makes.
pub proof fn lemma_sequential_id_suffix<T: Keyed>(s: Seq<T>, prefix: Seq<char>)
    ensures
        suffix_number(sequential_id(s, prefix), prefix) == Some(
            next_number(max_suffix(s, prefix)),
        ),
{
    let n = next_number(max_suffix(s, prefix));
    let id = sequential_id(s, prefix);
    lemma_parse_padded(n, 3);
    assert(id.subrange(0, prefix.len() as int) =~= prefix);
    assert(id.subrange(prefix.len() as int, id.len() as int) =~= padded_decimal(n as nat, 3));
}

/// A new sequential id is not the id of any record, as long as no existing
/// id carries the largest `u32` after the prefix (where the count saturates).
pub proof fn law_sequential_id_is_fresh<T: Keyed>(s: Seq<T>, prefix: Seq<char>)
    requires
        forall|i: int|
            0 <= i < s.len() ==> #[trigger] suffix_number(s[i].key(), prefix) != Some(u32::MAX),
    ensures
        !has_key(s, sequential_id(s, prefix)),
{
    lemma_sequential_id_suffix(s, prefix);
    if has_key(s, sequential_id(s, prefix)) {
        let i = choose|i: int| 0 <= i < s.len() && #[trigger] s[i].key() == sequential_id(s, prefix);
        lemma_max_suffix_bound(s, prefix, i);
        assert(suffix_number(s[i].key(), prefix) != Some(u32::MAX));
    }
}

/// `next_sequential_id`: the prefix, then one more than the largest number
/// found after the prefix in an id of `items` (saturating), zero-padded to
/// three digits; `<prefix>001` when there is none.
pub fn next_sequential_id<T: Keyed>(items: &Vec<T>, prefix: &str) -> (r: String)
    ensures
        r@ == sequential_id(items@, prefix@),
{
    let pv = chars_of(prefix);
    let mut max: Option<u32> = None;
    let mut i: usize = 0;
    while i < items.len()
        invariant
            i <= items.len(),
            pv@ == prefix@,
            max == max_suffix(items@.take(i as int), prefix@),
        decreases items.len() - i,
    {
        let kv = chars_of(items[i].key_ref().as_str());
        let n = match strip_prefix_chars(&kv, &pv) {
            Some(rest) => parse_u32(&rest),
            None => None,
        };
        proof {
            let t = items@.take(i + 1);
            assert(t.drop_last() =~= items@.take(i as int));
            assert(t.last() == items@[i as int]);
            assert(n == suffix_number(items@[i as int].key(), prefix@));
        }
        match n {
            Some(x) => {
                max = match max {
                    Some(m) => Some(
                        if m < x {
                            x
                        } else {
                            m
                        },
                    ),
                    None => Some(x),
                };
            },
            None => {},
        }
        i = i + 1;
    }
    assert(items@.take(items.len() as int) =~= items@);
    let next: u32 = match max {
        None => 1,
        Some(m) => m.saturating_add(1),
    };
    let digits = format_padded(next, 3);
    let mut all = pv;
    let mut j: usize = 0;
    while j < digits.len()
        invariant
            j <= digits.len(),
            all@ == prefix@ + digits@.take(j as int),
        decreases digits.len() - j,
    {
        all.push(digits[j]);
        assert(all@ =~= prefix@ + digits@.take(j + 1));
        j = j + 1;
    }
    assert(digits@.take(digits.len() as int) =~= digits@);
    string_of(&all)
}

} // verus!
