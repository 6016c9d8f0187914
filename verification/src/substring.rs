use std::collections::HashSet;
use vstd::prelude::*;
use vstd::set_lib::{lemma_int_range, lemma_len_subset, set_int_range};
use crate::text::chars_of;

verus! {

/// No character occurs twice among `s[from..to]`.
pub open spec fn no_repeat(s: Seq<char>, from: int, to: int) -> bool {
    forall|p: int, q: int| from <= p < q < to ==> s[p] != s[q]
}

/// `n` is the length of a longest stretch of `s` without a repeated
/// character: some stretch of that length has none, and no stretch without
/// one is longer.
pub open spec fn is_longest_no_repeat(s: Seq<char>, n: int) -> bool {
    &&& exists|a: int, b: int| 0 <= a <= b <= s.len() && b - a == n && #[trigger] no_repeat(s, a, b)
    &&& forall|a: int, b: int| 0 <= a <= b <= s.len() && #[trigger] no_repeat(s, a, b) ==> b - a <= n
}

/// Two characters with one code are one character.
pub proof fn lemma_code_is_injective(c: char, d: char)
    requires
        c as u32 == d as u32,
    ensures
        c == d,
        0 <= (c as int) && (c as int) < 0x11_0000,
{
}

/// There are 0x110000 code points, so a stretch without a repeated
/// character is no longer than that.
pub proof fn lemma_no_repeat_is_short(s: Seq<char>, a: int, b: int)
    requires
        0 <= a <= b <= s.len(),
        no_repeat(s, a, b),
    ensures
        b - a <= 0x11_0000,
{
    let codes = Seq::new((b - a) as nat, |k: int| s[a + k] as int);
    assert forall|i: int, j: int|
        0 <= i < codes.len() && 0 <= j < codes.len() && i != j implies codes[i] != codes[j] by {
        if i < j {
            assert(s[a + i] != s[a + j]);
        } else {
            assert(s[a + j] != s[a + i]);
        }
    }
    codes.unique_seq_to_set();
    lemma_int_range(0, 0x11_0000);
    assert forall|c: int| codes.to_set().contains(c) implies set_int_range(0, 0x11_0000).contains(
        c,
    ) by {
        assert(codes.contains(c));
        let k = choose|k: int| 0 <= k < codes.len() && codes[k] == c;
        lemma_code_is_injective(s[a + k], s[a + k]);
    }
    lemma_len_subset(codes.to_set(), set_int_range(0, 0x11_0000));
}

/// Home of [`Solution::length_of_longest_substring`].
pub struct Solution;

impl Solution {
    /// The length of a longest stretch of `s` in which no character occurs
    /// twice.
    pub fn length_of_longest_substring(s: String) -> (longest: i32)
        ensures
            is_longest_no_repeat(s@, longest as int),
    {
        broadcast use vstd::std_specs::hash::group_hash_axioms;

        let chars: Vec<char> = chars_of(s.as_str());
        let mut seen: HashSet<u32> = HashSet::new();
        let mut max_len: usize = 0;
        let mut i: usize = 0;
        let mut j: usize = 0;
        let ghost mut best: (int, int) = (0, 0);

        while j < chars.len()
            invariant
                chars@ == s@,
                i <= j <= chars@.len(),
                no_repeat(s@, i as int, j as int),
                forall|p: int| i <= p < j ==> seen@.contains(#[trigger] s@[p] as u32),
                forall|c: u32|
                    seen@.contains(c) ==> exists|p: int| i <= p < j && #[trigger] s@[p] as u32 == c,
                j - i <= max_len <= j,
                0 <= best.0 <= best.1 <= j,
                best.1 - best.0 == max_len,
                no_repeat(s@, best.0, best.1),
                forall|a: int, b: int|
                    0 <= a <= b <= j && #[trigger] no_repeat(s@, a, b) ==> b - a <= max_len,
                forall|a: int, b: int|
                    0 <= a < i && a <= b <= s@.len() && #[trigger] no_repeat(s@, a, b) ==> b - a
                        <= max_len,
            decreases 2 * chars@.len() - i - j,
        {
            let code: u32 = chars[j] as u32;
            if !seen.contains(&code) {
                seen.insert(code);
                proof {
                    assert forall|p: int, q: int| i <= p < q < j + 1 implies s@[p] != s@[q] by {
                        if q == j {
                            assert(seen@.contains(s@[p] as u32));
                        }
                    }
                    let longer: int = if max_len > j + 1 - i {
                        max_len as int
                    } else {
                        j + 1 - i
                    };
                    assert forall|a: int, b: int|
                        0 <= a <= b <= j + 1 && #[trigger] no_repeat(s@, a, b) implies b - a
                        <= longer by {}
                }
                j += 1;
                if j - i > max_len {
                    max_len = j - i;
                    proof {
                        best = (i as int, j as int);
                    }
                }
            } else {
                proof {
                    let p = choose|p: int| i <= p < j && s@[p] as u32 == code;
                    lemma_code_is_injective(s@[p], s@[j as int]);
                    assert forall|b: int|
                        i <= b <= s@.len() && #[trigger] no_repeat(s@, i as int, b) implies b - i
                        <= max_len by {
                        if b > j {
                            assert(s@[p] != s@[j as int]);
                        }
                    }
                }
                let first: u32 = chars[i] as u32;
                seen.remove(&first);
                proof {
                    assert forall|p: int| i + 1 <= p < j implies seen@.contains(
                        #[trigger] s@[p] as u32,
                    ) by {
                        if s@[p] as u32 == first {
                            lemma_code_is_injective(s@[p], s@[i as int]);
                        }
                    }
                    assert forall|c: u32| seen@.contains(c) implies exists|p: int|
                        i + 1 <= p < j && #[trigger] s@[p] as u32 == c by {
                        let p = choose|p: int| i <= p < j && s@[p] as u32 == c;
                        assert(p != i);
                    }
                }
                i += 1;
            }
        }
        proof {
            lemma_no_repeat_is_short(s@, best.0, best.1);
        }
        max_len as i32
    }
}

} // verus!
