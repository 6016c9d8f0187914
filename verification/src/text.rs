use vstd::prelude::*;

verus! {

/// The characters of `s`, one by one.
pub fn chars_of(s: &str) -> (chars: Vec<char>)
    ensures
        chars@ == s@,
{
    broadcast use vstd::string::group_string_axioms;

    let mut chars: Vec<char> = Vec::new();
    for c in it: s.chars()
        invariant
            it.seq() == s@,
            chars@ == s@.subrange(0, it.index()),
    {
        assert(s@.subrange(0, it.index() + 1) =~= s@.subrange(0, it.index()).push(c));
        chars.push(c);
    }
    assert(s@.subrange(0, s@.len() as int) =~= s@);
    chars
}

} // verus!
