use vstd::prelude::*;

verus! {

broadcast use vstd::string::group_string_axioms;

/// Calls `String::push`, trusted to leave `s` holding its old characters followed by `c`.
#[verifier::external_body]
pub(crate) fn push_char(s: &mut String, c: char)
    ensures
        final(s)@ == old(s)@.push(c),
{
    s.push(c);
}

/// Calls `<str as PartialEq>::eq`, trusted to say whether the two slices hold the same
/// characters.
#[verifier::external_body]
pub(crate) fn str_equal(a: &str, b: &str) -> (res: bool)
    ensures
        res == (a@ == b@),
{
    a == b
}

/// The characters of `s`, in order.
pub fn chars_of(s: &str) -> (res: Vec<char>)
    ensures
        res@ == s@,
{
    let mut res: Vec<char> = Vec::new();
    for c in it: s.chars()
        invariant
            res@ == it.seq().take(it.index() as int),
            it.seq() == s@,
    {
        res.push(c);
    }
    res
}

/// A new string holding `cs[from..to]`.
pub fn string_from_chars(cs: &Vec<char>, from: usize, to: usize) -> (res: String)
    requires
        from <= to <= cs.len(),
    ensures
        res@ == cs@.subrange(from as int, to as int),
{
    let mut res = String::new();
    let mut i = from;
    while i < to
        invariant
            from <= i <= to <= cs.len(),
            res@ == cs@.subrange(from as int, i as int),
        decreases to - i,
    {
        push_char(&mut res, cs[i]);
        i = i + 1;
        assert(res@ =~= cs@.subrange(from as int, i as int));
    }
    res
}

} // verus!
