use vstd::prelude::*;

verus! {

/// The characters of `s`, one by one.
pub fn chars_of(s: &str) -> (v: Vec<char>)
    ensures
        v@ == s@,
{
    let mut v: Vec<char> = Vec::new();
    for c in it: s.chars()
        invariant
            v@ == it.seq().take(it.index() as int),
            it.seq() == s@,
    {
        v.push(c);
    }
    v
}

/// Appends `c` to `s`: a call of `String::push`.
#[verifier::external_body]
pub(crate) fn push_char(s: &mut String, c: char)
    ensures
        final(s)@ == old(s)@.push(c),
{
    s.push(c)
}

/// Appends the characters `v` to `s`.
pub fn push_chars(s: &mut String, v: &[char])
    ensures
        final(s)@ == old(s)@ + v@,
{
    for i in 0..v.len()
        invariant
            s@ == old(s)@ + v@.take(i as int),
    {
        push_char(s, v[i]);
        assert(v@.take(i + 1) =~= v@.take(i as int).push(v@[i as int]));
    }
    assert(v@.take(v@.len() as int) =~= v@);
}

/// `a`, a `|`, then `b`.
pub open spec fn pipe_joined(a: Seq<char>, b: Seq<char>) -> Seq<char> {
    a + seq!['|'] + b
}

/// `[a, b].join("|")`.
pub fn pipe_join(a: &str, b: &str) -> (res: String)
    ensures
        res@ == pipe_joined(a@, b@),
{
    let mut res = a.to_owned();
    push_char(&mut res, '|');
    res.append(b);
    res
}

/// `c` repeated `n` times.
pub fn repeat_char(c: char, n: usize) -> (res: String)
    ensures
        res@ == Seq::new(n as nat, |_i: int| c),
{
    let mut res = String::new();
    for i in 0..n
        invariant
            res@ == Seq::new(i as nat, |_i: int| c),
    {
        push_char(&mut res, c);
        assert(res@ =~= Seq::new((i + 1) as nat, |_i: int| c));
    }
    res
}

/// Whether the characters `a` and `b` are the same.
pub fn same_chars(a: &[char], b: &[char]) -> (res: bool)
    ensures
        res == (a@ == b@),
{
    if a.len() != b.len() {
        return false;
    }
    let res = crate::patterns::chars_at(a, 0, b);
    assert(a@.subrange(0, b@.len() as int) =~= a@);
    res
}

} // verus!
