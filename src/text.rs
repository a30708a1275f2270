//! Character-level helpers used to pull routing tokens out of request text.
use vstd::prelude::*;
use vstd::std_specs::iter::IteratorSpec;

verus! {

/// What `str::trim` leaves of a text.
pub uninterp spec fn trim_of(s: Seq<char>) -> Seq<char>;

/// The part of `s` before the first `c` (all of `s` when there is none).
pub open spec fn before_first(s: Seq<char>, c: char) -> Seq<char>
    decreases s.len(),
{
    if s.len() == 0 || s[0] == c {
        Seq::empty()
    } else {
        seq![s[0]] + before_first(s.drop_first(), c)
    }
}

/// The part of `s` after the last `c` (all of `s` when there is none).
pub open spec fn after_last(s: Seq<char>, c: char) -> Seq<char>
    decreases s.len(),
{
    if s.len() == 0 || s.last() == c {
        Seq::empty()
    } else {
        after_last(s.drop_last(), c).push(s.last())
    }
}

/// `s` without any leading `c`.
pub open spec fn strip_leading(s: Seq<char>, c: char) -> Seq<char>
    decreases s.len(),
{
    if s.len() > 0 && s[0] == c {
        strip_leading(s.drop_first(), c)
    } else {
        s
    }
}

/// `s` without any trailing `c`.
pub open spec fn strip_trailing(s: Seq<char>, c: char) -> Seq<char>
    decreases s.len(),
{
    if s.len() > 0 && s.last() == c {
        strip_trailing(s.drop_last(), c)
    } else {
        s
    }
}

/// The characters of the text, in order.
pub fn chars_of(s: &str) -> (r: Vec<char>)
    ensures
        r@ == s@,
{
    broadcast use vstd::string::axiom_spec_iter, vstd::string::next_postcondition;

    let mut it = s.chars();
    let mut r: Vec<char> = Vec::new();
    loop
        invariant
            r@ + IteratorSpec::remaining(&it) == s@,
            IteratorSpec::decrease(&it) is Some,
        ensures
            r@ == s@,
        decreases IteratorSpec::decrease(&it)->0,
    {
        match it.next() {
            Some(c) => {
                assert(r@.push(c) + IteratorSpec::remaining(&it) =~= s@);
                r.push(c);
            },
            None => {
                assert(r@ =~= s@);
                break ;
            },
        }
    }
    r
}

/// Relies on `String::from_iter`: the text made of these characters.
#[verifier::external_body]
pub(crate) fn text_of(v: &Vec<char>) -> (r: String)
    ensures
        r@ == v@,
{
    v.iter().collect()
}

/// Relies on `str::trim`: the text without leading and trailing white space.
#[verifier::external_body]
pub(crate) fn trim_text(s: &str) -> (r: String)
    ensures
        r@ == trim_of(s@),
{
    s.trim().to_string()
}

/// The characters of `v` from `from` up to `to`.
pub fn slice_chars(v: &Vec<char>, from: usize, to: usize) -> (r: Vec<char>)
    requires
        from <= to <= v.len(),
    ensures
        r@ == v@.subrange(from as int, to as int),
{
    let mut r: Vec<char> = Vec::new();
    let mut i: usize = from;
    while i < to
        invariant
            from <= i <= to <= v.len(),
            r@ == v@.subrange(from as int, i as int),
        decreases to - i,
    {
        r.push(v[i]);
        assert(r@ =~= v@.subrange(from as int, i + 1));
        i = i + 1;
    }
    r
}

/// The characters of `v` before its first `c`.
pub fn take_before_first(v: &Vec<char>, c: char) -> (r: Vec<char>)
    ensures
        r@ == before_first(v@, c),
{
    let mut i: usize = 0;
    assert(v@.subrange(0, v@.len() as int) =~= v@);
    assert(v@.subrange(0, 0) + v@ =~= v@);
    while i < v.len() && v[i] != c
        invariant
            i <= v.len(),
            before_first(v@, c) == v@.subrange(0, i as int) + before_first(
                v@.subrange(i as int, v@.len() as int),
                c,
            ),
        decreases v.len() - i,
    {
        let ghost rest = v@.subrange(i as int, v@.len() as int);
        assert(rest.drop_first() =~= v@.subrange(i + 1, v@.len() as int));
        assert(v@.subrange(0, i as int) + seq![v@[i as int]] =~= v@.subrange(0, i + 1));
        assert(v@.subrange(0, i as int) + (seq![v@[i as int]] + before_first(rest.drop_first(), c))
            =~= v@.subrange(0, i + 1) + before_first(rest.drop_first(), c));
        i = i + 1;
    }
    let ghost rest = v@.subrange(i as int, v@.len() as int);
    assert(before_first(rest, c) =~= Seq::<char>::empty());
    assert(v@.subrange(0, i as int) + Seq::<char>::empty() =~= v@.subrange(0, i as int));
    slice_chars(v, 0, i)
}

/// The characters of `v` after its last `c`.
pub fn take_after_last(v: &Vec<char>, c: char) -> (r: Vec<char>)
    ensures
        r@ == after_last(v@, c),
{
    let mut j: usize = v.len();
    assert(v@.subrange(0, v@.len() as int) =~= v@);
    assert(v@ + v@.subrange(v@.len() as int, v@.len() as int) =~= v@);
    while j > 0 && v[j - 1] != c
        invariant
            j <= v.len(),
            after_last(v@, c) == after_last(v@.subrange(0, j as int), c) + v@.subrange(
                j as int,
                v@.len() as int,
            ),
        decreases j,
    {
        let ghost pre = v@.subrange(0, j as int);
        assert(pre.drop_last() =~= v@.subrange(0, j - 1));
        assert(after_last(pre.drop_last(), c).push(pre.last()) + v@.subrange(j as int, v@.len() as int)
            =~= after_last(pre.drop_last(), c) + v@.subrange(j - 1, v@.len() as int));
        j = j - 1;
    }
    assert(v@ =~= v@.subrange(0, v@.len() as int));
    assert(after_last(v@.subrange(0, j as int), c) =~= Seq::<char>::empty());
    assert(Seq::<char>::empty() + v@.subrange(j as int, v@.len() as int) =~= v@.subrange(
        j as int,
        v@.len() as int,
    ));
    slice_chars(v, j, v.len())
}

/// The characters of `v` with leading and trailing `c` removed.
pub fn strip_both(v: &Vec<char>, c: char) -> (r: Vec<char>)
    ensures
        r@ == strip_trailing(strip_leading(v@, c), c),
{
    let mut i: usize = 0;
    assert(v@.subrange(0, v@.len() as int) =~= v@);
    while i < v.len() && v[i] == c
        invariant
            i <= v.len(),
            strip_leading(v@, c) == strip_leading(v@.subrange(i as int, v@.len() as int), c),
        decreases v.len() - i,
    {
        assert(v@.subrange(i as int, v@.len() as int).drop_first() =~= v@.subrange(
            i + 1,
            v@.len() as int,
        ));
        i = i + 1;
    }
    assert(v@ =~= v@.subrange(0, v@.len() as int));
    let mut j: usize = v.len();
    while j > i && v[j - 1] == c
        invariant
            i <= j <= v.len(),
            strip_leading(v@, c) == v@.subrange(i as int, v@.len() as int),
            strip_trailing(strip_leading(v@, c), c) == strip_trailing(
                v@.subrange(i as int, j as int),
                c,
            ),
        decreases j,
    {
        assert(v@.subrange(i as int, j as int).drop_last() =~= v@.subrange(i as int, j - 1));
        j = j - 1;
    }
    slice_chars(v, i, j)
}


/// The decimal digit for `d`.
pub open spec fn digit_char(d: nat) -> char {
    seq!['0', '1', '2', '3', '4', '5', '6', '7', '8', '9'][d as int]
}

/// The decimal numeral of `n`, without leading zeros.
pub open spec fn decimal(n: nat) -> Seq<char>
    decreases n,
{
    if n < 10 {
        seq![digit_char(n)]
    } else {
        decimal(n / 10).push(digit_char(n % 10))
    }
}

fn push_decimal(out: &mut Vec<char>, n: u16)
    ensures
        final(out)@ == old(out)@ + decimal(n as nat),
    decreases n,
{
    let ghost start = out@;
    if n >= 10 {
        push_decimal(out, n / 10);
    }
    let digits = vec!['0', '1', '2', '3', '4', '5', '6', '7', '8', '9'];
    assert(digits@ =~= seq!['0', '1', '2', '3', '4', '5', '6', '7', '8', '9']);
    out.push(digits[(n % 10) as usize]);
    if n >= 10 {
        assert(out@ =~= start + decimal(n as nat / 10).push(digit_char(n as nat % 10)));
    } else {
        assert(out@ =~= start + seq![digit_char(n as nat)]);
    }
}

/// The decimal numeral of `n` as text.
pub fn decimal_text(n: u16) -> (r: String)
    ensures
        r@ == decimal(n as nat),
{
    let mut v: Vec<char> = Vec::new();
    push_decimal(&mut v, n);
    assert(v@ =~= decimal(n as nat));
    text_of(&v)
}

} // verus!
