//! Character-sequence utilities: conversions between `&str`, `Vec<char>` and
//! `String`, whitespace trimming, separator splitting and substring search.
//! All parsing in this crate works over `Vec<char>` with `Seq<char>` as the
//! mathematical model.
use vstd::prelude::*;

verus! {

use vstd::string::StrSliceExecFns;

/// Relies on String::push: appends the given character to the end of the string.
#[verifier::external_body]
pub(crate) fn push_char(s: &mut String, c: char)
    ensures
        final(s)@ == old(s)@.push(c),
{
    s.push(c);
}

/// Builds a `String` whose character view equals the given character vector.
pub(crate) fn chars_to_string(v: &Vec<char>) -> (s: String)
    ensures
        s@ == v@,
{
    let mut s = String::new();
    let mut i: usize = 0;
    while i < v.len()
        invariant
            i <= v.len(),
            s@ == v@.take(i as int),
        decreases v.len() - i,
    {
        push_char(&mut s, v[i]);
        i = i + 1;
        proof {
            assert(v@.take(i as int) =~= v@.take(i - 1).push(v@[i - 1]));
        }
    }
    proof {
        assert(v@.take(v.len() as int) =~= v@);
    }
    s
}

/// Collects the characters of a string slice into a vector.
pub(crate) fn chars_of_str(s: &str) -> (v: Vec<char>)
    ensures
        v@ == s@,
{
    let n = s.unicode_len();
    let mut v: Vec<char> = Vec::new();
    let mut i: usize = 0;
    while i < n
        invariant
            i <= n,
            n == s@.len(),
            v@ == s@.take(i as int),
        decreases n - i,
    {
        v.push(s.get_char(i));
        i = i + 1;
        proof {
            assert(s@.take(i as int) =~= s@.take(i - 1).push(s@[i - 1]));
        }
    }
    proof {
        assert(s@.take(n as int) =~= s@);
    }
    v
}

/// Decides equality of two character vectors.
pub(crate) fn chars_eq(a: &Vec<char>, b: &Vec<char>) -> (r: bool)
    ensures
        r == (a@ == b@),
{
    if a.len() != b.len() {
        return false;
    }
    let mut i: usize = 0;
    while i < a.len()
        invariant
            i <= a.len(),
            a.len() == b.len(),
            forall|k: int| 0 <= k < i ==> a@[k] == b@[k],
        decreases a.len() - i,
    {
        if a[i] != b[i] {
            return false;
        }
        i = i + 1;
    }
    proof {
        assert(a@ =~= b@);
    }
    true
}

/// The characters that count as whitespace when a query result is trimmed;
/// this is the set that `str::trim` removes.
pub open spec fn is_space_char(c: char) -> bool {
    let u = c as u32;
    (9 <= u && u <= 13) || u == 32 || u == 133 || u == 160 || u == 0x1680 || (0x2000 <= u && u
        <= 0x200A) || u == 0x2028 || u == 0x2029 || u == 0x202F || u == 0x205F || u == 0x3000
}

fn is_space_of(c: char) -> (r: bool)
    ensures
        r == is_space_char(c),
{
    let u = c as u32;
    (9 <= u && u <= 13) || u == 32 || u == 133 || u == 160 || u == 0x1680 || (0x2000 <= u && u
        <= 0x200A) || u == 0x2028 || u == 0x2029 || u == 0x202F || u == 0x205F || u == 0x3000
}

pub open spec fn trim_front(s: Seq<char>) -> Seq<char>
    decreases s.len(),
{
    if s.len() > 0 && is_space_char(s[0]) {
        trim_front(s.drop_first())
    } else {
        s
    }
}

pub open spec fn trim_back(s: Seq<char>) -> Seq<char>
    decreases s.len(),
{
    if s.len() > 0 && is_space_char(s.last()) {
        trim_back(s.drop_last())
    } else {
        s
    }
}

/// The given sequence with leading and trailing whitespace removed.
pub open spec fn trim(s: Seq<char>) -> Seq<char> {
    trim_back(trim_front(s))
}

/// Removes leading and trailing whitespace characters.
pub(crate) fn trim_chars(v: &Vec<char>) -> (r: Vec<char>)
    ensures
        r@ == trim(v@),
{
    let mut a: usize = 0;
    proof {
        assert(v@.skip(0) =~= v@);
    }
    while a < v.len() && is_space_of(v[a])
        invariant
            a <= v.len(),
            trim_front(v@) == trim_front(v@.skip(a as int)),
        decreases v.len() - a,
    {
        proof {
            assert(v@.skip(a as int).drop_first() =~= v@.skip(a + 1));
        }
        a = a + 1;
    }
    proof {
        if a == v.len() {
            assert(v@.skip(a as int) =~= Seq::<char>::empty());
        }
        assert(trim_front(v@) == v@.skip(a as int));
    }
    let mut b: usize = v.len();
    while b > a && is_space_of(v[b - 1])
        invariant
            a <= b <= v.len(),
            trim_front(v@) == v@.skip(a as int),
            trim_back(v@.skip(a as int)) == trim_back(v@.subrange(a as int, b as int)),
        decreases b,
    {
        proof {
            assert(v@.subrange(a as int, b as int).drop_last() =~= v@.subrange(a as int, b - 1));
        }
        b = b - 1;
    }
    proof {
        assert(trim_back(v@.subrange(a as int, b as int)) == v@.subrange(a as int, b as int));
    }
    let mut r: Vec<char> = Vec::new();
    let mut i: usize = a;
    while i < b
        invariant
            a <= i <= b <= v.len(),
            r@ == v@.subrange(a as int, i as int),
        decreases b - i,
    {
        r.push(v[i]);
        i = i + 1;
        proof {
            assert(v@.subrange(a as int, i as int) =~= v@.subrange(a as int, i - 1).push(
                v@[i - 1],
            ));
        }
    }
    r
}

/// Splits a sequence at every non-overlapping, leftmost occurrence of the
/// separator, as `str::split` does; the separator must not be empty.
pub open spec fn split_on(s: Seq<char>, sep: Seq<char>) -> Seq<Seq<char>>
    decreases s.len(),
{
    if sep.len() == 0 {
        seq![s]
    } else if s.len() < sep.len() {
        seq![s]
    } else if s.take(sep.len() as int) == sep {
        seq![Seq::<char>::empty()] + split_on(s.skip(sep.len() as int), sep)
    } else {
        let rest = split_on(s.skip(1), sep);
        seq![seq![s[0]] + rest[0]] + rest.skip(1)
    }
}

pub proof fn lemma_split_on_len(s: Seq<char>, sep: Seq<char>)
    ensures
        split_on(s, sep).len() >= 1,
    decreases s.len(),
{
    if sep.len() == 0 || s.len() < sep.len() {
    } else if s.take(sep.len() as int) == sep {
        lemma_split_on_len(s.skip(sep.len() as int), sep);
    } else {
        lemma_split_on_len(s.skip(1), sep);
    }
}

/// Decides whether the characters of `s` starting at `i` match `sep`.
fn window_eq(s: &Vec<char>, sep: &Vec<char>, i: usize) -> (r: bool)
    requires
        i + sep.len() <= s.len(),
    ensures
        r == (s@.subrange(i as int, i + sep@.len()) == sep@),
{
    let mut j: usize = 0;
    while j < sep.len()
        invariant
            j <= sep.len(),
            i + sep.len() <= s.len(),
            forall|k: int| 0 <= k < j ==> s@[i + k] == sep@[k],
        decreases sep.len() - j,
    {
        if s[i + j] != sep[j] {
            proof {
                assert(s@.subrange(i as int, i + sep@.len())[j as int] != sep@[j as int]);
            }
            return false;
        }
        j = j + 1;
    }
    proof {
        assert(s@.subrange(i as int, i + sep@.len()) =~= sep@);
    }
    true
}

/// Splits a character vector on every occurrence of the separator.
pub(crate) fn split_chars(s: &Vec<char>, sep: &Vec<char>) -> (r: Vec<Vec<char>>)
    requires
        sep.len() >= 1,
    ensures
        r.deep_view() == split_on(s@, sep@),
        r.len() >= 1,
{
    let mut pieces: Vec<Vec<char>> = Vec::new();
    let mut cur: Vec<char> = Vec::new();
    let mut i: usize = 0;
    proof {
        lemma_split_on_len(s@.skip(0), sep@);
        assert(s@.skip(0) =~= s@);
        let rem = split_on(s@, sep@);
        assert(rem =~~= seq![rem[0]] + rem.skip(1));
        assert(cur@ + rem[0] =~= rem[0]);
        assert(pieces.deep_view() =~~= Seq::<Seq<char>>::empty());
        assert(split_on(s@, sep@) =~~= pieces.deep_view() + seq![cur@ + rem[0]] + rem.skip(1));
    }
    while i < s.len()
        invariant
            i <= s.len(),
            sep.len() >= 1,
            split_on(s@.skip(i as int), sep@).len() >= 1,
            split_on(s@, sep@) == pieces.deep_view() + seq![
                cur@ + split_on(s@.skip(i as int), sep@)[0],
            ] + split_on(s@.skip(i as int), sep@).skip(1),
        decreases s.len() - i,
    {
        let ghost old_rem = split_on(s@.skip(i as int), sep@);
        let ghost pdv = pieces.deep_view();
        let ghost curv = cur@;
        if s.len() - i >= sep.len() && window_eq(s, sep, i) {
            proof {
                assert(s@.skip(i as int).take(sep@.len() as int) =~= s@.subrange(
                    i as int,
                    i + sep@.len(),
                ));
                assert(s@.skip(i as int).skip(sep@.len() as int) =~= s@.skip(i + sep@.len()));
                lemma_split_on_len(s@.skip(i + sep@.len()), sep@);
            }
            pieces.push(cur);
            cur = Vec::new();
            i = i + sep.len();
            proof {
                let rem = split_on(s@.skip(i as int), sep@);
                assert(old_rem =~~= seq![Seq::<char>::empty()] + rem);
                assert(old_rem[0] =~= Seq::<char>::empty());
                assert(curv + old_rem[0] =~= curv);
                assert(cur@ + rem[0] =~= rem[0]);
                assert(pieces.deep_view() =~~= pdv.push(curv));
                assert(old_rem.skip(1) =~~= rem);
                assert(rem =~~= seq![rem[0]] + rem.skip(1));
                assert(pdv + seq![curv + old_rem[0]] + old_rem.skip(1) =~~= pdv.push(curv) + seq![
                    cur@ + rem[0],
                ] + rem.skip(1));
            }
        } else {
            let c = s[i];
            cur.push(c);
            i = i + 1;
            proof {
                let rem = split_on(s@.skip(i as int), sep@);
                lemma_split_on_len(s@.skip(i as int), sep@);
                if i - 1 + sep@.len() <= s@.len() {
                    // an ordinary character: the head piece grows
                    assert(s@.skip(i - 1).take(sep@.len() as int) =~= s@.subrange(
                        i - 1,
                        i - 1 + sep@.len(),
                    ));
                    assert(s@.skip(i - 1).len() >= sep@.len());
                    assert(s@.skip(i - 1).skip(1) =~= s@.skip(i as int));
                    assert(old_rem =~~= seq![seq![s@[i - 1]] + rem[0]] + rem.skip(1));
                } else {
                    // fewer characters remain than the separator holds
                    assert(old_rem =~~= seq![s@.skip(i - 1)]);
                    assert(rem =~~= seq![s@.skip(i as int)]);
                    assert(s@.skip(i - 1) =~= seq![s@[i - 1]] + s@.skip(i as int));
                    assert(old_rem =~~= seq![seq![s@[i - 1]] + rem[0]] + rem.skip(1));
                }
                assert(old_rem[0] =~= seq![s@[i - 1]] + rem[0]);
                assert(old_rem.skip(1) =~~= rem.skip(1));
                assert(cur@ =~= curv.push(s@[i - 1]));
                assert(cur@ + rem[0] =~= curv + old_rem[0]);
                assert(pdv + seq![curv + old_rem[0]] + old_rem.skip(1) =~~= pieces.deep_view()
                    + seq![cur@ + rem[0]] + rem.skip(1));
            }
        }
    }
    proof {
        assert(s@.skip(s@.len() as int) =~= Seq::<char>::empty());
        let rem = split_on(s@.skip(s@.len() as int), sep@);
        assert(rem =~~= seq![Seq::<char>::empty()]);
        assert(cur@ + rem[0] =~= cur@);
        assert(rem.skip(1) =~~= Seq::<Seq<char>>::empty());
    }
    let ghost pdv = pieces.deep_view();
    let ghost curv = cur@;
    pieces.push(cur);
    proof {
        assert(pieces.deep_view() =~~= pdv.push(curv));
        assert(pieces.deep_view() =~~= split_on(s@, sep@));
    }
    pieces
}

/// Whether `sub` occurs as a contiguous subsequence of `s`.
pub open spec fn contains_seq(s: Seq<char>, sub: Seq<char>) -> bool {
    exists|i: int| 0 <= i && i + sub.len() <= s.len() && #[trigger] s.subrange(i, i + sub.len())
        == sub
}

/// Decides whether `sub` occurs as a contiguous subsequence of `s`.
pub(crate) fn contains_chars(s: &Vec<char>, sub: &Vec<char>) -> (r: bool)
    ensures
        r == contains_seq(s@, sub@),
{
    if sub.len() > s.len() {
        return false;
    }
    if sub.len() == 0 {
        proof {
            assert(contains_seq(s@, sub@)) by {
                assert(s@.subrange(0, 0 + sub@.len() as int) =~= sub@);
            }
        }
        return true;
    }
    let mut i: usize = 0;
    while i <= s.len() - sub.len()
        invariant
            1 <= sub.len() <= s.len(),
            i <= s.len() - sub.len() + 1,
            forall|k: int| 0 <= k < i ==> #[trigger] s@.subrange(k, k + sub@.len()) != sub@,
        decreases s.len() - i,
    {
        if window_eq(s, sub, i) {
            proof {
                assert(contains_seq(s@, sub@));
            }
            return true;
        }
        i = i + 1;
    }
    false
}

} // verus!
