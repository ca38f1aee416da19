//! Text helpers shared by the services, the controller and the screen models:
//! specifications for the `String` operations the crate relies on, decimal
//! rendering, and separator-delimited fields.

use vstd::prelude::*;
use vstd::string::*;

verus! {

/// `String::push` appends one character to the end of the string.
pub assume_specification[ String::push ](s: &mut String, ch: char)
    ensures
        final(s)@ == old(s)@.push(ch),
;

/// `String::pop` removes the last character and returns it. On an empty string
/// it returns `None` and leaves the string empty.
pub assume_specification[ String::pop ](s: &mut String) -> (out: Option<char>)
    ensures
        old(s)@.len() == 0 ==> out.is_none() && final(s)@ == old(s)@,
        old(s)@.len() > 0 ==> out == Some(old(s)@.last()) && final(s)@ == old(s)@.drop_last(),
;

/// `String::clear` removes all contents of the string.
pub assume_specification[ String::clear ](s: &mut String)
    ensures
        final(s)@ == Seq::<char>::empty(),
;

/// The lowercase form of a text, as `str::to_lowercase` computes it from the
/// Unicode `Lowercase` property.
pub uninterp spec fn lowercase(s: Seq<char>) -> Seq<char>;

/// `str::to_lowercase`: the result is the lowercase form of the argument, a
/// function of the characters alone.
#[verifier::external_body]
pub(crate) fn to_lowercase(s: &str) -> (out: String)
    ensures
        out@ == lowercase(s@),
{
    s.to_lowercase()
}

/// True when `needle` stands in `hay` at position `i`.
pub open spec fn occurs_at(needle: Seq<char>, hay: Seq<char>, i: int) -> bool {
    0 <= i && i + needle.len() <= hay.len() && hay.subrange(i, i + needle.len()) == needle
}

/// True when `needle` occurs in `hay` as a contiguous run of characters. The
/// empty text occurs in every text.
pub open spec fn is_substring(needle: Seq<char>, hay: Seq<char>) -> bool {
    exists|i: int| occurs_at(needle, hay, i)
}

/// The characters of a text.
pub fn chars_of(s: &str) -> (out: Vec<char>)
    ensures
        out@ == s@,
{
    broadcast use vstd::string::group_string_axioms;

    let mut out: Vec<char> = Vec::new();
    for c in it: s.chars()
        invariant
            it.seq() == s@,
            out@ == s@.take(it.index() as int),
    {
        out.push(c);
    }
    out
}

fn stands_at(hay: &Vec<char>, needle: &Vec<char>, i: usize) -> (out: bool)
    requires
        i + needle.len() <= hay.len(),
    ensures
        out == occurs_at(needle@, hay@, i as int),
{
    let mut j: usize = 0;
    while j < needle.len()
        invariant
            j <= needle.len(),
            i + needle.len() <= hay.len(),
            forall|k: int| 0 <= k < j ==> hay@[i + k] == needle@[k],
        decreases needle.len() - j,
    {
        if hay[i + j] != needle[j] {
            return false;
        }
        j += 1;
    }
    assert(hay@.subrange(i as int, i + needle.len()) =~= needle@);
    true
}

/// Whether `needle` occurs in `hay`.
pub fn contains(hay: &str, needle: &str) -> (out: bool)
    ensures
        out == is_substring(needle@, hay@),
{
    let h = chars_of(hay);
    let n = chars_of(needle);
    if n.len() > h.len() {
        return false;
    }
    let last = h.len() - n.len();
    let mut i: usize = 0;
    loop
        invariant
            h@ == hay@,
            n@ == needle@,
            last == h.len() - n.len(),
            i <= last,
            forall|k: int| 0 <= k < i ==> !occurs_at(n@, h@, k),
        decreases last - i,
    {
        if stands_at(&h, &n, i) {
            return true;
        }
        if i == last {
            return false;
        }
        i += 1;
    }
}

/// The decimal digit for a value below ten.
pub open spec fn digit_char(d: nat) -> char {
    if d == 0 {
        '0'
    } else if d == 1 {
        '1'
    } else if d == 2 {
        '2'
    } else if d == 3 {
        '3'
    } else if d == 4 {
        '4'
    } else if d == 5 {
        '5'
    } else if d == 6 {
        '6'
    } else if d == 7 {
        '7'
    } else if d == 8 {
        '8'
    } else {
        '9'
    }
}

/// The decimal numeral of `n`, without sign or leading zeros.
pub open spec fn decimal_text(n: nat) -> Seq<char>
    decreases n,
{
    if n < 10 {
        seq![digit_char(n)]
    } else {
        decimal_text(n / 10).push(digit_char(n % 10))
    }
}

fn digit(d: u8) -> (c: char)
    requires
        d < 10,
    ensures
        c == digit_char(d as nat),
{
    match d {
        0 => '0',
        1 => '1',
        2 => '2',
        3 => '3',
        4 => '4',
        5 => '5',
        6 => '6',
        7 => '7',
        8 => '8',
        _ => '9',
    }
}

/// Appends the decimal numeral of `n` to `out`.
pub fn push_decimal(out: &mut String, n: u128)
    ensures
        final(out)@ == old(out)@ + decimal_text(n as nat),
    decreases n,
{
    if n >= 10 {
        push_decimal(out, n / 10);
    }
    let d: u8 = (n % 10) as u8;
    out.push(digit(d));
}

/// The decimal numeral of `n` as a fresh string.
pub fn decimal(n: u128) -> (out: String)
    ensures
        out@ == decimal_text(n as nat),
{
    let mut out = String::new();
    push_decimal(&mut out, n);
    out
}

/// Index of the first item of `s` that satisfies `test`, or the length of `s`
/// when none does.
pub open spec fn first_where<A>(s: Seq<A>, test: spec_fn(A) -> bool) -> int
    decreases s.len(),
{
    if s.len() == 0 || test(s[0]) {
        0
    } else {
        1 + first_where(s.drop_first(), test)
    }
}

/// `first_where` is the one position that no satisfying item precedes and
/// that is either a satisfying item or the end of the sequence.
pub proof fn lemma_first_where<A>(s: Seq<A>, test: spec_fn(A) -> bool, k: int)
    requires
        0 <= k <= s.len(),
        forall|j: int| 0 <= j < k ==> !test(#[trigger] s[j]),
        k < s.len() ==> test(s[k]),
    ensures
        first_where(s, test) == k,
    decreases s.len(),
{
    if s.len() > 0 && !test(s[0]) {
        let t = s.drop_first();
        assert forall|j: int| 0 <= j < k - 1 implies !test(#[trigger] t[j]) by {
            assert(t[j] == s[j + 1]);
        }
        lemma_first_where(t, test, k - 1);
    }
}

/// `first_where` stays within the sequence, nothing before it satisfies the
/// test, and what it points at does.
pub proof fn lemma_first_where_bounds<A>(s: Seq<A>, test: spec_fn(A) -> bool)
    ensures
        0 <= first_where(s, test) <= s.len(),
        forall|j: int| 0 <= j < first_where(s, test) ==> !test(#[trigger] s[j]),
        first_where(s, test) < s.len() ==> test(s[first_where(s, test)]),
    decreases s.len(),
{
    if s.len() > 0 && !test(s[0]) {
        let t = s.drop_first();
        lemma_first_where_bounds(t, test);
        assert forall|j: int| 0 <= j < first_where(s, test) implies !test(#[trigger] s[j]) by {
            if j > 0 {
                assert(t[j - 1] == s[j]);
            }
        }
    }
}

/// The test whether a character is `sep`.
pub open spec fn is_sep(sep: char) -> spec_fn(char) -> bool {
    |c: char| c == sep
}

/// Index of the first `sep` in `s`, or the length of `s` when it holds none.
pub open spec fn sep_index(s: Seq<char>, sep: char) -> int {
    first_where(s, is_sep(sep))
}

/// The text before the first `sep`; all of `s` when it holds none.
pub open spec fn before_sep(s: Seq<char>, sep: char) -> Seq<char> {
    s.take(sep_index(s, sep))
}

/// The text after the first `sep`; `None` when `s` holds none.
pub open spec fn after_sep(s: Seq<char>, sep: char) -> Option<Seq<char>> {
    if sep_index(s, sep) < s.len() {
        Some(s.skip(sep_index(s, sep) + 1))
    } else {
        None
    }
}

/// Splits `s` at its first `sep`: the text before it, and the text after it
/// when there is one.
pub fn split_once(s: &str, sep: char) -> (out: (String, Option<String>))
    ensures
        out.0@ == before_sep(s@, sep),
        opt_view(out.1) == after_sep(s@, sep),
{
    broadcast use vstd::string::group_string_axioms;

    let mut head = String::new();
    let mut rest = String::new();
    let mut found = false;
    let ghost mut k: int = 0;
    for c in it: s.chars()
        invariant
            it.seq() == s@,
            !found ==> {
                &&& k == it.index()
                &&& rest@.len() == 0
                &&& head@ == s@.take(k)
                &&& forall|j: int| 0 <= j < k ==> s@[j] != sep
            },
            found ==> {
                &&& 0 <= k < it.index()
                &&& s@[k] == sep
                &&& forall|j: int| 0 <= j < k ==> s@[j] != sep
                &&& head@ == s@.take(k)
                &&& rest@ == s@.subrange(k + 1, it.index() as int)
            },
    {
        if found {
            rest.push(c);
        } else if c == sep {
            found = true;
        } else {
            head.push(c);
            proof {
                k = k + 1;
            }
        }
    }
    proof {
        lemma_first_where(s@, is_sep(sep), k);
    }
    if found {
        (head, Some(rest))
    } else {
        (head, None)
    }
}

/// The characters of an optional string.
pub open spec fn opt_view(s: Option<String>) -> Option<Seq<char>> {
    match s {
        Some(t) => Some(t@),
        None => None,
    }
}

/// Copies an optional string.
pub fn clone_opt(s: &Option<String>) -> (out: Option<String>)
    ensures
        opt_view(out) == opt_view(*s),
{
    match s {
        Some(t) => Some(t.clone()),
        None => None,
    }
}

/// The text of `a` followed by that of `b`.
pub fn joined(a: &str, b: &str) -> (out: String)
    ensures
        out@ == a@ + b@,
{
    let mut out = String::from_str(a);
    out.append(b);
    out
}

/// The texts of `a`, `b` and `c`, one after the other.
pub fn joined3(a: &str, b: &str, c: &str) -> (out: String)
    ensures
        out@ == a@ + b@ + c@,
{
    let mut out = String::from_str(a);
    out.append(b);
    out.append(c);
    out
}

} // verus!
