use vstd::prelude::*;
use vstd::string::StrSliceExecFns;
use vstd::string::StringExecFns;

verus! {

/// The position of the first space in `s` at or after index `i`, if any.
pub open spec fn find_space(s: Seq<char>, i: int) -> Option<int>
    decreases s.len() - i,
{
    if i < 0 || i >= s.len() {
        None
    } else if s[i] == ' ' {
        Some(i)
    } else {
        find_space(s, i + 1)
    }
}

/// A found space lies between the search start and the end of the text, and
/// really is a space.
pub proof fn lemma_find_space_in_range(s: Seq<char>, i: int)
    ensures
        match find_space(s, i) {
            Some(j) => i <= j < s.len() && s[j] == ' ',
            None => true,
        },
    decreases s.len() - i,
{
    if 0 <= i < s.len() && s[i] != ' ' {
        lemma_find_space_in_range(s, i + 1);
    }
}

/// Splitting at the first space: the text before it and the text after it,
/// the space itself belonging to neither side; nothing when there is no
/// space.
pub open spec fn split_at_space(s: Seq<char>) -> Option<(Seq<char>, Seq<char>)> {
    match find_space(s, 0) {
        None => None,
        Some(j) => Some((s.subrange(0, j), s.subrange(j + 1, s.len() as int))),
    }
}

/// The index of the first space of `s`, if any.
pub fn first_space(s: &str) -> (r: Option<usize>)
    ensures
        match r {
            Some(j) => find_space(s@, 0) == Some(j as int),
            None => find_space(s@, 0) is None,
        },
{
    let n = s.unicode_len();
    let mut i: usize = 0;
    while i < n
        invariant
            n == s@.len(),
            0 <= i <= n,
            find_space(s@, 0) == find_space(s@, i as int),
        decreases n - i,
    {
        if s.get_char(i) == ' ' {
            return Some(i);
        }
        proof {
            assert(find_space(s@, i as int) == find_space(s@, i + 1));
        }
        i += 1;
    }
    None
}

/// Whether two string slices hold the same characters.
pub fn str_eq(a: &str, b: &str) -> (r: bool)
    ensures
        r == (a@ == b@),
{
    let alen = a.unicode_len();
    let blen = b.unicode_len();
    if alen != blen {
        return false;
    }
    let mut i: usize = 0;
    while i < alen
        invariant
            alen == a@.len(),
            blen == b@.len(),
            alen == blen,
            0 <= i <= alen,
            forall|k: int| 0 <= k < i ==> a@[k] == b@[k],
        decreases alen - i,
    {
        if a.get_char(i) != b.get_char(i) {
            return false;
        }
        i += 1;
    }
    proof {
        assert(a@ =~= b@);
    }
    true
}

/// The decimal digit character for a value below ten.
pub open spec fn dec_digit(d: int) -> char {
    if d == 0 {
        '0'
    } else if d == 1 {
        '1'
    } else if d == 2 {
        '2'
    } else if d == 3 {
        '3'
    } else if d == 4 {
        '4'
    } else if d == 5 {
        '5'
    } else if d == 6 {
        '6'
    } else if d == 7 {
        '7'
    } else if d == 8 {
        '8'
    } else {
        '9'
    }
}

/// The decimal rendering of `n`, most significant digit first, with no
/// leading zero except for zero itself.
pub open spec fn dec_str(n: int) -> Seq<char>
    decreases n,
{
    if n < 10 {
        seq![dec_digit(n)]
    } else {
        dec_str(n / 10).push(dec_digit(n % 10))
    }
}

/// The one-character string for a decimal digit.
fn dec_digit_str(d: u64) -> (r: &'static str)
    requires
        d < 10,
    ensures
        r@ == seq![dec_digit(d as int)],
{
    let r: &'static str = if d == 0 {
        "0"
    } else if d == 1 {
        "1"
    } else if d == 2 {
        "2"
    } else if d == 3 {
        "3"
    } else if d == 4 {
        "4"
    } else if d == 5 {
        "5"
    } else if d == 6 {
        "6"
    } else if d == 7 {
        "7"
    } else if d == 8 {
        "8"
    } else {
        "9"
    };
    proof {
        reveal_strlit("0");
        reveal_strlit("1");
        reveal_strlit("2");
        reveal_strlit("3");
        reveal_strlit("4");
        reveal_strlit("5");
        reveal_strlit("6");
        reveal_strlit("7");
        reveal_strlit("8");
        reveal_strlit("9");
        assert(r@ =~= seq![dec_digit(d as int)]);
    }
    r
}

/// Renders `n` in decimal.
pub fn u64_to_dec(n: u64) -> (s: String)
    ensures
        s@ == dec_str(n as int),
    decreases n,
{
    if n < 10 {
        String::from_str(dec_digit_str(n))
    } else {
        let mut s = u64_to_dec(n / 10);
        s.append(dec_digit_str(n % 10));
        proof {
            assert(s@ =~= dec_str(n as int));
        }
        s
    }
}

} // verus!
