use vstd::prelude::*;
use vstd::string::*;

use crate::simulator::text_option;

verus! {

/// Whether `c` is white space in the sense of Unicode's `White_Space`
/// property, which is what separates tokens in a tool's output.
pub open spec fn is_white(c: char) -> bool {
    let u = c as u32;
    (0x9 <= u && u <= 0xD) || u == 0x20 || u == 0x85 || u == 0xA0 || u == 0x1680 || (0x2000
        <= u && u <= 0x200A) || u == 0x2028 || u == 0x2029 || u == 0x202F || u == 0x205F || u
        == 0x3000
}

/// First position at or after `i` that holds no white space (or the end).
pub open spec fn skip_white(s: Seq<char>, i: int) -> int
    decreases s.len() - i,
{
    if i >= s.len() {
        s.len() as int
    } else if is_white(s[i]) {
        skip_white(s, i + 1)
    } else {
        i
    }
}

/// First position at or after `i` that holds white space (or the end).
pub open spec fn word_end(s: Seq<char>, i: int) -> int
    decreases s.len() - i,
{
    if i >= s.len() {
        s.len() as int
    } else if is_white(s[i]) {
        i
    } else {
        word_end(s, i + 1)
    }
}

/// Where the token of index `n` starts; at the end of `s` when `s` has no
/// such token.
pub open spec fn token_start(s: Seq<char>, n: nat) -> int
    decreases n,
{
    if n == 0 {
        skip_white(s, 0)
    } else {
        skip_white(s, word_end(s, token_start(s, (n - 1) as nat)))
    }
}

/// The token of index `n` of `s`, tokens being the maximal runs of
/// characters that are not white space.
pub open spec fn token(s: Seq<char>, n: nat) -> Option<Seq<char>> {
    let a = token_start(s, n);
    if a < s.len() {
        Some(s.subrange(a, word_end(s, a)))
    } else {
        None
    }
}

/// Whether `needle` occurs in `hay` as a run of consecutive characters.
pub open spec fn occurs_in(hay: Seq<char>, needle: Seq<char>) -> bool {
    exists|i: int|
        0 <= i && i + needle.len() <= hay.len() && #[trigger] hay.subrange(i, i + needle.len())
            == needle
}

/// The decimal digits of `n`, most significant first.
pub open spec fn decimal(n: nat) -> Seq<char>
    decreases n,
{
    if n < 10 {
        seq![digit_char(n)]
    } else {
        decimal(n / 10) + seq![digit_char(n % 10)]
    }
}

pub open spec fn digit_char(d: nat) -> char {
    if d == 0 {
        '0'
    } else if d == 1 {
        '1'
    } else if d == 2 {
        '2'
    } else if d == 3 {
        '3'
    } else if d == 4 {
        '4'
    } else if d == 5 {
        '5'
    } else if d == 6 {
        '6'
    } else if d == 7 {
        '7'
    } else if d == 8 {
        '8'
    } else {
        '9'
    }
}

proof fn lemma_skip_white_bounds(s: Seq<char>, i: int)
    requires
        0 <= i <= s.len(),
    ensures
        i <= skip_white(s, i) <= s.len(),
    decreases s.len() - i,
{
    if i < s.len() && is_white(s[i]) {
        lemma_skip_white_bounds(s, i + 1);
    }
}

proof fn lemma_word_end_bounds(s: Seq<char>, i: int)
    requires
        0 <= i <= s.len(),
    ensures
        i <= word_end(s, i) <= s.len(),
    decreases s.len() - i,
{
    if i < s.len() && !is_white(s[i]) {
        lemma_word_end_bounds(s, i + 1);
    }
}

fn white_char(c: char) -> (r: bool)
    ensures
        r == is_white(c),
{
    let u = c as u32;
    (0x9 <= u && u <= 0xD) || u == 0x20 || u == 0x85 || u == 0xA0 || u == 0x1680 || (0x2000 <= u
        && u <= 0x200A) || u == 0x2028 || u == 0x2029 || u == 0x202F || u == 0x205F || u == 0x3000
}

fn skip_white_from(s: &str, len: usize, i: usize) -> (r: usize)
    requires
        len == s@.len(),
        i <= len,
    ensures
        r == skip_white(s@, i as int),
{
    let mut j = i;
    while j < len && white_char(s.get_char(j))
        invariant
            i <= j <= len,
            len == s@.len(),
            skip_white(s@, j as int) == skip_white(s@, i as int),
        decreases len - j,
    {
        j = j + 1;
    }
    j
}

fn word_end_from(s: &str, len: usize, i: usize) -> (r: usize)
    requires
        len == s@.len(),
        i <= len,
    ensures
        r == word_end(s@, i as int),
{
    let mut j = i;
    while j < len && !white_char(s.get_char(j))
        invariant
            i <= j <= len,
            len == s@.len(),
            word_end(s@, j as int) == word_end(s@, i as int),
        decreases len - j,
    {
        j = j + 1;
    }
    j
}

/// The token of index `n` of `s` (counting from 0), tokens being separated
/// by white space; `None` when `s` has fewer than `n + 1` tokens.
pub fn nth_token(s: &str, n: usize) -> (r: Option<String>)
    ensures
        text_option(r) == token(s@, n as nat),
{
    let len = s.unicode_len();
    proof {
        lemma_skip_white_bounds(s@, 0);
    }
    let mut a = skip_white_from(s, len, 0);
    let mut t: usize = 0;
    while t < n
        invariant
            t <= n,
            len == s@.len(),
            a <= len,
            a == token_start(s@, t as nat),
        decreases n - t,
    {
        proof {
            lemma_word_end_bounds(s@, a as int);
        }
        let e = word_end_from(s, len, a);
        proof {
            lemma_skip_white_bounds(s@, e as int);
        }
        a = skip_white_from(s, len, e);
        t = t + 1;
    }
    if a < len {
        proof {
            lemma_word_end_bounds(s@, a as int);
        }
        let e = word_end_from(s, len, a);
        Some(String::from_str(s.substring_char(a, e)))
    } else {
        None
    }
}

/// Whether `needle` occurs in `hay`; an empty needle occurs everywhere.
pub fn contains_text(hay: &str, needle: &str) -> (r: bool)
    ensures
        r == occurs_in(hay@, needle@),
{
    let hl = hay.unicode_len();
    let nl = needle.unicode_len();
    if nl > hl {
        return false;
    }
    if nl == 0 {
        assert(hay@.subrange(0, 0 + needle@.len() as int) =~= needle@);
        return true;
    }
    let target = String::from_str(needle);
    let mut i: usize = 0;
    while i <= hl - nl
        invariant
            hl == hay@.len(),
            nl == needle@.len(),
            0 < nl <= hl,
            i <= hl - nl + 1,
            target@ == needle@,
            forall|j: int| 0 <= j < i ==> #[trigger] hay@.subrange(j, j + nl) != needle@,
        decreases hl - i,
    {
        let window = String::from_str(hay.substring_char(i, i + nl));
        if window == target {
            return true;
        }
        i = i + 1;
    }
    assert forall|j: int| 0 <= j && j + needle@.len() <= hay@.len() implies #[trigger] hay@.subrange(
        j,
        j + needle@.len(),
    ) != needle@ by {}
    false
}

fn digit_str(d: u128) -> (r: &'static str)
    requires
        d < 10,
    ensures
        r@ == seq![digit_char(d as nat)],
{
    if d == 0 {
        proof { reveal_strlit("0"); }
        "0"
    } else if d == 1 {
        proof { reveal_strlit("1"); }
        "1"
    } else if d == 2 {
        proof { reveal_strlit("2"); }
        "2"
    } else if d == 3 {
        proof { reveal_strlit("3"); }
        "3"
    } else if d == 4 {
        proof { reveal_strlit("4"); }
        "4"
    } else if d == 5 {
        proof { reveal_strlit("5"); }
        "5"
    } else if d == 6 {
        proof { reveal_strlit("6"); }
        "6"
    } else if d == 7 {
        proof { reveal_strlit("7"); }
        "7"
    } else if d == 8 {
        proof { reveal_strlit("8"); }
        "8"
    } else {
        proof { reveal_strlit("9"); }
        "9"
    }
}

/// Appends the decimal digits of `n` to `out`.
pub fn push_decimal(out: &mut String, n: u128)
    ensures
        final(out)@ == old(out)@ + decimal(n as nat),
    decreases n,
{
    if n >= 10 {
        push_decimal(out, n / 10);
        out.append(digit_str(n % 10));
        proof {
            assert(final(out)@ =~= old(out)@ + decimal(n as nat));
        }
    } else {
        out.append(digit_str(n));
    }
}

} // verus!

verus! {

/// Whether an item named `name` is taken for the active one: an active name
/// is known and occurs in `name` (a loose match that tolerates suffixes).
pub open spec fn marked_active(name: Seq<char>, active: Option<Seq<char>>) -> bool {
    match active {
        Some(a) => occurs_in(name, a),
        None => false,
    }
}

/// The version a `--version` output gives: its second token, when the
/// output could be read at all.
pub open spec fn version_of(output: Option<Seq<char>>) -> Option<Seq<char>> {
    match output {
        Some(o) => token(o, 1),
        None => None,
    }
}

pub fn is_marked_active(name: &String, active: &Option<String>) -> (r: bool)
    ensures
        r == marked_active(name@, text_option(*active)),
{
    match active {
        Some(a) => contains_text(name.as_str(), a.as_str()),
        None => false,
    }
}

pub fn version_from_output(output: &Option<String>) -> (r: Option<String>)
    ensures
        text_option(r) == version_of(text_option(*output)),
{
    match output {
        Some(o) => nth_token(o.as_str(), 1),
        None => None,
    }
}

} // verus!
