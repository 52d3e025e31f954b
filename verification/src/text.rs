//! Text: the few operations on strings that the machines need.

use vstd::prelude::*;
use vstd::string::StrSliceExecFns;
use vstd::string::StringExecFns;

verus! {

/// Whether Unicode gives the character `c` the property `White_Space`.
pub open spec fn white_space(c: char) -> bool {
    let n = c as int;
    ||| 0x9 <= n <= 0xd
    ||| n == 0x20
    ||| n == 0x85
    ||| n == 0xa0
    ||| n == 0x1680
    ||| 0x2000 <= n <= 0x200a
    ||| n == 0x2028
    ||| n == 0x2029
    ||| n == 0x202f
    ||| n == 0x205f
    ||| n == 0x3000
}

/// `char::is_whitespace` tells whether its character has the Unicode property `White_Space`.
pub assume_specification[ char::is_whitespace ](c: char) -> (b: bool)
    ensures
        b == white_space(c),
;

/// Whether the text `s` holds white space only.
pub open spec fn blank(s: Seq<char>) -> bool {
    forall|i: int| 0 <= i < s.len() ==> white_space(#[trigger] s[i])
}

/// The position of the first character of `s`, from `i` on, that is no white space, or the length
/// of `s` where there is none.
pub open spec fn skip_white(s: Seq<char>, i: int) -> int
    decreases s.len() - i,
{
    if 0 <= i < s.len() && white_space(s[i]) {
        skip_white(s, i + 1)
    } else {
        i
    }
}

/// The position behind the last character of `s` before `j`, but not before `i`, that is no white
/// space.
pub open spec fn skip_white_back(s: Seq<char>, i: int, j: int) -> int
    decreases j - i,
{
    if i < j <= s.len() && white_space(s[j - 1]) {
        skip_white_back(s, i, j - 1)
    } else {
        j
    }
}

/// The text `s` without the white space at its ends.
pub open spec fn trimmed(s: Seq<char>) -> Seq<char> {
    let i = skip_white(s, 0);
    s.subrange(i, skip_white_back(s, i, s.len() as int))
}

/// The text of the decimal digit `d`.
pub open spec fn digit_char(d: nat) -> char {
    (('0' as nat) + d) as char
}

/// The decimal numeral of `n`, without leading zeros.
pub open spec fn decimal_text(n: nat) -> Seq<char>
    decreases n,
{
    if n < 10 {
        seq![digit_char(n)]
    } else {
        decimal_text(n / 10).push(digit_char(n % 10))
    }
}

/// Whether `s` holds white space only.
pub fn is_blank(s: &str) -> (b: bool)
    ensures
        b == blank(s@),
{
    let n: usize = s.unicode_len();
    let mut i: usize = 0;
    while i < n
        invariant
            n == s@.len(),
            i <= n,
            forall|j: int| 0 <= j < i ==> white_space(#[trigger] s@[j]),
        decreases n - i,
    {
        let c = s.get_char(i);
        if !c.is_whitespace() {
            return false;
        }
        i = i + 1;
    }
    true
}

/// `s` without the white space at its ends.
pub fn trim(s: &str) -> (t: String)
    ensures
        t@ == trimmed(s@),
{
    let n: usize = s.unicode_len();
    let mut i: usize = 0;
    while i < n && s.get_char(i).is_whitespace()
        invariant
            n == s@.len(),
            i <= n,
            skip_white(s@, 0) == skip_white(s@, i as int),
        decreases n - i,
    {
        i = i + 1;
    }
    let mut j: usize = n;
    while i < j && s.get_char(j - 1).is_whitespace()
        invariant
            n == s@.len(),
            i <= j <= n,
            skip_white_back(s@, i as int, n as int) == skip_white_back(s@, i as int, j as int),
        decreases j - i,
    {
        j = j - 1;
    }
    s.substring_char(i, j).to_owned()
}

/// Whether `s` and `t` are the same text.
pub fn same(s: &str, t: &str) -> (b: bool)
    ensures
        b == (s@ == t@),
{
    if s.unicode_len() != t.unicode_len() {
        return false;
    }
    let b = has_prefix(s, t);
    proof {
        assert(s@ =~= s@.subrange(0, s@.len() as int));
    }
    b
}

/// Whether `s` starts with `p`.
pub fn has_prefix(s: &str, p: &str) -> (b: bool)
    ensures
        b == p@.is_prefix_of(s@),
{
    let n: usize = p.unicode_len();
    if s.unicode_len() < n {
        return false;
    }
    let mut i: usize = 0;
    while i < n
        invariant
            n == p@.len(),
            n <= s@.len(),
            i <= n,
            forall|j: int| 0 <= j < i ==> p@[j] == s@[j],
        decreases n - i,
    {
        if p.get_char(i) != s.get_char(i) {
            assert(p@[i as int] != s@.subrange(0, n as int)[i as int]);
            return false;
        }
        i = i + 1;
    }
    true
}

/// `a` followed by `b`.
pub fn join(a: &str, b: &str) -> (s: String)
    ensures
        s@ == a@ + b@,
{
    let mut s: String = a.to_owned();
    s.append(b);
    s
}

/// `a`, `b` and `c`, one after the other.
pub fn join3(a: &str, b: &str, c: &str) -> (s: String)
    ensures
        s@ == a@ + b@ + c@,
{
    let mut s: String = join(a, b);
    s.append(c);
    s
}

/// `a`, `b`, `c` and `d`, one after the other.
pub fn join4(a: &str, b: &str, c: &str, d: &str) -> (s: String)
    ensures
        s@ == a@ + b@ + c@ + d@,
{
    let mut s: String = join3(a, b, c);
    s.append(d);
    s
}

/// `a`, `b`, `c`, `d` and `e`, one after the other.
pub fn join5(a: &str, b: &str, c: &str, d: &str, e: &str) -> (s: String)
    ensures
        s@ == a@ + b@ + c@ + d@ + e@,
{
    let mut s: String = join4(a, b, c, d);
    s.append(e);
    s
}

/// The text of one decimal digit.
fn digit(d: u64) -> (s: &'static str)
    requires
        d < 10,
    ensures
        s@ == seq![digit_char(d as nat)],
{
    proof {
        reveal_strlit("0");
        reveal_strlit("1");
        reveal_strlit("2");
        reveal_strlit("3");
        reveal_strlit("4");
        reveal_strlit("5");
        reveal_strlit("6");
        reveal_strlit("7");
        reveal_strlit("8");
        reveal_strlit("9");
    }
    match d {
        0 => "0",
        1 => "1",
        2 => "2",
        3 => "3",
        4 => "4",
        5 => "5",
        6 => "6",
        7 => "7",
        8 => "8",
        _ => "9",
    }
}

/// The decimal numeral of `n`.
pub fn decimal(n: u64) -> (s: String)
    ensures
        s@ == decimal_text(n as nat),
    decreases n,
{
    if n < 10 {
        digit(n).to_owned()
    } else {
        let mut s: String = decimal(n / 10);
        s.append(digit(n % 10));
        s
    }
}

// What holds of the operations on all texts and numbers.

proof fn skipped_is_white(s: Seq<char>, i: int)
    requires
        0 <= i <= s.len(),
    ensures
        i <= skip_white(s, i) <= s.len(),
        forall|k: int| i <= k < skip_white(s, i) ==> white_space(#[trigger] s[k]),
        skip_white(s, i) < s.len() ==> !white_space(s[skip_white(s, i)]),
    decreases s.len() - i,
{
    if i < s.len() && white_space(s[i]) {
        skipped_is_white(s, i + 1);
    }
}

proof fn skipped_back_is_white(s: Seq<char>, i: int, j: int)
    requires
        0 <= i <= j <= s.len(),
    ensures
        i <= skip_white_back(s, i, j) <= j,
        forall|k: int| skip_white_back(s, i, j) <= k < j ==> white_space(#[trigger] s[k]),
        skip_white_back(s, i, j) > i ==> !white_space(s[skip_white_back(s, i, j) - 1]),
    decreases j - i,
{
    if i < j && white_space(s[j - 1]) {
        skipped_back_is_white(s, i, j - 1);
    }
}

/// Trimming takes white space away at the ends, and nothing else: what is left is one piece of the
/// text that neither starts nor ends with white space, and all before and behind it is white space.
pub proof fn trimming_takes_the_ends(s: Seq<char>)
    ensures
        exists|i: int, j: int|
            0 <= i <= j <= s.len() && trimmed(s) == s.subrange(i, j) && blank(
                #[trigger] s.subrange(0, i),
            ) && blank(#[trigger] s.subrange(j, s.len() as int)),
        trimmed(s).len() > 0 ==> !white_space(trimmed(s).first()) && !white_space(
            trimmed(s).last(),
        ),
{
    let i = skip_white(s, 0);
    skipped_is_white(s, 0);
    let j = skip_white_back(s, i, s.len() as int);
    skipped_back_is_white(s, i, s.len() as int);
    assert(blank(s.subrange(0, i)));
    assert(blank(s.subrange(j, s.len() as int)));
}

/// The number that decimal digits stand for, the most significant one first.
pub open spec fn number_of(s: Seq<char>) -> int
    decreases s.len(),
{
    if s.len() == 0 {
        0
    } else {
        10 * number_of(s.drop_last()) + (s.last() as int - '0' as int)
    }
}

/// A numeral reads back as its number. It is made of digits, and starts with a zero only where it
/// is the numeral of zero.
pub proof fn numerals_read_back(n: nat)
    ensures
        number_of(decimal_text(n)) == n,
        decimal_text(n).len() > 0,
        forall|i: int|
            0 <= i < decimal_text(n).len() ==> '0' <= #[trigger] decimal_text(n)[i] <= '9',
        decimal_text(n)[0] == '0' ==> n == 0,
    decreases n,
{
    if n < 10 {
        assert(decimal_text(n).drop_last() =~= Seq::<char>::empty());
        assert(number_of(Seq::<char>::empty()) == 0);
    } else {
        numerals_read_back(n / 10);
        assert(decimal_text(n).drop_last() =~= decimal_text(n / 10));
    }
}

} // verus!
