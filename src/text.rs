//! Text helpers: decimal formatting of times and paces, and searching in
//! strings by characters.

use vstd::prelude::*;

verus! {

/// Relies on `String::push`, which appends the character to the end of the string.
pub assume_specification[ String::push ](string: &mut String, ch: char)
    ensures
        final(string)@ == old(string)@.push(ch),
;

/// The character of a decimal digit.
pub open spec fn digit_char(d: nat) -> char {
    ((d % 10) + 48) as u8 as char
}

/// The decimal representation of `n`, without leading zeros.
pub open spec fn decimal(n: nat) -> Seq<char>
    decreases n,
{
    if n < 10 {
        seq![digit_char(n)]
    } else {
        decimal(n / 10).push(digit_char(n % 10))
    }
}

/// `n` below 100 in exactly two digits.
pub open spec fn two_digits(n: nat) -> Seq<char> {
    seq![digit_char(n / 10), digit_char(n % 10)]
}

/// The text shown where no pace can be given.
pub open spec fn no_pace_text() -> Seq<char> {
    seq!['-', '-', ':', '-', '-']
}

/// A pace in seconds per kilometre as `minutes:seconds`, or the no-pace text.
pub open spec fn pace_text(pace: Option<nat>) -> Seq<char> {
    match pace {
        Some(p) => decimal(p / 60) + seq![':'] + two_digits(p % 60),
        None => no_pace_text(),
    }
}

/// A duration in seconds as `hours:minutes:seconds`.
pub open spec fn duration_text(secs: nat) -> Seq<char> {
    decimal(secs / 3600) + seq![':'] + two_digits((secs % 3600) / 60) + seq![':'] + two_digits(
        secs % 60,
    )
}

/// Whether `p` occurs in `s` starting at index `i`.
pub open spec fn matches_at(s: Seq<char>, p: Seq<char>, i: int) -> bool {
    &&& 0 <= i
    &&& i + p.len() <= s.len()
    &&& s.subrange(i, i + p.len()) == p
}

/// Whether `p` occurs anywhere in `s`.
pub open spec fn occurs(s: Seq<char>, p: Seq<char>) -> bool {
    exists|i: int| matches_at(s, p, i)
}

/// The first index at or after `start` where `p` occurs in `s`.
pub open spec fn find_from(s: Seq<char>, p: Seq<char>, start: int) -> Option<int>
    decreases s.len() + 1 - start,
{
    if start < 0 || start + p.len() > s.len() {
        None
    } else if matches_at(s, p, start) {
        Some(start)
    } else {
        find_from(s, p, start + 1)
    }
}

fn digit(d: u64) -> (c: char)
    requires
        d < 10,
    ensures
        c == digit_char(d as nat),
{
    ((d as u8) + 48) as char
}

/// Appends the decimal representation of `n`.
pub fn push_decimal(s: &mut String, n: u64)
    ensures
        final(s)@ == old(s)@ + decimal(n as nat),
    decreases n,
{
    if n >= 10 {
        push_decimal(s, n / 10);
    }
    s.push(digit(n % 10));
    proof {
        assert(n < 10 ==> decimal(n as nat) == seq![digit_char(n as nat)]);
    }
    assert(final(s)@ =~= old(s)@ + decimal(n as nat));
}

fn push_two_digits(s: &mut String, n: u64)
    requires
        n < 100,
    ensures
        final(s)@ == old(s)@ + two_digits(n as nat),
{
    s.push(digit(n / 10));
    s.push(digit(n % 10));
    assert(final(s)@ =~= old(s)@ + two_digits(n as nat));
}

/// A pace in seconds per kilometre as `m:ss`, or `--:--` where there is none.
pub fn format_pace(pace: Option<u64>) -> (r: String)
    ensures
        r@ == pace_text(
            match pace {
                Some(p) => Some(p as nat),
                None => None,
            },
        ),
{
    let mut s = String::new();
    match pace {
        Some(p) => {
            push_decimal(&mut s, p / 60);
            s.push(':');
            push_two_digits(&mut s, p % 60);
            assert(s@ =~= decimal((p / 60) as nat) + seq![':'] + two_digits((p % 60) as nat));
        },
        None => {
            s.push('-');
            s.push('-');
            s.push(':');
            s.push('-');
            s.push('-');
            assert(s@ =~= no_pace_text());
        },
    }
    s
}

/// A duration in seconds as `h:mm:ss`.
pub fn format_duration(secs: u32) -> (r: String)
    ensures
        r@ == duration_text(secs as nat),
{
    let n = secs as u64;
    let mut s = String::new();
    push_decimal(&mut s, n / 3600);
    s.push(':');
    push_two_digits(&mut s, (n % 3600) / 60);
    s.push(':');
    push_two_digits(&mut s, n % 60);
    assert(s@ =~= duration_text(secs as nat));
    s
}

/// The characters of `s`, in order.
pub fn chars_of(s: &str) -> (r: Vec<char>)
    ensures
        r@ == s@,
        r@.len() <= usize::MAX,
{
    let n = s.unicode_len();
    let mut v: Vec<char> = Vec::new();
    let mut i: usize = 0;
    while i < n
        invariant
            n == s@.len(),
            i <= n,
            v@ == s@.subrange(0, i as int),
        decreases n - i,
    {
        v.push(s.get_char(i));
        i = i + 1;
        assert(v@ =~= s@.subrange(0, i as int));
    }
    assert(v@ =~= s@);
    v
}

/// A string holding the characters of `v[from..to]`.
pub fn string_of(v: &Vec<char>, from: usize, to: usize) -> (r: String)
    requires
        from <= to <= v@.len(),
    ensures
        r@ == v@.subrange(from as int, to as int),
{
    let mut s = String::new();
    let mut i: usize = from;
    while i < to
        invariant
            from <= i <= to <= v@.len(),
            s@ == v@.subrange(from as int, i as int),
        decreases to - i,
    {
        s.push(v[i]);
        i = i + 1;
        assert(s@ =~= v@.subrange(from as int, i as int));
    }
    s
}

/// Whether `p` occurs in `s` at index `i`.
pub fn matches_here(s: &Vec<char>, p: &Vec<char>, i: usize) -> (r: bool)
    ensures
        r == matches_at(s@, p@, i as int),
{
    if p.len() > s.len() || i > s.len() - p.len() {
        return false;
    }
    let mut k: usize = 0;
    while k < p.len()
        invariant
            i + p@.len() <= s@.len() <= usize::MAX,
            k <= p@.len(),
            forall|j: int| 0 <= j < k ==> s@[i + j] == p@[j],
        decreases p@.len() - k,
    {
        if s[i + k] != p[k] {
            assert(s@.subrange(i as int, i + p@.len())[k as int] != p@[k as int]);
            return false;
        }
        k = k + 1;
    }
    assert(s@.subrange(i as int, i + p@.len()) =~= p@);
    true
}

/// The first index at or after `start` where `p` occurs in `s`.
pub fn find_text(s: &Vec<char>, p: &Vec<char>, start: usize) -> (r: Option<usize>)
    ensures
        match r {
            Some(i) => find_from(s@, p@, start as int) == Some(i as int),
            None => find_from(s@, p@, start as int) is None,
        },
{
    if p.len() > s.len() {
        assert(find_from(s@, p@, start as int) is None);
        return None;
    }
    let last = s.len() - p.len();
    let mut i: usize = start;
    while i <= last
        invariant
            start <= i,
            last == s@.len() - p@.len(),
            find_from(s@, p@, start as int) == find_from(s@, p@, i as int),
        decreases last + 1 - i,
    {
        if matches_here(s, p, i) {
            return Some(i);
        }
        if i == last {
            assert(find_from(s@, p@, i + 1) is None);
            return None;
        }
        i = i + 1;
    }
    None
}

/// A match found from some start lies at or after it, and no earlier one
/// follows that start.
pub proof fn lemma_find_from(s: Seq<char>, p: Seq<char>, start: int)
    requires
        0 <= start,
    ensures
        find_from(s, p, start) matches Some(i) ==> start <= i && matches_at(s, p, i) && forall|
            j: int,
        | start <= j < i ==> !matches_at(s, p, j),
        find_from(s, p, start) is None ==> forall|j: int| start <= j ==> !matches_at(s, p, j),
    decreases s.len() + 1 - start,
{
    if start + p.len() > s.len() {
    } else if matches_at(s, p, start) {
    } else {
        lemma_find_from(s, p, start + 1);
    }
}

/// Whether `p` occurs anywhere in `s`.
pub fn contains_text(s: &str, p: &str) -> (r: bool)
    ensures
        r == occurs(s@, p@),
{
    let sv = chars_of(s);
    let pv = chars_of(p);
    let found = find_text(&sv, &pv, 0);
    proof {
        lemma_find_from(s@, p@, 0);
    }
    found.is_some()
}

/// Whether two strings hold the same characters.
pub fn same_text(a: &str, b: &str) -> (r: bool)
    ensures
        r == (a@ == b@),
{
    let av = chars_of(a);
    let bv = chars_of(b);
    if av.len() != bv.len() {
        return false;
    }
    let mut k: usize = 0;
    while k < av.len()
        invariant
            av@ == a@,
            bv@ == b@,
            av@.len() == bv@.len(),
            k <= av@.len(),
            forall|j: int| 0 <= j < k ==> av@[j] == bv@[j],
        decreases av@.len() - k,
    {
        if av[k] != bv[k] {
            assert(av@[k as int] != bv@[k as int]);
            return false;
        }
        k = k + 1;
    }
    assert(av@ =~= bv@);
    true
}

} // verus!
