//! Small pieces of text building shared by the other modules.
use vstd::prelude::*;

verus! {

pub open spec fn digit_char(d: nat) -> char {
    if d == 0 { '0' } else if d == 1 { '1' } else if d == 2 { '2' } else if d == 3 { '3' }
    else if d == 4 { '4' } else if d == 5 { '5' } else if d == 6 { '6' } else if d == 7 { '7' }
    else if d == 8 { '8' } else { '9' }
}

/// The decimal digits of `n`, most significant first, without leading zeros.
pub open spec fn decimal_of(n: nat) -> Seq<char>
    decreases n,
{
    if n < 10 {
        seq![digit_char(n)]
    } else {
        decimal_of(n / 10).push(digit_char(n % 10))
    }
}

fn digit_str(d: u64) -> (r: &'static str)
    requires
        d < 10,
    ensures
        r@ == seq![digit_char(d as nat)],
{
    proof {
        reveal_strlit("0"); reveal_strlit("1"); reveal_strlit("2"); reveal_strlit("3");
        reveal_strlit("4"); reveal_strlit("5"); reveal_strlit("6"); reveal_strlit("7");
        reveal_strlit("8"); reveal_strlit("9");
    }
    if d == 0 { "0" } else if d == 1 { "1" } else if d == 2 { "2" } else if d == 3 { "3" }
    else if d == 4 { "4" } else if d == 5 { "5" } else if d == 6 { "6" } else if d == 7 { "7" }
    else if d == 8 { "8" } else { "9" }
}

/// Writes `n` in decimal.
pub fn decimal(n: u64) -> (r: String)
    ensures
        r@ == decimal_of(n as nat),
    decreases n,
{
    if n < 10 {
        String::from_str(digit_str(n))
    } else {
        let head = decimal(n / 10);
        let r = head.concat(digit_str(n % 10));
        assert(r@ =~= decimal_of(n as nat));
        r
    }
}

/// Whether `c` occurs in `s`.
pub fn contains_char(s: &str, c: char) -> (r: bool)
    ensures
        r == s@.contains(c),
{
    let n = s.unicode_len();
    let mut i: usize = 0;
    while i < n
        invariant
            n == s@.len(),
            i <= n,
            forall|j: int| 0 <= j < i ==> s@[j] != c,
        decreases n - i,
    {
        if s.get_char(i) == c {
            return true;
        }
        i = i + 1;
    }
    false
}

/// The first position at or after `from` where `c` occurs in `t`, or the
/// length of `t` where it does not.
pub open spec fn index_of(t: Seq<char>, c: char, from: int) -> int
    decreases t.len() - from,
{
    if from < 0 || from >= t.len() {
        t.len() as int
    } else if t[from] == c {
        from
    } else {
        index_of(t, c, from + 1)
    }
}

pub fn find_char(s: &str, c: char, from: usize) -> (r: usize)
    requires
        from <= s@.len(),
    ensures
        r as int == index_of(s@, c, from as int),
        from <= r <= s@.len(),
{
    let n = s.unicode_len();
    let mut i: usize = from;
    while i < n
        invariant
            n == s@.len(),
            from <= i <= n,
            index_of(s@, c, i as int) == index_of(s@, c, from as int),
        decreases n - i,
    {
        if s.get_char(i) == c {
            return i;
        }
        i = i + 1;
    }
    i
}

/// The text from the second character after `scheme` on, where `header`
/// begins with `scheme` and has more than one character after it.
pub open spec fn scheme_payload(header: Seq<char>, scheme: Seq<char>) -> Option<Seq<char>> {
    let k = scheme.len() as int;
    if header.len() > k + 1 && header.subrange(0, k) == scheme {
        Some(header.subrange(k + 1, header.len() as int))
    } else {
        None
    }
}

/// Whether cutting `header` one byte after a leading `scheme` falls between
/// characters: that is so unless `header` begins with `scheme` and the
/// character after it takes more than one byte.
pub open spec fn cut_after_scheme_safe(header: Seq<char>, scheme: Seq<char>) -> bool {
    let k = scheme.len() as int;
    (header.len() > k && header.subrange(0, k) == scheme) ==> (header[k] as u32) < 0x80
}

pub fn cut_after_scheme_is_safe(header: &str, scheme: &str) -> (r: bool)
    ensures
        r == cut_after_scheme_safe(header@, scheme@),
{
    let n = header.unicode_len();
    let k = scheme.unicode_len();
    if n <= k {
        return true;
    }
    let mut i: usize = 0;
    while i < k
        invariant
            k == scheme@.len(),
            n == header@.len(),
            k < n,
            i <= k,
            forall|j: int| 0 <= j < i ==> header@[j] == scheme@[j],
        decreases k - i,
    {
        if header.get_char(i) != scheme.get_char(i) {
            assert(header@.subrange(0, k as int)[i as int] != scheme@[i as int]);
            return true;
        }
        i = i + 1;
    }
    assert(header@.subrange(0, k as int) =~= scheme@);
    (header.get_char(k) as u32) < 0x80
}

/// Whether two texts are the same characters.
pub fn same_text(a: &str, b: &str) -> (r: bool)
    ensures
        r == (a@ == b@),
{
    let n = a.unicode_len();
    if n != b.unicode_len() {
        return false;
    }
    let mut i: usize = 0;
    while i < n
        invariant
            n == a@.len(),
            n == b@.len(),
            i <= n,
            forall|j: int| 0 <= j < i ==> a@[j] == b@[j],
        decreases n - i,
    {
        if a.get_char(i) != b.get_char(i) {
            return false;
        }
        i = i + 1;
    }
    assert(a@ =~= b@);
    true
}

pub open spec fn opt_str(o: Option<&str>) -> Option<Seq<char>> {
    match o {
        Some(s) => Some(s@),
        None => None,
    }
}

pub open spec fn opt_seq(o: Option<String>) -> Option<Seq<char>> {
    match o {
        Some(s) => Some(s@),
        None => None,
    }
}

} // verus!
