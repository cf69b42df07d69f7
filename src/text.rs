use vstd::prelude::*;
use vstd::string::*;

verus! {

pub open spec fn is_digit(c: char) -> bool {
    '0' <= c && c <= '9'
}

pub open spec fn digit_value(c: char) -> int {
    c as int - '0' as int
}

pub open spec fn all_digits(t: Seq<char>) -> bool {
    forall|i: int| 0 <= i < t.len() ==> is_digit(#[trigger] t[i])
}

/// Decimal value of a run of digits (0 for the empty run).
pub open spec fn digits_value(t: Seq<char>) -> nat
    decreases t.len(),
{
    if t.len() == 0 {
        0
    } else {
        (digits_value(t.drop_last()) * 10 + digit_value(t.last())) as nat
    }
}

/// An unsigned integer written as one or more ASCII digits.
pub open spec fn u64_text(t: Seq<char>) -> Option<u64> {
    if t.len() > 0 && all_digits(t) && digits_value(t) <= u64::MAX {
        Some(digits_value(t) as u64)
    } else {
        None
    }
}

/// Index of the first `c` at or after `i`, or -1.
pub open spec fn find_from(t: Seq<char>, c: char, i: int) -> int
    decreases t.len() - i,
{
    if i < 0 || i >= t.len() {
        -1
    } else if t[i] == c {
        i
    } else {
        find_from(t, c, i + 1)
    }
}

/// Thousandths of the first three fraction digits, zero-padded.
pub open spec fn fraction_milli(f: Seq<char>) -> nat {
    if f.len() >= 3 {
        digits_value(f.subrange(0, 3))
    } else if f.len() == 2 {
        digits_value(f) * 10
    } else if f.len() == 1 {
        digits_value(f) * 100
    } else {
        0
    }
}

/// A decimal number `I`, `I.F`, `.F` or `I.` in thousandths, with the
/// fraction truncated after three digits.
pub open spec fn decimal_milli(t: Seq<char>) -> Option<nat> {
    let d = find_from(t, '.', 0);
    if d < 0 {
        if t.len() > 0 && all_digits(t) {
            Some(digits_value(t) * 1000)
        } else {
            None
        }
    } else {
        let ip = t.subrange(0, d);
        let fp = t.subrange(d + 1, t.len() as int);
        if (ip.len() > 0 || fp.len() > 0) && all_digits(ip) && all_digits(fp) {
            Some(digits_value(ip) * 1000 + fraction_milli(fp))
        } else {
            None
        }
    }
}

/// `decimal_milli` where it fits in 64 bits.
pub open spec fn decimal_milli_u64(t: Seq<char>) -> Option<u64> {
    match decimal_milli(t) {
        Some(v) => if v <= u64::MAX {
            Some(v as u64)
        } else {
            None
        },
        None => None,
    }
}

/// The characters of a string, one per element.
pub fn chars_of(s: &str) -> (r: Vec<char>)
    ensures
        r@ == s@,
{
    let n = s.unicode_len();
    let mut out: Vec<char> = Vec::new();
    let mut i: usize = 0;
    while i < n
        invariant
            n == s@.len(),
            i <= n,
            out@ == s@.subrange(0, i as int),
        decreases n - i,
    {
        out.push(s.get_char(i));
        i = i + 1;
        proof {
            assert(out@ =~= s@.subrange(0, i as int));
        }
    }
    proof {
        assert(s@.subrange(0, n as int) =~= s@);
    }
    out
}

/// Elements `from..to` of `t`.
pub fn slice_chars(t: &Vec<char>, from: usize, to: usize) -> (r: Vec<char>)
    requires
        from <= to <= t@.len(),
    ensures
        r@ == t@.subrange(from as int, to as int),
{
    let mut out: Vec<char> = Vec::new();
    let mut i: usize = from;
    while i < to
        invariant
            from <= i <= to <= t@.len(),
            out@ == t@.subrange(from as int, i as int),
        decreases to - i,
    {
        out.push(t[i]);
        i = i + 1;
        proof {
            assert(out@ =~= t@.subrange(from as int, i as int));
        }
    }
    out
}

/// Whether `t` holds exactly the characters of `lit`.
pub fn equals_text(t: &Vec<char>, lit: &str) -> (r: bool)
    ensures
        r == (t@ == lit@),
{
    let n = lit.unicode_len();
    if n != t.len() {
        return false;
    }
    let mut i: usize = 0;
    while i < n
        invariant
            n == lit@.len() == t@.len(),
            i <= n,
            forall|k: int| 0 <= k < i ==> t@[k] == lit@[k],
        decreases n - i,
    {
        if t[i] != lit.get_char(i) {
            return false;
        }
        i = i + 1;
    }
    proof {
        assert(t@ =~= lit@);
    }
    true
}

/// Whether two strings hold the same characters.
pub fn same_text(a: &str, b: &str) -> (r: bool)
    ensures
        r == (a@ == b@),
{
    let n = a.unicode_len();
    if n != b.unicode_len() {
        return false;
    }
    let mut i: usize = 0;
    while i < n
        invariant
            n == a@.len() == b@.len(),
            i <= n,
            forall|k: int| 0 <= k < i ==> a@[k] == b@[k],
        decreases n - i,
    {
        if a.get_char(i) != b.get_char(i) {
            return false;
        }
        i = i + 1;
    }
    proof {
        assert(a@ =~= b@);
    }
    true
}

/// First position of `c` in `t`.
pub fn find_char(t: &Vec<char>, c: char) -> (r: Option<usize>)
    ensures
        match r {
            Some(i) => i < t@.len() && find_from(t@, c, 0) == i,
            None => find_from(t@, c, 0) == -1,
        },
{
    let mut i: usize = 0;
    while i < t.len()
        invariant
            i <= t@.len(),
            find_from(t@, c, 0) == find_from(t@, c, i as int),
        decreases t@.len() - i,
    {
        if t[i] == c {
            return Some(i);
        }
        i = i + 1;
    }
    None
}

proof fn lemma_digits_push(t: Seq<char>, c: char)
    requires
        is_digit(c),
    ensures
        digits_value(t.push(c)) == digits_value(t) * 10 + digit_value(c),
{
    assert(t.push(c).drop_last() =~= t);
}

/// Value of `t` when it is all digits and fits; `Some(0)` when empty.
fn digits_u64(t: &Vec<char>) -> (r: Option<u64>)
    ensures
        r == (if all_digits(t@) && digits_value(t@) <= u64::MAX {
            Some(digits_value(t@) as u64)
        } else {
            None::<u64>
        }),
{
    let mut acc: u64 = 0;
    let mut big = false;
    let mut i: usize = 0;
    while i < t.len()
        invariant
            i <= t@.len(),
            all_digits(t@.subrange(0, i as int)),
            big ==> digits_value(t@.subrange(0, i as int)) > u64::MAX,
            !big ==> acc == digits_value(t@.subrange(0, i as int)),
        decreases t@.len() - i,
    {
        let c = t[i];
        if !('0' <= c && c <= '9') {
            proof {
                assert(!is_digit(t@.subrange(0, t@.len() as int)[i as int]));
                assert(t@.subrange(0, t@.len() as int) =~= t@);
            }
            return None;
        }
        let d = (c as u32 - '0' as u32) as u64;
        proof {
            lemma_digits_push(t@.subrange(0, i as int), c);
            assert(t@.subrange(0, i as int).push(c) =~= t@.subrange(0, i as int + 1));
        }
        if !big {
            let next: u128 = acc as u128 * 10 + d as u128;
            if next > u64::MAX as u128 {
                big = true;
            } else {
                acc = next as u64;
            }
        }
        i = i + 1;
    }
    proof {
        assert(t@.subrange(0, t@.len() as int) =~= t@);
    }
    if big {
        None
    } else {
        Some(acc)
    }
}

/// Whether every element of `t` is a digit.
fn only_digits(t: &Vec<char>) -> (r: bool)
    ensures
        r == all_digits(t@),
{
    let mut i: usize = 0;
    while i < t.len()
        invariant
            i <= t@.len(),
            forall|k: int| 0 <= k < i ==> is_digit(#[trigger] t@[k]),
        decreases t@.len() - i,
    {
        let c = t[i];
        if !('0' <= c && c <= '9') {
            return false;
        }
        i = i + 1;
    }
    true
}

/// Parse an unsigned integer written as ASCII digits.
pub fn parse_u64(t: &Vec<char>) -> (r: Option<u64>)
    ensures
        r == u64_text(t@),
{
    if t.len() == 0 {
        return None;
    }
    digits_u64(t)
}

/// Parse a decimal number into thousandths.
pub fn parse_decimal_milli(t: &Vec<char>) -> (r: Option<u64>)
    ensures
        r == decimal_milli_u64(t@),
{
    match find_char(t, '.') {
        None => {
            if t.len() == 0 {
                return None;
            }
            match digits_u64(t) {
                None => None,
                Some(v) => {
                    if v > u64::MAX / 1000 {
                        None
                    } else {
                        Some(v * 1000)
                    }
                },
            }
        },
        Some(d) => {
            let n = t.len();
            let ip = slice_chars(t, 0, d);
            let fp = slice_chars(t, d + 1, n);
            if ip.len() == 0 && fp.len() == 0 {
                return None;
            }
            if !only_digits(&fp) {
                return None;
            }
            let head = if fp.len() >= 3 {
                3
            } else {
                fp.len()
            };
            let f3 = slice_chars(&fp, 0, head);
            proof {
                assert forall|k: int| 0 <= k < f3@.len() implies is_digit(#[trigger] f3@[k]) by {
                    assert(f3@[k] == fp@[k]);
                }
                assert(digits_value(f3@) <= 999) by {
                    lemma_small_digits(f3@);
                }
            }
            let fv = match digits_u64(&f3) {
                Some(v) => v,
                None => 0,
            };
            let frac: u64 = if fp.len() >= 3 {
                fv
            } else if fp.len() == 2 {
                fv * 10
            } else if fp.len() == 1 {
                fv * 100
            } else {
                0
            };
            proof {
                if fp@.len() < 3 {
                    assert(f3@ =~= fp@);
                }
            }
            match digits_u64(&ip) {
                None => None,
                Some(iv) => {
                    if iv > (u64::MAX - frac) / 1000 {
                        None
                    } else {
                        Some(iv * 1000 + frac)
                    }
                },
            }
        },
    }
}

proof fn lemma_small_digits(t: Seq<char>)
    requires
        t.len() <= 3,
        all_digits(t),
    ensures
        digits_value(t) < 1000,
        t.len() <= 2 ==> digits_value(t) < 100,
        t.len() <= 1 ==> digits_value(t) < 10,
    decreases t.len(),
{
    if t.len() > 0 {
        assert(all_digits(t.drop_last()));
        lemma_small_digits(t.drop_last());
        assert(is_digit(t[t.len() - 1]));
    }
}

} // verus!
