use vstd::prelude::*;

verus! {

/// The positions scanned from `i` up to the first `c`, or the length when
/// there is none.
pub open spec fn find_from(s: Seq<char>, i: nat, c: char) -> nat
    decreases s.len() - i,
{
    if i >= s.len() {
        s.len()
    } else if s[i as int] == c {
        i
    } else {
        find_from(s, i + 1, c)
    }
}

pub proof fn lemma_find_from_bounds(s: Seq<char>, i: nat, c: char)
    requires
        i <= s.len(),
    ensures
        i <= find_from(s, i, c) <= s.len(),
    decreases s.len() - i,
{
    if i < s.len() && s[i as int] != c {
        lemma_find_from_bounds(s, i + 1, c);
    }
}

/// First position at or after `i` that holds `c`, or `n` when none does.
pub fn find_char(s: &str, n: usize, i: usize, c: char) -> (r: usize)
    requires
        n == s@.len(),
        i <= n,
    ensures
        r == find_from(s@, i as nat, c),
        i <= r <= n,
{
    let mut j: usize = i;
    while j < n
        invariant
            n == s@.len(),
            i <= j <= n,
            find_from(s@, i as nat, c) == find_from(s@, j as nat, c),
        decreases n - j,
    {
        if s.get_char(j) == c {
            return j;
        }
        j = j + 1;
    }
    j
}

pub open spec fn is_space(c: char) -> bool {
    c == ' ' || c == '\n' || c == '\t' || c == '\r'
}

pub open spec fn is_digit(c: char) -> bool {
    '0' <= c && c <= '9'
}

pub open spec fn all_digits(s: Seq<char>, lo: int, hi: int) -> bool {
    forall|j: int| lo <= j < hi ==> is_digit(#[trigger] s[j])
}

/// Length of a leading `+` or `-`, if any.
pub open spec fn sign_len(s: Seq<char>) -> nat {
    if s.len() > 0 && (s[0] == '+' || s[0] == '-') {
        1
    } else {
        0
    }
}

pub open spec fn is_exp_mark(c: char) -> bool {
    c == 'e' || c == 'E'
}

/// First position at or after `i` that holds an exponent mark, or the length.
pub open spec fn exp_from(s: Seq<char>, i: nat) -> nat
    decreases s.len() - i,
{
    if i >= s.len() {
        s.len()
    } else if is_exp_mark(s[i as int]) {
        i
    } else {
        exp_from(s, i + 1)
    }
}

/// Digits with at most one decimal point, and at least one digit on either
/// side of it: `12`, `1.5`, `1.`, `.5`.
pub open spec fn is_decimal(s: Seq<char>) -> bool {
    let p = find_from(s, 0, '.');
    &&& all_digits(s, 0, p as int)
    &&& if p == s.len() {
        s.len() > 0
    } else {
        s.len() >= 2 && all_digits(s, (p + 1) as int, s.len() as int)
    }
}

/// Digits, optionally preceded by a sign: the exponent of a float literal.
pub open spec fn is_exponent(s: Seq<char>) -> bool {
    s.len() > sign_len(s) && all_digits(s, sign_len(s) as int, s.len() as int)
}

/// A finite float literal: an optional sign, a decimal, and an optional
/// exponent `e` or `E` followed by an optionally signed integer.
pub open spec fn is_number(s: Seq<char>) -> bool {
    let k = sign_len(s);
    let e = exp_from(s, k);
    &&& is_decimal(s.subrange(k as int, e as int))
    &&& (e == s.len() || is_exponent(s.subrange((e + 1) as int, s.len() as int)))
}

/// A float literal greater than zero: no minus sign, and a non-zero digit
/// before the exponent.
pub open spec fn is_positive_number(s: Seq<char>) -> bool {
    let k = sign_len(s);
    &&& is_number(s)
    &&& s[0] != '-'
    &&& exists|j: int| k <= j < exp_from(s, k) && is_digit(s[j]) && s[j] != '0'
}

fn digits_between(s: &str, lo: usize, hi: usize) -> (r: bool)
    requires
        lo <= hi <= s@.len(),
    ensures
        r == all_digits(s@, lo as int, hi as int),
{
    let mut j: usize = lo;
    while j < hi
        invariant
            lo <= j <= hi <= s@.len(),
            all_digits(s@, lo as int, j as int),
        decreases hi - j,
    {
        let c = s.get_char(j);
        if !('0' <= c && c <= '9') {
            return false;
        }
        j = j + 1;
    }
    true
}

fn sign_len_of(s: &str, n: usize) -> (r: usize)
    requires
        n == s@.len(),
    ensures
        r == sign_len(s@),
{
    if n > 0 {
        let c = s.get_char(0);
        if c == '+' || c == '-' {
            return 1;
        }
    }
    0
}

fn find_exponent(s: &str, n: usize, i: usize) -> (r: usize)
    requires
        n == s@.len(),
        i <= n,
    ensures
        r == exp_from(s@, i as nat),
        i <= r <= n,
{
    let mut j: usize = i;
    while j < n
        invariant
            n == s@.len(),
            i <= j <= n,
            exp_from(s@, i as nat) == exp_from(s@, j as nat),
        decreases n - j,
    {
        let c = s.get_char(j);
        if c == 'e' || c == 'E' {
            return j;
        }
        j = j + 1;
    }
    j
}

/// Whether `s` is an unsigned decimal.
pub fn check_decimal(s: &str) -> (r: bool)
    ensures
        r == is_decimal(s@),
{
    let n = s.unicode_len();
    let p = find_char(s, n, 0, '.');
    if !digits_between(s, 0, p) {
        return false;
    }
    if p == n {
        n > 0
    } else {
        n >= 2 && digits_between(s, p + 1, n)
    }
}

fn check_exponent(s: &str) -> (r: bool)
    ensures
        r == is_exponent(s@),
{
    let n = s.unicode_len();
    let k = sign_len_of(s, n);
    n > k && digits_between(s, k, n)
}

/// Whether `s` is a finite float literal.
pub fn check_number(s: &str) -> (r: bool)
    ensures
        r == is_number(s@),
{
    let n = s.unicode_len();
    let k = sign_len_of(s, n);
    let e = find_exponent(s, n, k);
    if !check_decimal(s.substring_char(k, e)) {
        return false;
    }
    if e == n {
        return true;
    }
    check_exponent(s.substring_char(e + 1, n))
}

/// Whether `s` is a float literal greater than zero.
pub fn check_positive_number(s: &str) -> (r: bool)
    ensures
        r == is_positive_number(s@),
{
    if !check_number(s) {
        return false;
    }
    let n = s.unicode_len();
    let k = sign_len_of(s, n);
    let e = find_exponent(s, n, k);
    if n == 0 || s.get_char(0) == '-' {
        return false;
    }
    let mut j: usize = k;
    while j < e
        invariant
            n == s@.len(),
            k == sign_len(s@),
            e == exp_from(s@, k as nat),
            k <= j <= e <= n,
            is_number(s@),
            s@[0] != '-',
            forall|t: int| k <= t < j ==> !(is_digit(s@[t]) && s@[t] != '0'),
        decreases e - j,
    {
        let c = s.get_char(j);
        if '1' <= c && c <= '9' {
            assert(is_digit(s@[j as int]) && s@[j as int] != '0');
            return true;
        }
        j = j + 1;
    }
    false
}

/// Whether `s` spells exactly the characters of `lit`.
pub fn same_text(s: &str, lit: &str) -> (r: bool)
    ensures
        r == (s@ == lit@),
{
    let n = s.unicode_len();
    if n != lit.unicode_len() {
        return false;
    }
    let mut i: usize = 0;
    while i < n
        invariant
            n == s@.len() == lit@.len(),
            i <= n,
            forall|j: int| 0 <= j < i ==> s@[j] == lit@[j],
        decreases n - i,
    {
        if s.get_char(i) != lit.get_char(i) {
            return false;
        }
        i = i + 1;
    }
    assert(s@ =~= lit@);
    true
}

/// The character of a decimal digit.
pub open spec fn digit_char(d: nat) -> char {
    seq!['0', '1', '2', '3', '4', '5', '6', '7', '8', '9'][d as int]
}

/// The decimal numeral of `n`: no sign, no leading zeros, no separators.
pub open spec fn decimal(n: nat) -> Seq<char>
    decreases n,
{
    if n < 10 {
        seq![digit_char(n)]
    } else {
        decimal(n / 10).push(digit_char(n % 10))
    }
}

/// A numeral never begins with a zero, unless it is the numeral of zero.
pub proof fn lemma_decimal_no_leading_zero(n: nat)
    requires
        n > 0,
    ensures
        decimal(n).len() > 0,
        decimal(n)[0] != '0',
    decreases n,
{
    if n >= 10 {
        lemma_decimal_no_leading_zero(n / 10);
    }
}

fn digit_text(d: u32) -> (r: &'static str)
    requires
        d < 10,
    ensures
        r@ == seq![digit_char(d as nat)],
{
    let r = match d {
        0 => {
            proof {
                reveal_strlit("0");
            }
            "0"
        },
        1 => {
            proof {
                reveal_strlit("1");
            }
            "1"
        },
        2 => {
            proof {
                reveal_strlit("2");
            }
            "2"
        },
        3 => {
            proof {
                reveal_strlit("3");
            }
            "3"
        },
        4 => {
            proof {
                reveal_strlit("4");
            }
            "4"
        },
        5 => {
            proof {
                reveal_strlit("5");
            }
            "5"
        },
        6 => {
            proof {
                reveal_strlit("6");
            }
            "6"
        },
        7 => {
            proof {
                reveal_strlit("7");
            }
            "7"
        },
        8 => {
            proof {
                reveal_strlit("8");
            }
            "8"
        },
        _ => {
            proof {
                reveal_strlit("9");
            }
            "9"
        },
    };
    assert(r@ =~= seq![digit_char(d as nat)]);
    r
}

fn append_decimal(out: &mut String, n: u32)
    ensures
        final(out)@ == old(out)@ + decimal(n as nat),
    decreases n,
{
    if n >= 10 {
        append_decimal(out, n / 10);
    }
    out.append(digit_text(n % 10));
    assert(out@ =~= old(out)@ + decimal(n as nat));
}

/// The decimal numeral of `n`.
pub fn decimal_string(n: u32) -> (r: String)
    ensures
        r@ == decimal(n as nat),
{
    let mut out = String::new();
    append_decimal(&mut out, n);
    assert(out@ =~= decimal(n as nat));
    out
}

} // verus!
