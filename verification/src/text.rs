//! Character-level string helpers: decimal rendering, trailing-slash
//! trimming, lexicographic order and concatenation.
use vstd::prelude::*;
use vstd::string::*;

verus! {

/// The decimal digit character for `d`, for `d` in `0..=9`.
pub open spec fn digit_char(d: nat) -> char {
    if d == 0 {
        '0'
    } else if d == 1 {
        '1'
    } else if d == 2 {
        '2'
    } else if d == 3 {
        '3'
    } else if d == 4 {
        '4'
    } else if d == 5 {
        '5'
    } else if d == 6 {
        '6'
    } else if d == 7 {
        '7'
    } else if d == 8 {
        '8'
    } else {
        '9'
    }
}

/// Decimal representation of a natural number, without leading zeros.
pub open spec fn nat_decimal(n: nat) -> Seq<char>
    decreases n,
{
    if n < 10 {
        seq![digit_char(n)]
    } else {
        nat_decimal(n / 10).push(digit_char(n % 10))
    }
}

/// Decimal representation of an integer, with a leading `-` when negative.
pub open spec fn int_decimal(n: int) -> Seq<char> {
    if n < 0 {
        seq!['-'] + nat_decimal((-n) as nat)
    } else {
        nat_decimal(n as nat)
    }
}

/// The text of a boolean: `true` or `false`.
pub open spec fn bool_chars(b: bool) -> Seq<char> {
    if b {
        seq!['t', 'r', 'u', 'e']
    } else {
        seq!['f', 'a', 'l', 's', 'e']
    }
}

/// `s` with every trailing `/` removed.
pub open spec fn trim_end_slashes(s: Seq<char>) -> Seq<char>
    decreases s.len(),
{
    if s.len() > 0 && s.last() == '/' {
        trim_end_slashes(s.drop_last())
    } else {
        s
    }
}

/// Strict lexicographic order on character sequences (by code point).
pub open spec fn lex_less(a: Seq<char>, b: Seq<char>) -> bool
    decreases a.len(),
{
    if a.len() == 0 {
        b.len() > 0
    } else if b.len() == 0 {
        false
    } else if a[0] != b[0] {
        a[0] < b[0]
    } else {
        lex_less(a.drop_first(), b.drop_first())
    }
}

fn digit_str(d: u64) -> (s: &'static str)
    requires
        d < 10,
    ensures
        s@ == seq![digit_char(d as nat)],
{
    if d == 0 {
        proof {
            reveal_strlit("0");
        }
        "0"
    } else if d == 1 {
        proof {
            reveal_strlit("1");
        }
        "1"
    } else if d == 2 {
        proof {
            reveal_strlit("2");
        }
        "2"
    } else if d == 3 {
        proof {
            reveal_strlit("3");
        }
        "3"
    } else if d == 4 {
        proof {
            reveal_strlit("4");
        }
        "4"
    } else if d == 5 {
        proof {
            reveal_strlit("5");
        }
        "5"
    } else if d == 6 {
        proof {
            reveal_strlit("6");
        }
        "6"
    } else if d == 7 {
        proof {
            reveal_strlit("7");
        }
        "7"
    } else if d == 8 {
        proof {
            reveal_strlit("8");
        }
        "8"
    } else {
        proof {
            reveal_strlit("9");
        }
        "9"
    }
}

/// Renders an unsigned number in decimal.
pub fn u64_decimal(n: u64) -> (s: String)
    ensures
        s@ == nat_decimal(n as nat),
    decreases n,
{
    if n < 10 {
        String::from_str(digit_str(n))
    } else {
        let mut s = u64_decimal(n / 10);
        s.append(digit_str(n % 10));
        s
    }
}

/// Renders a signed 32-bit number in decimal, as `i32::to_string` does.
pub fn i32_decimal(n: i32) -> (s: String)
    ensures
        s@ == int_decimal(n as int),
{
    if n < 0 {
        let wide: i64 = n as i64;
        let m: u64 = (0i64 - wide) as u64;
        let digits = u64_decimal(m);
        proof {
            reveal_strlit("-");
        }
        let mut s = String::from_str("-");
        s.append(digits.as_str());
        s
    } else {
        u64_decimal(n as u64)
    }
}

/// Renders a boolean as `true` or `false`, as `bool::to_string` does.
pub fn bool_text(b: bool) -> (s: String)
    ensures
        s@ == bool_chars(b),
{
    if b {
        proof {
            reveal_strlit("true");
        }
        String::from_str("true")
    } else {
        proof {
            reveal_strlit("false");
        }
        String::from_str("false")
    }
}

/// Removes every trailing `/` from `s`.
pub fn trim_trailing_slashes(s: &str) -> (r: String)
    ensures
        r@ == trim_end_slashes(s@),
{
    let n = s.unicode_len();
    let mut k = n;
    assert(s@.take(n as int) =~= s@);
    while k > 0 && s.get_char(k - 1) == '/'
        invariant
            k <= n,
            n == s@.len(),
            trim_end_slashes(s@) == trim_end_slashes(s@.take(k as int)),
        decreases k,
    {
        assert(s@.take(k as int).drop_last() =~= s@.take(k - 1));
        k = k - 1;
    }
    let kept = s.substring_char(0, k);
    assert(kept@ =~= s@.take(k as int));
    String::from_str(kept)
}

/// Joins two strings.
pub fn concat2(a: &str, b: &str) -> (r: String)
    ensures
        r@ == a@ + b@,
{
    let mut r = String::from_str(a);
    r.append(b);
    r
}

/// Joins three strings.
pub fn concat3(a: &str, b: &str, c: &str) -> (r: String)
    ensures
        r@ == a@ + b@ + c@,
{
    let mut r = String::from_str(a);
    r.append(b);
    r.append(c);
    r
}

/// Compares two strings by the lexicographic order of their characters.
pub fn str_less(a: &str, b: &str) -> (lt: bool)
    ensures
        lt == lex_less(a@, b@),
{
    let la = a.unicode_len();
    let lb = b.unicode_len();
    let mut i: usize = 0;
    assert(a@.skip(0) =~= a@);
    assert(b@.skip(0) =~= b@);
    while i < la && i < lb
        invariant
            i <= la,
            i <= lb,
            la == a@.len(),
            lb == b@.len(),
            lex_less(a@, b@) == lex_less(a@.skip(i as int), b@.skip(i as int)),
        decreases la - i,
    {
        let ca = a.get_char(i);
        let cb = b.get_char(i);
        if ca != cb {
            return ca < cb;
        }
        assert(a@.skip(i as int).drop_first() =~= a@.skip(i + 1));
        assert(b@.skip(i as int).drop_first() =~= b@.skip(i + 1));
        i = i + 1;
    }
    i < lb && i == la
}

/// No sequence is below itself.
pub proof fn lemma_lex_irreflexive(a: Seq<char>)
    ensures
        !lex_less(a, a),
    decreases a.len(),
{
    if a.len() > 0 {
        lemma_lex_irreflexive(a.drop_first());
    }
}

/// Of two different sequences, one is below the other.
pub proof fn lemma_lex_total(a: Seq<char>, b: Seq<char>)
    requires
        a != b,
    ensures
        lex_less(a, b) || lex_less(b, a),
    decreases a.len(),
{
    if a.len() > 0 && b.len() > 0 && a[0] == b[0] {
        if a.drop_first() == b.drop_first() {
            assert(a =~= seq![a[0]] + a.drop_first());
            assert(b =~= seq![b[0]] + b.drop_first());
        }
        lemma_lex_total(a.drop_first(), b.drop_first());
    } else if a.len() == 0 && b.len() == 0 {
        assert(a =~= b);
    }
}

/// The order is asymmetric.
pub proof fn lemma_lex_asymmetric(a: Seq<char>, b: Seq<char>)
    requires
        lex_less(a, b),
    ensures
        !lex_less(b, a),
    decreases a.len(),
{
    if a.len() > 0 && b.len() > 0 && a[0] == b[0] {
        lemma_lex_asymmetric(a.drop_first(), b.drop_first());
    }
}

/// The order is transitive.
pub proof fn lemma_lex_transitive(a: Seq<char>, b: Seq<char>, c: Seq<char>)
    requires
        lex_less(a, b),
        lex_less(b, c),
    ensures
        lex_less(a, c),
    decreases a.len(),
{
    if a.len() > 0 && b.len() > 0 && c.len() > 0 && a[0] == b[0] && b[0] == c[0] {
        lemma_lex_transitive(a.drop_first(), b.drop_first(), c.drop_first());
    }
}

/// Trimming trailing slashes leaves no trailing slash, and trimming again
/// changes nothing.
pub proof fn law_trim_idempotent(s: Seq<char>)
    ensures
        trim_end_slashes(s).len() == 0 || trim_end_slashes(s).last() != '/',
        trim_end_slashes(trim_end_slashes(s)) == trim_end_slashes(s),
    decreases s.len(),
{
    if s.len() > 0 && s.last() == '/' {
        law_trim_idempotent(s.drop_last());
    }
}

/// The value of a decimal digit character.
pub open spec fn digit_value(c: char) -> int {
    if c == '1' {
        1
    } else if c == '2' {
        2
    } else if c == '3' {
        3
    } else if c == '4' {
        4
    } else if c == '5' {
        5
    } else if c == '6' {
        6
    } else if c == '7' {
        7
    } else if c == '8' {
        8
    } else if c == '9' {
        9
    } else {
        0
    }
}

/// Whether a character is a decimal digit.
pub open spec fn is_digit(c: char) -> bool {
    c == '0' || c == '1' || c == '2' || c == '3' || c == '4' || c == '5' || c == '6' || c == '7'
        || c == '8' || c == '9'
}

/// The number a string of decimal digits denotes.
pub open spec fn decimal_value(s: Seq<char>) -> int
    decreases s.len(),
{
    if s.len() == 0 {
        0
    } else {
        decimal_value(s.drop_last()) * 10 + digit_value(s.last())
    }
}

/// The decimal text of a number consists of digits, denotes that number, and
/// has no leading zero (except for zero itself).
pub proof fn law_decimal_denotes(n: nat)
    ensures
        nat_decimal(n).len() > 0,
        forall|i: int| 0 <= i < nat_decimal(n).len() ==> is_digit(#[trigger] nat_decimal(n)[i]),
        decimal_value(nat_decimal(n)) == n,
        n > 0 ==> nat_decimal(n)[0] != '0',
    decreases n,
{
    let s = nat_decimal(n);
    if n >= 10 {
        law_decimal_denotes(n / 10);
        lemma_digit((n % 10) as nat);
        assert(s.drop_last() =~= nat_decimal(n / 10));
        assert(s[0] == nat_decimal(n / 10)[0]);
        assert(s.last() == digit_char((n % 10) as nat));
        assert(decimal_value(s) == decimal_value(s.drop_last()) * 10 + digit_value(s.last()));
        assert((n / 10) * 10 + n % 10 == n);
    } else {
        lemma_digit(n);
        assert(s.drop_last() =~= Seq::<char>::empty());
        assert(decimal_value(s.drop_last()) == 0);
        assert(decimal_value(s) == decimal_value(s.drop_last()) * 10 + digit_value(s.last()));
    }
}

proof fn lemma_digit(d: nat)
    requires
        d < 10,
    ensures
        is_digit(digit_char(d)),
        digit_value(digit_char(d)) == d,
        d > 0 ==> digit_char(d) != '0',
{
}

/// The decimal text of a negative number is `-` followed by the text of its magnitude.
pub proof fn law_int_decimal(n: int)
    ensures
        n < 0 ==> int_decimal(n)[0] == '-' && int_decimal(n).drop_first() == nat_decimal((-n) as nat),
        n >= 0 ==> int_decimal(n) == nat_decimal(n as nat),
{
    if n < 0 {
        assert(int_decimal(n).drop_first() =~= nat_decimal((-n) as nat));
    }
}

/// Trimming removes only trailing slashes: the result is a prefix of the
/// input, and what follows it is all `/`.
pub proof fn law_trim_removes_only_trailing_slashes(s: Seq<char>)
    ensures
        trim_end_slashes(s).len() <= s.len(),
        trim_end_slashes(s) == s.take(trim_end_slashes(s).len() as int),
        forall|i: int| trim_end_slashes(s).len() <= i < s.len() ==> #[trigger] s[i] == '/',
    decreases s.len(),
{
    if s.len() > 0 && s.last() == '/' {
        law_trim_removes_only_trailing_slashes(s.drop_last());
        let t = trim_end_slashes(s.drop_last());
        assert(s.drop_last().take(t.len() as int) =~= s.take(t.len() as int));
        assert forall|i: int| t.len() <= i < s.len() implies #[trigger] s[i] == '/' by {
            if i < s.len() - 1 {
                assert(s.drop_last()[i] == s[i]);
            }
        }
    } else {
        assert(s.take(s.len() as int) =~= s);
    }
}

/// The order of strings: a proper prefix comes first, and otherwise the first
/// differing character decides.
pub proof fn law_lex_order(a: Seq<char>, b: Seq<char>, k: int)
    requires
        0 <= k <= a.len(),
        k <= b.len(),
        a.take(k) == b.take(k),
    ensures
        k == a.len() && k < b.len() ==> lex_less(a, b),
        k < a.len() && k < b.len() && a[k] < b[k] ==> lex_less(a, b),
        k < a.len() && k < b.len() && b[k] < a[k] ==> !lex_less(a, b),
    decreases k,
{
    if k > 0 {
        assert(a[0] == a.take(k)[0]);
        assert(b[0] == b.take(k)[0]);
        assert(a.drop_first().take(k - 1) =~= a.take(k).drop_first());
        assert(b.drop_first().take(k - 1) =~= b.take(k).drop_first());
        law_lex_order(a.drop_first(), b.drop_first(), k - 1);
    }
}

} // verus!
