//! Text helpers shared by every exchange: decimal rendering of integers and
//! the `"{channel}|{market}"` joining used for subscription identifiers.

use vstd::prelude::*;

verus! {

/// The ASCII character of a decimal digit.
pub open spec fn digit_char(d: nat) -> char {
    if d == 0 { '0' }
    else if d == 1 { '1' }
    else if d == 2 { '2' }
    else if d == 3 { '3' }
    else if d == 4 { '4' }
    else if d == 5 { '5' }
    else if d == 6 { '6' }
    else if d == 7 { '7' }
    else if d == 8 { '8' }
    else { '9' }
}

/// The decimal representation of `n`, without sign or leading zeros
/// (as Rust's `Display` renders an unsigned integer).
pub open spec fn decimal(n: nat) -> Seq<char>
    decreases n,
{
    if n < 10 {
        seq![digit_char(n)]
    } else {
        decimal(n / 10).push(digit_char(n % 10))
    }
}

fn digit_str(d: u64) -> (r: &'static str)
    requires
        d < 10,
    ensures
        r@ == seq![digit_char(d as nat)],
{
    proof {
        reveal_strlit("0");
        reveal_strlit("1");
        reveal_strlit("2");
        reveal_strlit("3");
        reveal_strlit("4");
        reveal_strlit("5");
        reveal_strlit("6");
        reveal_strlit("7");
        reveal_strlit("8");
        reveal_strlit("9");
    }
    if d == 0 { "0" }
    else if d == 1 { "1" }
    else if d == 2 { "2" }
    else if d == 3 { "3" }
    else if d == 4 { "4" }
    else if d == 5 { "5" }
    else if d == 6 { "6" }
    else if d == 7 { "7" }
    else if d == 8 { "8" }
    else { "9" }
}

/// Render `n` in decimal.
pub fn u64_to_decimal(n: u64) -> (r: String)
    ensures
        r@ == decimal(n as nat),
    decreases n,
{
    if n < 10 {
        String::from_str(digit_str(n))
    } else {
        let mut s = u64_to_decimal(n / 10);
        s.append(digit_str(n % 10));
        s
    }
}

/// A decimal digit character.
pub open spec fn is_digit(c: char) -> bool {
    '0' <= c && c <= '9'
}

/// The value of a sequence of decimal digits (0 for the empty sequence).
pub open spec fn digits_value(s: Seq<char>) -> nat
    decreases s.len(),
{
    if s.len() == 0 {
        0
    } else {
        digits_value(s.drop_last()) * 10 + ((s.last() as nat) - ('0' as nat)) as nat
    }
}

/// The value of an unsigned decimal text as `str::parse::<u64>` reads it: an optional
/// `'+'` then one or more decimal digits; `None` for any other text.
pub open spec fn unsigned_text_value(s: Seq<char>) -> Option<nat> {
    unsigned_text_value_digits(strip_plus(s))
}

/// `s` without a leading `'+'`.
pub open spec fn strip_plus(s: Seq<char>) -> Seq<char> {
    if s.len() > 0 && s[0] == '+' {
        s.drop_first()
    } else {
        s
    }
}

/// The `u64` that `s.parse::<u64>()` returns, or `None` where it fails (a text that is
/// not an unsigned decimal, or a value above `u64::MAX`).
pub open spec fn parsed_u64(s: Seq<char>) -> Option<u64> {
    match unsigned_text_value(s) {
        Some(v) => if v <= u64::MAX { Some(v as u64) } else { None },
        None => None,
    }
}

/// Appending digits never makes the value smaller.
pub proof fn lemma_digits_value_prefix(s: Seq<char>, i: int)
    requires
        0 <= i <= s.len(),
        forall|j: int| 0 <= j < s.len() ==> is_digit(#[trigger] s[j]),
    ensures
        digits_value(s.take(i)) <= digits_value(s),
    decreases s.len() - i,
{
    if i < s.len() {
        lemma_digits_value_prefix(s, i + 1);
        assert(s.take(i + 1).drop_last() =~= s.take(i));
        assert(s.take(i + 1).last() == s[i]);
    } else {
        assert(s.take(i) =~= s);
    }
}

/// Parse an unsigned decimal text (as `str::parse::<u64>`).
pub fn parse_u64(s: &str) -> (r: Option<u64>)
    ensures
        r == parsed_u64(s@),
{
    let n = s.unicode_len();
    if n == 0 {
        return None;
    }
    let start: usize = if s.get_char(0) == '+' { 1 } else { 0 };
    let ghost d = strip_plus(s@);
    proof {
        assert(d =~= s@.skip(start as int));
    }
    if start == n {
        return None;
    }
    let mut value: u64 = 0;
    let mut i = start;
    while i < n
        invariant
            n == s@.len(),
            start <= i <= n,
            start < n,
            d == s@.skip(start as int),
            d == strip_plus(s@),
            forall|j: int| 0 <= j < i - start ==> is_digit(#[trigger] d[j]),
            value as nat == digits_value(d.take(i - start)),
        decreases n - i,
    {
        let c = s.get_char(i);
        if !('0' <= c && c <= '9') {
            proof {
                assert(!is_digit(d[i - start]));
                assert(unsigned_text_value_digits(d) is None);
            }
            return None;
        }
        let digit = (c as u32 - '0' as u32) as u64;
        proof {
            assert(d.take(i - start + 1).drop_last() =~= d.take(i - start));
            assert(d.take(i - start + 1).last() == c);
        }
        match value.checked_mul(10) {
            Some(v10) => match v10.checked_add(digit) {
                Some(v) => {
                    value = v;
                },
                None => {
                    proof {
                        self::lemma_overflow_rest(d, i - start + 1);
                    }
                    return None;
                },
            },
            None => {
                proof {
                    self::lemma_overflow_rest(d, i - start + 1);
                }
                return None;
            },
        }
        i = i + 1;
    }
    proof {
        assert(d.take(n - start) =~= d);
    }
    Some(value)
}

/// Where a prefix of the digits already exceeds `u64::MAX`, the text does not parse.
proof fn lemma_overflow_rest(d: Seq<char>, k: int)
    requires
        0 < k <= d.len(),
        digits_value(d.take(k)) > u64::MAX,
        forall|j: int| 0 <= j < k ==> is_digit(#[trigger] d[j]),
    ensures
        match unsigned_text_value_digits(d) {
            Some(v) => v > u64::MAX,
            None => true,
        },
{
    if forall|j: int| 0 <= j < d.len() ==> is_digit(#[trigger] d[j]) {
        lemma_digits_value_prefix(d, k);
    }
}

/// The value of `d` if it is a non-empty sequence of decimal digits.
pub open spec fn unsigned_text_value_digits(d: Seq<char>) -> Option<nat> {
    if d.len() > 0 && forall|i: int| 0 <= i < d.len() ==> is_digit(#[trigger] d[i]) {
        Some(digits_value(d))
    } else {
        None
    }
}

/// Whether two string slices hold the same characters.
pub fn str_eq(a: &str, b: &str) -> (r: bool)
    ensures
        r == (a@ == b@),
{
    let n = a.unicode_len();
    if n != b.unicode_len() {
        return false;
    }
    let mut i: usize = 0;
    while i < n
        invariant
            n == a@.len(),
            n == b@.len(),
            i <= n,
            forall|j: int| 0 <= j < i ==> a@[j] == b@[j],
        decreases n - i,
    {
        if a.get_char(i) != b.get_char(i) {
            return false;
        }
        i = i + 1;
    }
    assert(a@ =~= b@);
    true
}

/// `"{left}|{right}"`: the joining used by every subscription identifier.
pub open spec fn piped(left: Seq<char>, right: Seq<char>) -> Seq<char> {
    left + seq!['|'] + right
}

/// `left + [sep] + right` determines `left` and `right` where `left` holds no `sep`.
pub proof fn lemma_split_at_first(l1: Seq<char>, r1: Seq<char>, l2: Seq<char>, r2: Seq<char>, sep: char)
    requires
        !l1.contains(sep),
        !l2.contains(sep),
        l1 + seq![sep] + r1 == l2 + seq![sep] + r2,
    ensures
        l1 == l2,
        r1 == r2,
{
    let p = l1 + seq![sep] + r1;
    assert(p[l1.len() as int] == sep);
    assert((l2 + seq![sep] + r2)[l2.len() as int] == sep);
    if l1.len() < l2.len() {
        assert(l2[l1.len() as int] == p[l1.len() as int]);
    } else if l2.len() < l1.len() {
        assert(l1[l2.len() as int] == p[l2.len() as int]);
    }
    assert(l1 =~= p.take(l1.len() as int));
    assert(l2 =~= p.take(l2.len() as int));
    assert(r1 =~= p.skip(l1.len() as int + 1));
    assert(r2 =~= p.skip(l2.len() as int + 1));
}

/// An identifier `"{left}|{right}"` determines its parts where `left` holds no `'|'`:
/// distinct channel & market pairs get distinct identifiers.
pub proof fn lemma_piped_injective(l1: Seq<char>, r1: Seq<char>, l2: Seq<char>, r2: Seq<char>)
    requires
        !l1.contains('|'),
        !l2.contains('|'),
        piped(l1, r1) == piped(l2, r2),
    ensures
        l1 == l2,
        r1 == r2,
{
    lemma_split_at_first(l1, r1, l2, r2, '|');
}

/// The decimal text of a number has at least one digit, and no `'|'` or `'-'`.
pub proof fn lemma_decimal_digits(n: nat)
    ensures
        decimal(n).len() >= 1,
        n < 10 <==> decimal(n).len() == 1,
        forall|i: int| 0 <= i < decimal(n).len() ==> is_digit(#[trigger] decimal(n)[i]),
    decreases n,
{
    if n >= 10 {
        lemma_decimal_digits(n / 10);
    }
}

/// Distinct numbers have distinct decimal texts.
pub proof fn lemma_decimal_injective(a: nat, b: nat)
    requires
        decimal(a) == decimal(b),
    ensures
        a == b,
    decreases a,
{
    lemma_decimal_digits(a);
    lemma_decimal_digits(b);
    if a >= 10 && b >= 10 {
        let da = decimal(a);
        assert(da.drop_last() =~= decimal(a / 10));
        assert(decimal(b).drop_last() =~= decimal(b / 10));
        lemma_decimal_injective(a / 10, b / 10);
        assert(da.last() == digit_char(a % 10));
        assert(decimal(b).last() == digit_char(b % 10));
        lemma_digit_char_injective(a % 10, b % 10);
    } else if a < 10 && b < 10 {
        assert(decimal(a)[0] == digit_char(a));
        assert(decimal(b)[0] == digit_char(b));
        lemma_digit_char_injective(a, b);
    }
}

/// Distinct digits have distinct characters.
proof fn lemma_digit_char_injective(x: nat, y: nat)
    requires
        x < 10,
        y < 10,
        digit_char(x) == digit_char(y),
    ensures
        x == y,
{
}

/// Join `left` and `right` with a `'|'`.
pub fn join_piped(left: &str, right: &str) -> (r: String)
    ensures
        r@ == piped(left@, right@),
{
    let mut s = String::from_str(left);
    proof {
        reveal_strlit("|");
    }
    s.append("|");
    s.append(right);
    s
}

/// `i` is the position of the first `c` in `s`.
pub open spec fn is_first(s: Seq<char>, c: char, i: int) -> bool {
    &&& 0 <= i < s.len()
    &&& s[i] == c
    &&& forall|j: int| 0 <= j < i ==> s[j] != c
}

/// The text of `s` before its first `c` (all of `s` if it holds no `c`): the first item
/// of `s.split(c)`.
pub open spec fn token_before(s: Seq<char>, c: char) -> Seq<char> {
    if exists|i: int| is_first(s, c, i) {
        s.take(choose|i: int| is_first(s, c, i))
    } else {
        s
    }
}

/// The text of `s` after its first `c` (empty if it holds no `c`).
pub open spec fn token_after(s: Seq<char>, c: char) -> Seq<char> {
    if exists|i: int| is_first(s, c, i) {
        s.skip((choose|i: int| is_first(s, c, i)) + 1)
    } else {
        Seq::empty()
    }
}

/// The first `c` of a text is at one position only.
pub proof fn lemma_first_unique(s: Seq<char>, c: char, i: int, k: int)
    requires
        is_first(s, c, i),
        is_first(s, c, k),
    ensures
        i == k,
{
    if i < k {
        assert(s[i] != c);
    }
    if k < i {
        assert(s[k] != c);
    }
}

/// Position of the first `c` in `s` at or after `from`.
pub fn find_char(s: &str, from: usize, c: char) -> (r: Option<usize>)
    requires
        from <= s@.len(),
    ensures
        r matches Some(i) ==> from <= i < s@.len() && s@[i as int] == c && forall|j: int|
            from <= j < i ==> s@[j] != c,
        r is None ==> forall|j: int| from <= j < s@.len() ==> s@[j] != c,
{
    let n = s.unicode_len();
    let mut i = from;
    while i < n
        invariant
            n == s@.len(),
            from <= i <= n,
            forall|j: int| from <= j < i ==> s@[j] != c,
        decreases n - i,
    {
        if s.get_char(i) == c {
            return Some(i);
        }
        i = i + 1;
    }
    None
}

/// `left + sep + right`.
pub fn join3(left: &str, sep: &str, right: &str) -> (r: String)
    ensures
        r@ == left@ + sep@ + right@,
{
    let mut s = String::from_str(left);
    s.append(sep);
    s.append(right);
    s
}

/// The text `s` after `to_uppercase`: a name for what `str::to_uppercase` of the
/// standard library returns.
pub uninterp spec fn spec_uppercase(s: Seq<char>) -> Seq<char>;

/// Whether every character of `s` is ASCII.
pub open spec fn all_ascii(s: Seq<char>) -> bool {
    forall|i: int| 0 <= i < s.len() ==> (#[trigger] s[i] as u32) < 128
}

/// `c` with an ASCII lowercase letter mapped to its uppercase letter.
pub open spec fn ascii_upper(c: char) -> char {
    if 'a' <= c && c <= 'z' {
        ((c as u32) - 32) as char
    } else {
        c
    }
}

/// `s` with every ASCII lowercase letter mapped to its uppercase letter.
pub open spec fn ascii_upper_text(s: Seq<char>) -> Seq<char> {
    s.map_values(|c: char| ascii_upper(c))
}

/// The text `str::to_uppercase` gives for `s`: on ASCII text each lowercase letter
/// `a`..`z` becomes `A`..`Z` and every other character stays; on other text it is the
/// name `spec_uppercase`.
pub open spec fn uppercase(s: Seq<char>) -> Seq<char> {
    if all_ascii(s) {
        ascii_upper_text(s)
    } else {
        spec_uppercase(s)
    }
}

/// ASCII text is ASCII in every part, and uppercasing it uppercases each part.
pub proof fn lemma_ascii_concat(a: Seq<char>, b: Seq<char>)
    ensures
        all_ascii(a + b) <==> all_ascii(a) && all_ascii(b),
        ascii_upper_text(a + b) == ascii_upper_text(a) + ascii_upper_text(b),
{
    if all_ascii(a) && all_ascii(b) {
        assert forall|i: int| 0 <= i < (a + b).len() implies ((#[trigger] (a + b)[i]) as u32) < 128 by {
            if i >= a.len() {
                assert((a + b)[i] == b[i - a.len()]);
            }
        }
    }
    if all_ascii(a + b) {
        assert forall|i: int| 0 <= i < a.len() implies ((#[trigger] a[i]) as u32) < 128 by {
            assert((a + b)[i] == a[i]);
        }
        assert forall|i: int| 0 <= i < b.len() implies ((#[trigger] b[i]) as u32) < 128 by {
            assert((a + b)[i + a.len()] == b[i]);
        }
    }
    assert(ascii_upper_text(a + b) =~= ascii_upper_text(a) + ascii_upper_text(b));
}

/// Uppercasing changes only lowercase letters, each into an uppercase letter: no other
/// character is produced from a different one.
pub proof fn lemma_ascii_upper_char(c: char)
    ensures
        'a' <= c <= 'z' ==> 'A' <= ascii_upper(c) <= 'Z' && ascii_upper(c) as u32 == c as u32 - 32,
        !('a' <= c <= 'z') ==> ascii_upper(c) == c,
        !('a' <= ascii_upper(c) <= 'z'),
{
}

/// A character that is not a letter is kept exactly where it occurs: it occurs in the
/// uppercased text where, and only where, it occurs in the text.
pub proof fn lemma_ascii_upper_keeps(s: Seq<char>, c: char)
    requires
        !('A' <= c <= 'Z'),
        !('a' <= c <= 'z'),
    ensures
        ascii_upper_text(s).len() == s.len(),
        forall|i: int| 0 <= i < s.len() ==> (ascii_upper_text(s)[i] == c <==> #[trigger] s[i] == c),
        ascii_upper_text(s).contains(c) <==> s.contains(c),
{
    assert forall|i: int| 0 <= i < s.len() implies (ascii_upper_text(s)[i] == c <==> #[trigger] s[i] == c) by {
        lemma_ascii_upper_char(s[i]);
        assert(ascii_upper_text(s)[i] == ascii_upper(s[i]));
    }
    if s.contains(c) {
        let i = choose|i: int| 0 <= i < s.len() && s[i] == c;
        assert(ascii_upper_text(s)[i] == c);
    }
    if ascii_upper_text(s).contains(c) {
        let i = choose|i: int| 0 <= i < ascii_upper_text(s).len() && ascii_upper_text(s)[i] == c;
        assert(s[i] == c);
    }
}

/// `str::to_uppercase`. The contract claims that the result is a function of the
/// characters of `s` (named `spec_uppercase`), and that on ASCII text it maps each
/// lowercase letter `a`..`z` to `A`..`Z` and keeps every other character; what it does
/// with other characters (by the Unicode case tables) is left unsaid.
#[verifier::external_body]
pub(crate) fn to_uppercase(s: &str) -> (r: String)
    ensures
        r@ == spec_uppercase(s@),
        all_ascii(s@) ==> r@ == s@.map_values(|c: char| ascii_upper(c)),
{
    s.to_uppercase()
}

} // verus!
