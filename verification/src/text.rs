//! The text the application shows and reads back: decimal numbers, the
//! clock "hh:mm:ss", and numbers typed into the settings form.
use vstd::prelude::*;

verus! {

/// `String::push` of std: appends `c` to the end of `s`.
#[verifier::external_body]
fn push_char(s: &mut String, c: char)
    ensures
        final(s)@ == old(s)@.push(c),
{
    s.push(c)
}

/// The character of a decimal digit.
pub open spec fn digit_char(d: int) -> char {
    ((d + 48) as u8) as char
}

/// A character is one of '0' to '9'.
pub open spec fn is_digit(c: char) -> bool {
    48 <= c as int <= 57
}

/// The value of a decimal digit character.
pub open spec fn digit_value(c: char) -> int {
    c as int - 48
}

/// The decimal writing of `n`, with no leading zeros (a single '0' for zero).
pub open spec fn decimal(n: nat) -> Seq<char>
    decreases n,
{
    if n < 10 {
        seq![digit_char(n as int)]
    } else {
        decimal(n / 10).push(digit_char((n % 10) as int))
    }
}

/// `n` written with at least two digits: a '0' goes before a single digit.
pub open spec fn two_digits(n: nat) -> Seq<char> {
    if n < 10 {
        seq!['0'] + decimal(n)
    } else {
        decimal(n)
    }
}

/// The clock "hh:mm:ss" for a number of seconds; the hours take more than two
/// digits when there are more than 99 of them.
pub open spec fn clock(secs: nat) -> Seq<char> {
    two_digits(secs / 3600) + seq![':'] + two_digits((secs % 3600) / 60) + seq![':'] + two_digits(
        secs % 60,
    )
}

/// The value of a sequence of decimal digits.
pub open spec fn digits_value(s: Seq<char>) -> nat
    decreases s.len(),
{
    if s.len() == 0 {
        0
    } else {
        (digits_value(s.drop_last()) * 10 + digit_value(s.last())) as nat
    }
}

/// A nonempty sequence of decimal digits.
pub open spec fn all_digits(s: Seq<char>) -> bool {
    s.len() > 0 && forall|i: int| 0 <= i < s.len() ==> is_digit(#[trigger] s[i])
}

/// The digits of a number as it is typed: an optional '+' and then the rest.
pub open spec fn unsigned_digits(s: Seq<char>) -> Seq<char> {
    if s.len() > 0 && s[0] == '+' {
        s.drop_first()
    } else {
        s
    }
}

/// The `u64` that `s` reads as, the way `str::parse::<u64>` reads it: an
/// optional '+' followed by one or more decimal digits whose value fits in
/// `u64`; any other text reads as nothing.
pub open spec fn parsed_u64(s: Seq<char>) -> Option<u64> {
    let d = unsigned_digits(s);
    if all_digits(d) && digits_value(d) <= u64::MAX {
        Some(digits_value(d) as u64)
    } else {
        None
    }
}

/// The character of a digit below ten.
fn digit_to_char(d: u64) -> (c: char)
    requires
        d < 10,
    ensures
        c == digit_char(d as int),
        is_digit(c),
        digit_value(c) == d,
{
    ((d as u8) + 48u8) as char
}

/// Appends the decimal writing of `n` to `s`.
fn push_decimal(s: &mut String, n: u64)
    ensures
        final(s)@ == old(s)@ + decimal(n as nat),
    decreases n,
{
    if n >= 10 {
        push_decimal(s, n / 10);
    }
    let c = digit_to_char(n % 10);
    push_char(s, c);
    assert(s@ =~= old(s)@ + decimal(n as nat));
}

/// The decimal writing of `n`, as `n.to_string()` gives it.
pub fn decimal_text(n: u64) -> (s: String)
    ensures
        s@ == decimal(n as nat),
{
    let mut s = String::new();
    push_decimal(&mut s, n);
    assert(s@ =~= decimal(n as nat));
    s
}

/// "count/total".
pub open spec fn fraction(count: nat, total: nat) -> Seq<char> {
    decimal(count) + seq!['/'] + decimal(total)
}

/// "count/total", as `format!("{}/{}", count, total)` writes it.
pub fn fraction_text(count: u64, total: u64) -> (s: String)
    ensures
        s@ == fraction(count as nat, total as nat),
{
    let mut s = String::new();
    push_decimal(&mut s, count);
    push_char(&mut s, '/');
    push_decimal(&mut s, total);
    assert(s@ =~= fraction(count as nat, total as nat));
    s
}

/// Appends `n` with at least two digits.
fn push_two_digits(s: &mut String, n: u64)
    ensures
        final(s)@ == old(s)@ + two_digits(n as nat),
{
    if n < 10 {
        push_char(s, '0');
    }
    push_decimal(s, n);
    assert(s@ =~= old(s)@ + two_digits(n as nat));
}

/// The clock "hh:mm:ss" for `secs` seconds, as `format!("{:02}:{:02}:{:02}",
/// h, m, s)` writes it.
pub fn clock_text(secs: u32) -> (s: String)
    ensures
        s@ == clock(secs as nat),
{
    let hours = secs / 3600;
    let minutes = (secs % 3600) / 60;
    let seconds = secs % 60;
    let mut s = String::new();
    push_two_digits(&mut s, hours as u64);
    push_char(&mut s, ':');
    push_two_digits(&mut s, minutes as u64);
    push_char(&mut s, ':');
    push_two_digits(&mut s, seconds as u64);
    assert(s@ =~= clock(secs as nat));
    s
}

/// Reading a longer run of digits never gives a smaller value.
proof fn lemma_digits_value_prefix(s: Seq<char>, k: int)
    requires
        0 <= k <= s.len(),
        forall|i: int| 0 <= i < s.len() ==> is_digit(#[trigger] s[i]),
    ensures
        digits_value(s.take(k)) <= digits_value(s),
    decreases s.len(),
{
    if k < s.len() {
        lemma_digits_value_prefix(s.drop_last(), k);
        assert(s.drop_last().take(k) =~= s.take(k));
    } else {
        assert(s.take(k) =~= s);
    }
}

/// Reads a number as `str::parse::<u64>` does.
pub fn parse_decimal(s: &str) -> (r: Option<u64>)
    ensures
        r == parsed_u64(s@),
{
    let n = s.unicode_len();
    let ghost d = unsigned_digits(s@);
    let mut start: usize = 0;
    if n > 0 && s.get_char(0) == '+' {
        start = 1;
    }
    assert(d =~= s@.subrange(start as int, n as int));
    if start == n {
        return None;
    }
    let mut i: usize = start;
    let mut acc: u64 = 0;
    while i < n
        invariant
            n == s@.len(),
            start <= i <= n,
            start < n,
            d == s@.subrange(start as int, n as int),
            d == unsigned_digits(s@),
            forall|j: int| start <= j < i ==> is_digit(#[trigger] s@[j]),
            acc == digits_value(s@.subrange(start as int, i as int)),
        decreases n - i,
    {
        let c = s.get_char(i);
        let code = c as u32;
        if code < 48 || code > 57 {
            assert(d[i - start] == c);
            assert(!is_digit(d[i - start]));
            return None;
        }
        let digit = (code - 48) as u64;
        let ghost next = s@.subrange(start as int, i + 1);
        assert(next.drop_last() =~= s@.subrange(start as int, i as int));
        assert(digits_value(next) == acc * 10 + digit);
        let scaled = acc.checked_mul(10);
        let sum = match scaled {
            Some(m) => m.checked_add(digit),
            None => None,
        };
        match sum {
            Some(v) => {
                acc = v;
                i = i + 1;
            },
            None => {
                proof {
                    if all_digits(d) {
                        assert(d.take(i + 1 - start) =~= next);
                        lemma_digits_value_prefix(d, i + 1 - start);
                    }
                }
                return None;
            },
        }
    }
    assert(s@.subrange(start as int, n as int) =~= d);
    assert(all_digits(d)) by {
        assert forall|j: int| 0 <= j < d.len() implies is_digit(#[trigger] d[j]) by {
            assert(d[j] == s@[j + start]);
        }
    }
    Some(acc)
}

/// The decimal writing of a number is a run of digits whose value is the
/// number.
proof fn lemma_decimal_digits(n: nat)
    ensures
        all_digits(decimal(n)),
        digits_value(decimal(n)) == n,
    decreases n,
{
    let last = digit_char((n % 10) as int);
    assert(digit_value(last) == n % 10);
    if n < 10 {
        assert(decimal(n).drop_last() =~= Seq::<char>::empty());
        assert(digits_value(Seq::<char>::empty()) == 0);
    } else {
        assert(n == (n / 10) * 10 + n % 10) by (nonlinear_arith);
        lemma_decimal_digits(n / 10);
        let d = decimal(n);
        assert(d.drop_last() =~= decimal(n / 10));
        assert forall|i: int| 0 <= i < d.len() implies is_digit(#[trigger] d[i]) by {
            if i < d.len() - 1 {
                assert(d[i] == decimal(n / 10)[i]);
            }
        }
    }
}

/// Reading back the decimal writing of a `u64` gives the number: a number
/// field that shows a value reads that value from its own text.
pub proof fn lemma_parse_decimal(n: u64)
    ensures
        parsed_u64(decimal(n as nat)) == Some(n),
{
    lemma_decimal_digits(n as nat);
    assert(is_digit(decimal(n as nat)[0]));
}

/// A number written with at least two digits is at least two characters
/// long and reads back as the number.
pub proof fn lemma_two_digits(n: u64)
    ensures
        two_digits(n as nat).len() >= 2,
        parsed_u64(two_digits(n as nat)) == Some(n),
{
    lemma_decimal_digits(n as nat);
    let d = decimal(n as nat);
    if n < 10 {
        let t = seq!['0'] + d;
        assert(t.drop_last() =~= seq!['0']);
        assert(seq!['0'].drop_last() =~= Seq::<char>::empty());
        assert(digits_value(Seq::<char>::empty()) == 0);
        assert(digit_value('0') == 0);
        assert(all_digits(t)) by {
            assert forall|i: int| 0 <= i < t.len() implies is_digit(#[trigger] t[i]) by {
                if i > 0 {
                    assert(t[i] == d[i - 1]);
                }
            }
        }
        assert(d.len() == 1);
        assert(d.drop_last() =~= Seq::<char>::empty());
        assert(digits_value(d) == digit_value(d.last()));
        assert(digits_value(seq!['0']) == 0);
        assert(t.last() == d.last());
        assert(unsigned_digits(t) == t);
    } else {
        assert(d == decimal(n as nat / 10).push(digit_char((n % 10) as int)));
        assert(decimal(n as nat / 10).len() >= 1);
        assert(is_digit(d[0]));
    }
}

/// The clock is three groups of at least two digits joined by ':'; they
/// read back as hours, minutes below sixty and seconds below sixty that add
/// up to the seconds shown.
pub proof fn lemma_clock(secs: u32)
    ensures
        ({
            let h = secs / 3600;
            let m = (secs % 3600) / 60;
            let s = secs % 60;
            let a = two_digits(h as nat);
            let b = two_digits(m as nat);
            let c = two_digits(s as nat);
            &&& clock(secs as nat) == a + seq![':'] + b + seq![':'] + c
            &&& parsed_u64(a) == Some(h as u64)
            &&& parsed_u64(b) == Some(m as u64)
            &&& parsed_u64(c) == Some(s as u64)
            &&& m < 60 && s < 60
            &&& h * 3600 + m * 60 + s == secs
            &&& b.len() == 2 && c.len() == 2
        }),
{
    let h = secs / 3600;
    let m = (secs % 3600) / 60;
    let s = secs % 60;
    lemma_two_digits(h as u64);
    lemma_two_digits(m as u64);
    lemma_two_digits(s as u64);
    assert(h * 3600 + m * 60 + s == secs) by (nonlinear_arith)
        requires
            h == secs / 3600,
            m == (secs % 3600) / 60,
            s == secs % 60,
    ;
    assert(decimal(m as nat).len() == (if m < 10 { 1int } else { 2int })) by {
        if m >= 10 {
            assert(decimal((m / 10) as nat).len() == 1);
        }
    }
    assert(decimal(s as nat).len() == (if s < 10 { 1int } else { 2int })) by {
        if s >= 10 {
            assert(decimal((s / 10) as nat).len() == 1);
        }
    }
}

/// "count/total" splits at its only '/' into the two numbers.
pub proof fn lemma_fraction(count: u64, total: u64)
    ensures
        ({
            let f = fraction(count as nat, total as nat);
            let k = decimal(count as nat).len() as int;
            &&& f[k] == '/'
            &&& parsed_u64(f.take(k)) == Some(count)
            &&& parsed_u64(f.skip(k + 1)) == Some(total)
        }),
{
    lemma_parse_decimal(count);
    lemma_parse_decimal(total);
    let f = fraction(count as nat, total as nat);
    let k = decimal(count as nat).len() as int;
    assert(f.take(k) =~= decimal(count as nat));
    assert(f.skip(k + 1) =~= decimal(total as nat));
}

/// A text reads as a number only if, after an optional leading '+', it is
/// made of digits alone: any other character makes it read as nothing, and
/// so does an empty text or a lone '+'. A leading '+' is accepted.
pub proof fn lemma_parse_rejects(s: Seq<char>, i: int, n: u64)
    ensures
        0 <= i < s.len() && !is_digit(s[i]) && !(i == 0 && s[0] == '+') ==> parsed_u64(s) is None,
        parsed_u64(Seq::<char>::empty()) is None,
        parsed_u64(seq!['+']) is None,
        parsed_u64(seq!['+'] + decimal(n as nat)) == Some(n),
{
    if 0 <= i < s.len() && !is_digit(s[i]) && !(i == 0 && s[0] == '+') {
        let d = unsigned_digits(s);
        if s.len() > 0 && s[0] == '+' {
            assert(d[i - 1] == s[i]);
        } else {
            assert(d[i] == s[i]);
        }
    }
    assert(seq!['+'].drop_first() =~= Seq::<char>::empty());
    lemma_decimal_digits(n as nat);
    let t = seq!['+'] + decimal(n as nat);
    assert(t[0] == '+');
    assert(t.drop_first() =~= decimal(n as nat));
    assert(unsigned_digits(t) == decimal(n as nat));
}

} // verus!
