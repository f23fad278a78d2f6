//! The text protocol of configfs attribute files: a value is written as one
//! line ended by a newline, and read back with the surrounding white space or
//! the trailing newlines taken off.
use vstd::prelude::*;
use vstd::string::{StrSliceExecFns, StringExecFns};

use crate::error::ParseError;

verus! {

/// White space as `char::is_whitespace` has it: the Unicode `White_Space` property.
pub open spec fn is_space(c: char) -> bool {
    let u = c as u32;
    (9 <= u && u <= 13) || u == 32 || u == 0x85 || u == 0xA0 || u == 0x1680
        || (0x2000 <= u && u <= 0x200A) || u == 0x2028 || u == 0x2029 || u == 0x202F
        || u == 0x205F || u == 0x3000
}

/// `s` without its leading white space.
pub open spec fn trim_start(s: Seq<char>) -> Seq<char>
    decreases s.len(),
{
    if s.len() > 0 && is_space(s[0]) {
        trim_start(s.drop_first())
    } else {
        s
    }
}

/// `s` without its trailing white space.
pub open spec fn trim_end(s: Seq<char>) -> Seq<char>
    decreases s.len(),
{
    if s.len() > 0 && is_space(s.last()) {
        trim_end(s.drop_last())
    } else {
        s
    }
}

/// `s` without its leading and trailing white space.
pub open spec fn trim(s: Seq<char>) -> Seq<char> {
    trim_end(trim_start(s))
}

/// `s` without the newlines at its end.
pub open spec fn strip_newlines(s: Seq<char>) -> Seq<char>
    decreases s.len(),
{
    if s.len() > 0 && s.last() == '\n' {
        strip_newlines(s.drop_last())
    } else {
        s
    }
}

/// The text written to an attribute file for the value `s`.
pub open spec fn line_of(s: Seq<char>) -> Seq<char> {
    s.push('\n')
}

fn is_space_char(c: char) -> (r: bool)
    ensures
        r == is_space(c),
{
    let u = c as u32;
    (9 <= u && u <= 13) || u == 32 || u == 0x85 || u == 0xA0 || u == 0x1680
        || (0x2000 <= u && u <= 0x200A) || u == 0x2028 || u == 0x2029 || u == 0x202F
        || u == 0x205F || u == 0x3000
}

/// `s` without its leading and trailing white space.
pub fn trim_text(s: &str) -> (r: String)
    ensures
        r@ == trim(s@),
{
    let n = s.unicode_len();
    let mut i: usize = 0;
    proof {
        assert(s@.subrange(0, n as int) =~= s@);
    }
    loop
        invariant
            0 <= i <= n,
            n == s@.len(),
            trim_start(s@) == trim_start(s@.subrange(i as int, n as int)),
        ensures
            i <= n,
            n == s@.len(),
            trim_start(s@) == trim_start(s@.subrange(i as int, n as int)),
            i == n || !is_space(s@[i as int]),
        decreases n - i,
    {
        if i == n || !is_space_char(s.get_char(i)) {
            break;
        }
        proof {
            assert(s@.subrange(i + 1, n as int) =~= s@.subrange(i as int, n as int).drop_first());
        }
        i = i + 1;
    }
    proof {
        let t = s@.subrange(i as int, n as int);
        if i < n {
            assert(t[0] == s@[i as int]);
        }
        assert(trim_start(t) == t);
    }
    let mut j: usize = n;
    loop
        invariant
            i <= j <= n,
            n == s@.len(),
            trim_start(s@) == s@.subrange(i as int, n as int),
            trim(s@) == trim_end(s@.subrange(i as int, j as int)),
        ensures
            i <= j <= n,
            trim(s@) == trim_end(s@.subrange(i as int, j as int)),
            j == i || !is_space(s@[j - 1]),
        decreases j,
    {
        if j == i || !is_space_char(s.get_char(j - 1)) {
            break;
        }
        proof {
            assert(s@.subrange(i as int, j - 1) =~= s@.subrange(i as int, j as int).drop_last());
        }
        j = j - 1;
    }
    proof {
        let t = s@.subrange(i as int, j as int);
        if i < j {
            assert(t.last() == s@[j - 1]);
        }
        assert(trim_end(t) == t);
    }
    String::from_str(s.substring_char(i, j))
}

/// `s` without the newlines at its end.
pub fn strip_trailing_newlines(s: &str) -> (r: String)
    ensures
        r@ == strip_newlines(s@),
{
    let n = s.unicode_len();
    let mut j: usize = n;
    proof {
        assert(s@.subrange(0, n as int) =~= s@);
    }
    loop
        invariant
            j <= n,
            n == s@.len(),
            strip_newlines(s@) == strip_newlines(s@.subrange(0, j as int)),
        ensures
            j <= n,
            strip_newlines(s@) == strip_newlines(s@.subrange(0, j as int)),
            j == 0 || s@[j - 1] != '\n',
        decreases j,
    {
        if j == 0 || s.get_char(j - 1) != '\n' {
            break;
        }
        proof {
            assert(s@.subrange(0, j - 1) =~= s@.subrange(0, j as int).drop_last());
        }
        j = j - 1;
    }
    proof {
        let t = s@.subrange(0, j as int);
        if j > 0 {
            assert(t.last() == s@[j - 1]);
        }
        assert(strip_newlines(t) == t);
    }
    String::from_str(s.substring_char(0, j))
}

/// The text written to an attribute file for the value `s`: `s` and one newline.
pub fn encode_text(s: &str) -> (r: String)
    ensures
        r@ == line_of(s@),
{
    let mut r = String::from_str(s);
    r.append("\n");
    proof {
        reveal_strlit("\n");
        assert(r@ =~= line_of(s@));
    }
    r
}


/// Whether `c` is an ASCII decimal digit.
pub open spec fn is_digit(c: char) -> bool {
    48 <= (c as u32) && (c as u32) <= 57
}

/// The value of the decimal digit `c`.
pub open spec fn digit_value(c: char) -> nat {
    ((c as u32) - 48) as nat
}

/// The digit character for `d`, which is below ten.
pub open spec fn digit_char(d: nat) -> char {
    if d == 0 { '0' } else if d == 1 { '1' } else if d == 2 { '2' } else if d == 3 { '3' }
    else if d == 4 { '4' } else if d == 5 { '5' } else if d == 6 { '6' } else if d == 7 { '7' }
    else if d == 8 { '8' } else { '9' }
}

/// Whether every character of `s` is a decimal digit.
pub open spec fn all_digits(s: Seq<char>) -> bool {
    forall|i: int| 0 <= i < s.len() ==> #[trigger] is_digit(s[i])
}

/// The number that the digits `s` denote in decimal.
pub open spec fn value(s: Seq<char>) -> nat
    decreases s.len(),
{
    if s.len() == 0 {
        0
    } else {
        value(s.drop_last()) * 10 + digit_value(s.last())
    }
}

/// The canonical decimal text of `n`: no sign and no leading zero.
pub open spec fn decimal(n: nat) -> Seq<char>
    decreases n,
{
    if n < 10 {
        seq![digit_char(n)]
    } else {
        decimal(n / 10).push(digit_char(n % 10))
    }
}

/// Whether some run of digits at the start of `d` already exceeds `max`.
pub open spec fn overflows(d: Seq<char>, max: nat) -> bool {
    exists|k: int| 0 <= k <= d.len() && all_digits(#[trigger] d.take(k)) && value(d.take(k)) > max
}

/// What parsing `s` as an unsigned integer no larger than `max` gives, as
/// `str::parse` does for Rust's unsigned integer types: an optional `+`, then
/// decimal digits; the first failure met from the left decides the error.
pub open spec fn parse_uint(s: Seq<char>, max: nat) -> Result<nat, ParseError> {
    if s.len() == 0 {
        Err(ParseError::Empty)
    } else {
        let d = if s[0] == '+' { s.drop_first() } else { s };
        if d.len() == 0 {
            Err(ParseError::InvalidDigit)
        } else if overflows(d, max) {
            Err(ParseError::PosOverflow)
        } else if !all_digits(d) {
            Err(ParseError::InvalidDigit)
        } else {
            Ok(value(d))
        }
    }
}

/// What an unsigned integer attribute no larger than `max` reads as from the file text `text`.
pub open spec fn decode_uint(text: Seq<char>, max: nat) -> Result<nat, ParseError> {
    parse_uint(trim(text), max)
}

/// The file text that a boolean attribute is written as: `1` or `0` and a newline.
pub open spec fn encode_bool(b: bool) -> Seq<char> {
    if b { seq!['1', '\n'] } else { seq!['0', '\n'] }
}

/// What a boolean attribute reads as from the file text `text`: only `1` and
/// `0` denote a value.
pub open spec fn decode_bool(text: Seq<char>) -> Result<bool, ParseError> {
    if trim(text) == seq!['1'] {
        Ok(true)
    } else if trim(text) == seq!['0'] {
        Ok(false)
    } else {
        Err(ParseError::InvalidBool)
    }
}

/// The text that a device path file holds while no device is set.
pub open spec fn null_path() -> Seq<char> {
    seq!['(', 'n', 'u', 'l', 'l', ')', '\n']
}

/// `s` without its final newline, where it ends in one.
pub open spec fn strip_final_newline(s: Seq<char>) -> Seq<char> {
    if s.len() > 0 && s.last() == '\n' {
        s.drop_last()
    } else {
        s
    }
}

/// What the device path attribute reads as from the file text `text`.
pub open spec fn decode_device_path(text: Seq<char>) -> Option<Seq<char>> {
    if text == null_path() {
        None
    } else {
        Some(strip_final_newline(text))
    }
}

fn digit_str(d: u64) -> (r: &'static str)
    requires
        d < 10,
    ensures
        r@ == seq![digit_char(d as nat)],
{
    proof {
        reveal_strlit("0");
        reveal_strlit("1");
        reveal_strlit("2");
        reveal_strlit("3");
        reveal_strlit("4");
        reveal_strlit("5");
        reveal_strlit("6");
        reveal_strlit("7");
        reveal_strlit("8");
        reveal_strlit("9");
    }
    let r = if d == 0 { "0" } else if d == 1 { "1" } else if d == 2 { "2" } else if d == 3 { "3" }
    else if d == 4 { "4" } else if d == 5 { "5" } else if d == 6 { "6" } else if d == 7 { "7" }
    else if d == 8 { "8" } else { "9" };
    proof {
        assert(r@ =~= seq![digit_char(d as nat)]);
    }
    r
}

fn append_decimal(out: &mut String, n: u64)
    ensures
        final(out)@ == old(out)@ + decimal(n as nat),
    decreases n,
{
    if n >= 10 {
        append_decimal(out, n / 10);
    }
    out.append(digit_str(n % 10));
    proof {
        if n >= 10 {
            assert(old(out)@ + decimal(n as nat) =~= old(out)@ + decimal((n / 10) as nat) + seq![digit_char((n % 10) as nat)]);
        } else {
            assert(old(out)@ + decimal(n as nat) =~= old(out)@ + seq![digit_char(n as nat)]);
        }
    }
}

/// The decimal digits of `n`.
pub fn decimal_text(n: u64) -> (r: String)
    ensures
        r@ == decimal(n as nat),
{
    let mut r = String::new();
    append_decimal(&mut r, n);
    proof {
        assert(r@ =~= decimal(n as nat));
    }
    r
}

/// The file text of the unsigned integer `n`: its decimal digits and a newline.
pub fn encode_uint(n: u64) -> (r: String)
    ensures
        r@ == line_of(decimal(n as nat)),
{
    let mut r = decimal_text(n);
    r.append("\n");
    proof {
        reveal_strlit("\n");
        assert(r@ =~= line_of(decimal(n as nat)));
    }
    r
}

/// The file text of the boolean `b`.
pub fn encode_boolean(b: bool) -> (r: String)
    ensures
        r@ == encode_bool(b),
{
    proof {
        reveal_strlit("1\n");
        reveal_strlit("0\n");
    }
    let r = if b { String::from_str("1\n") } else { String::from_str("0\n") };
    proof {
        assert(r@ =~= encode_bool(b));
    }
    r
}

proof fn lemma_value_step(d: Seq<char>, i: int)
    requires
        0 <= i < d.len(),
    ensures
        value(d.take(i + 1)) == value(d.take(i)) * 10 + digit_value(d[i]),
{
    assert(d.take(i + 1).drop_last() =~= d.take(i));
}

/// Parses `s` as an unsigned integer no larger than `max`.
pub fn parse_unsigned(s: &str, max: u64) -> (r: Result<u64, ParseError>)
    requires
        max <= u32::MAX,
    ensures
        r matches Ok(v) ==> parse_uint(s@, max as nat) == Ok::<nat, ParseError>(v as nat),
        r matches Err(e) ==> parse_uint(s@, max as nat) == Err::<nat, ParseError>(e),
{
    let n = s.unicode_len();
    if n == 0 {
        return Err(ParseError::Empty);
    }
    let start: usize = if s.get_char(0) == '+' { 1 } else { 0 };
    let ghost d = if s@[0] == '+' { s@.drop_first() } else { s@ };
    proof {
        assert(d =~= s@.subrange(start as int, n as int));
    }
    if start == n {
        return Err(ParseError::InvalidDigit);
    }
    let mut i: usize = start;
    let mut acc: u64 = 0;
    proof {
        assert(d.take(0) =~= Seq::<char>::empty());
    }
    while i < n
        invariant
            start <= i <= n,
            n == s@.len(),
            d == s@.subrange(start as int, n as int),
            n > 0,
            d == (if s@[0] == '+' { s@.drop_first() } else { s@ }),
            acc as nat == value(d.take(i - start)),
            acc <= max,
            max <= u32::MAX,
            all_digits(d.take(i - start)),
            forall|k: int| 0 <= k <= i - start ==> #[trigger] value(d.take(k)) <= max,
        decreases n - i,
    {
        let c = s.get_char(i);
        let ghost k = i - start;
        if !((c as u32) >= 48 && (c as u32) <= 57) {
            proof {
                assert(d[k] == c);
                assert forall|m: int| 0 <= m <= d.len() && all_digits(#[trigger] d.take(m)) implies value(d.take(m)) <= max by {
                    if m > k {
                        assert(d.take(m)[k] == d[k]);
                        assert(!is_digit(d.take(m)[k]));
                    } else {
                        assert(value(d.take(m)) <= max);
                    }
                }
                assert(!all_digits(d)) by {
                    assert(!is_digit(d[k]));
                }
                assert(!overflows(d, max as nat));
                assert(d.len() > 0);
            }
            return Err(ParseError::InvalidDigit);
        }
        let next: u64 = acc * 10 + (c as u32 - 48) as u64;
        proof {
            lemma_value_step(d, k);
            assert(d.take(k + 1) =~= d.take(k).push(d[k]));
        }
        if next > max {
            proof {
                assert(all_digits(d.take(k + 1)));
                assert(overflows(d, max as nat));
                assert(d.len() > 0);

            }
            return Err(ParseError::PosOverflow);
        }
        acc = next;
        i = i + 1;
    }
    proof {
        let k = n - start;
        assert(d.take(k) =~= d);
        assert forall|m: int| 0 <= m <= d.len() && all_digits(#[trigger] d.take(m)) implies value(d.take(m)) <= max by {
        }
    }
    Ok(acc)
}


/// Decodes the file text of an unsigned integer attribute no larger than `max`.
pub fn decode_unsigned(text: &str, max: u64) -> (r: Result<u64, ParseError>)
    requires
        max <= u32::MAX,
    ensures
        r matches Ok(v) ==> decode_uint(text@, max as nat) == Ok::<nat, ParseError>(v as nat),
        r matches Err(e) ==> decode_uint(text@, max as nat) == Err::<nat, ParseError>(e),
{
    let t = trim_text(text);
    parse_unsigned(t.as_str(), max)
}

/// Decodes the file text of a boolean attribute.
pub fn decode_boolean(text: &str) -> (r: Result<bool, ParseError>)
    ensures
        r == decode_bool(text@),
{
    let t = trim_text(text);
    let ts = t.as_str();
    if ts.unicode_len() == 1 {
        let c = ts.get_char(0);
        if c == '1' {
            proof {
                assert(t@ =~= seq!['1']);
            }
            return Ok(true);
        } else if c == '0' {
            proof {
                assert(t@ =~= seq!['0']);
            }
            return Ok(false);
        }
    }
    proof {
        assert(t@ != seq!['1'] && t@ != seq!['0']) by {
            if t@ == seq!['1'] || t@ == seq!['0'] {
                assert(t@.len() == 1);
            }
        }
    }
    Err(ParseError::InvalidBool)
}

/// Decodes the file text of the device path attribute.
pub fn decode_path(text: &String) -> (r: Option<String>)
    ensures
        r matches Some(p) ==> decode_device_path(text@) == Some(p@),
        r is None <==> decode_device_path(text@) is None,
{
    let null = String::from_str("(null)\n");
    proof {
        reveal_strlit("(null)\n");
        assert(null@ =~= null_path());
    }
    if *text == null {
        None
    } else {
        let t = text.as_str();
        let n = t.unicode_len();
        if n > 0 && t.get_char(n - 1) == '\n' {
            proof {
                assert(text@.last() == text@[n - 1]);
                assert(t@.subrange(0, n - 1) =~= text@.drop_last());
            }
            Some(String::from_str(t.substring_char(0, n - 1)))
        } else {
            proof {
                if n > 0 {
                    assert(text@.last() == text@[n - 1]);
                }
            }
            Some(text.clone())
        }
    }
}

proof fn lemma_digit(d: nat)
    requires
        d < 10,
    ensures
        is_digit(digit_char(d)),
        digit_value(digit_char(d)) == d,
{
}

proof fn lemma_decimal(n: nat)
    ensures
        decimal(n).len() > 0,
        all_digits(decimal(n)),
        value(decimal(n)) == n,
    decreases n,
{
    lemma_digit(n % 10);
    if n < 10 {
        let s = decimal(n);
        assert(s.drop_last() =~= Seq::<char>::empty());
        assert(value(s.drop_last()) == 0);
        assert(s.last() == digit_char(n));
        assert(is_digit(s[0]));
    } else {
        lemma_decimal(n / 10);
        let s = decimal(n);
        assert(s.drop_last() =~= decimal(n / 10));
        assert(s.last() == digit_char(n % 10));
        assert(value(s) == value(decimal(n / 10)) * 10 + n % 10);
        assert((n / 10) * 10 + n % 10 == n);
        assert forall|i: int| 0 <= i < s.len() implies #[trigger] is_digit(s[i]) by {
            if i < s.len() - 1 {
                assert(s[i] == decimal(n / 10)[i]);
            }
        }
    }
}

proof fn lemma_prefix_value(s: Seq<char>, k: int)
    requires
        0 <= k <= s.len(),
    ensures
        value(s.take(k)) <= value(s),
    decreases s.len() - k,
{
    if k < s.len() {
        lemma_prefix_value(s, k + 1);
        lemma_value_step(s, k);
    } else {
        assert(s.take(k) =~= s);
    }
}

proof fn lemma_trim_line(s: Seq<char>)
    requires
        s.len() == 0 || (!is_space(s[0]) && !is_space(s.last())),
    ensures
        trim(line_of(s)) == s,
{
    let l = line_of(s);
    assert(l.drop_last() =~= s);
    assert(is_space('\n'));
    if s.len() == 0 {
        assert(l.drop_first() =~= Seq::<char>::empty());
        assert(trim_start(l) == trim_start(l.drop_first()));
    } else {
        assert(l[0] == s[0]);
        assert(trim_start(l) == l);
        assert(trim_end(l) == trim_end(s));
    }
}

/// A boolean written to an attribute file reads back as itself.
pub proof fn boolean_round_trip(b: bool)
    ensures
        decode_bool(encode_bool(b)) == Ok::<bool, ParseError>(b),
{
    let d: Seq<char> = if b { seq!['1'] } else { seq!['0'] };
    assert(encode_bool(b) =~= line_of(d));
    lemma_trim_line(d);
}

/// An unsigned integer no larger than `max` written to an attribute file in
/// decimal reads back as itself.
pub proof fn unsigned_round_trip(n: nat, max: nat)
    requires
        n <= max,
    ensures
        decode_uint(line_of(decimal(n)), max) == Ok::<nat, ParseError>(n),
{
    let d = decimal(n);
    lemma_decimal(n);
    assert(!is_space(d[0]) && !is_space(d.last())) by {
        assert(is_digit(d[0]));
        assert(is_digit(d[d.len() - 1]));
    }
    lemma_trim_line(d);
    assert(!overflows(d, max)) by {
        assert forall|k: int| 0 <= k <= d.len() && all_digits(#[trigger] d.take(k)) implies value(d.take(k)) <= max by {
            lemma_prefix_value(d, k);
        }
    }
    assert(is_digit(d[0]));
}

/// A string with no newline and no white space at either end, written to an
/// attribute file, reads back as itself where the reader trims white space.
pub proof fn text_round_trip(s: Seq<char>)
    requires
        !s.contains('\n'),
        s.len() == 0 || (!is_space(s[0]) && !is_space(s.last())),
    ensures
        trim(line_of(s)) == s,
{
    lemma_trim_line(s);
}

/// A string with no newline, written to an attribute file, reads back as
/// itself where the reader strips the trailing newlines.
pub proof fn line_round_trip(s: Seq<char>)
    requires
        !s.contains('\n'),
    ensures
        strip_newlines(line_of(s)) == s,
{
    let l = line_of(s);
    assert(l.drop_last() =~= s);
    if s.len() > 0 {
        assert(s.last() != '\n') by {
            assert(s[s.len() - 1] == s.last());
        }
    }
    assert(strip_newlines(s) == s);
    assert(strip_newlines(l) == strip_newlines(s));
}

/// The device path attribute reads as absent exactly when its file holds
/// `(null)` and a newline; any other text reads as that text without its one
/// final newline. A path other than `(null)`, written to the file, reads back
/// as itself.
pub proof fn device_path_round_trip(text: Seq<char>, p: Seq<char>)
    requires
        p != null_path().drop_last(),
    ensures
        decode_device_path(text) is None <==> text == null_path(),
        text != null_path() ==> decode_device_path(text) == Some(strip_final_newline(text)),
        decode_device_path(line_of(p)) == Some(p),
{
    assert(line_of(p).drop_last() =~= p);
    assert(line_of(p) != null_path()) by {
        if line_of(p) == null_path() {
            assert(null_path().drop_last() == p);
        }
    }
}

/// A number that parses within `max` is no larger than `max`.
pub proof fn lemma_parsed_bound(s: Seq<char>, max: nat)
    ensures
        parse_uint(s, max) matches Ok(n) ==> n <= max,
{
    if s.len() > 0 {
        let d = if s[0] == '+' { s.drop_first() } else { s };
        if d.len() > 0 && !overflows(d, max) && all_digits(d) {
            assert(d.take(d.len() as int) =~= d);
        }
    }
}

} // verus!
