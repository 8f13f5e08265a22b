use vstd::prelude::*;

verus! {

/// The character of a decimal digit.
pub open spec fn digit_char(d: nat) -> char {
    ('0' as int + d) as char
}

/// The decimal digits of a natural number, most significant first, without leading zeros.
pub open spec fn decimal_digits(n: nat) -> Seq<char>
    decreases n,
{
    if n < 10 {
        seq![digit_char(n)]
    } else {
        decimal_digits(n / 10).push(digit_char(n % 10))
    }
}

/// The decimal text of an integer, with a minus sign when it is negative.
pub open spec fn decimal_text(x: int) -> Seq<char> {
    if x < 0 {
        seq!['-'] + decimal_digits((-x) as nat)
    } else {
        decimal_digits(x as nat)
    }
}

/// The decimal text of a status value, as `Display` for `i32` writes it.
#[verifier::external_body]
pub fn i32_text(x: i32) -> (s: String)
    ensures
        s@ == decimal_text(x as int),
{
    x.to_string()
}

/// A character folded to lower case when it is an ASCII capital, as a code point.
pub open spec fn ascii_fold(c: char) -> int {
    if 'A' <= c && c <= 'Z' {
        c as int + 32
    } else {
        c as int
    }
}

/// Whether two texts are equal up to the case of ASCII letters.
pub open spec fn eq_ignore_ascii_case_spec(a: Seq<char>, b: Seq<char>) -> bool {
    &&& a.len() == b.len()
    &&& forall|i: int| 0 <= i < a.len() ==> ascii_fold(#[trigger] a[i]) == ascii_fold(b[i])
}

fn fold_exec(c: char) -> (r: u32)
    ensures
        r == ascii_fold(c),
{
    let x = c as u32;
    if 65 <= x && x <= 90 {
        x + 32
    } else {
        x
    }
}

/// Whether two texts are equal up to the case of ASCII letters.
pub fn eq_ignore_ascii_case(a: &str, b: &str) -> (r: bool)
    ensures
        r == eq_ignore_ascii_case_spec(a@, b@),
{
    let n = a.unicode_len();
    if n != b.unicode_len() {
        return false;
    }
    let mut i: usize = 0;
    while i < n
        invariant
            n == a@.len(),
            n == b@.len(),
            i <= n,
            forall|j: int| 0 <= j < i ==> ascii_fold(#[trigger] a@[j]) == ascii_fold(b@[j]),
        decreases n - i,
    {
        if fold_exec(a.get_char(i)) != fold_exec(b.get_char(i)) {
            return false;
        }
        i = i + 1;
    }
    true
}

/// Whether two texts are equal.
pub fn text_eq(a: &str, b: &str) -> (r: bool)
    ensures
        r == (a@ == b@),
{
    let n = a.unicode_len();
    if n != b.unicode_len() {
        return false;
    }
    let mut i: usize = 0;
    while i < n
        invariant
            n == a@.len(),
            n == b@.len(),
            i <= n,
            forall|j: int| 0 <= j < i ==> a@[j] == b@[j],
        decreases n - i,
    {
        if a.get_char(i) != b.get_char(i) {
            return false;
        }
        i = i + 1;
    }
    proof {
        assert(a@ =~= b@);
    }
    true
}

/// The value of a decimal digit character.
pub open spec fn digit_value(c: char) -> int {
    c as int - '0' as int
}

/// Whether a character is a decimal digit.
pub open spec fn is_digit(c: char) -> bool {
    '0' <= c && c <= '9'
}

/// The number that a text of decimal digits denotes.
pub open spec fn decimal_value(s: Seq<char>) -> nat
    decreases s.len(),
{
    if s.len() == 0 {
        0
    } else {
        (decimal_value(s.drop_last()) * 10 + digit_value(s.last())) as nat
    }
}

/// Why a text does not denote a `u64`, as `u64::from_str` reports it.
#[derive(Debug, Clone, Copy, PartialEq, Eq)]
pub enum IntParseError {
    /// The text is empty.
    Empty,
    /// A character is not a decimal digit.
    InvalidDigit,
    /// The number exceeds `u64::MAX`.
    TooLarge,
}

impl IntParseError {
    /// The text of this error, as the standard library writes it.
    pub fn to_string(&self) -> (s: String)
        ensures
            *self is Empty ==> s@ == "cannot parse integer from empty string"@,
            *self is InvalidDigit ==> s@ == "invalid digit found in string"@,
            *self is TooLarge ==> s@ == "number too large to fit in target type"@,
    {
        match self {
            IntParseError::Empty => String::from_str("cannot parse integer from empty string"),
            IntParseError::InvalidDigit => String::from_str("invalid digit found in string"),
            IntParseError::TooLarge => String::from_str("number too large to fit in target type"),
        }
    }
}

/// The outcome of reading a text as a `u64` in decimal, scanning from the
/// left: a non-digit is reported unless the value already overflowed before it.
pub open spec fn parse_u64_spec(s: Seq<char>) -> Result<u64, IntParseError> {
    let body = if s.len() > 1 && s[0] == '+' {
        s.drop_first()
    } else {
        s
    };
    if s.len() == 0 {
        Err(IntParseError::Empty)
    } else {
        scan_u64(body, 0)
    }
}

/// Scanning decimal digits from position `i` onwards, the prefix before `i`
/// being all digits with a value that fits.
pub open spec fn scan_u64(s: Seq<char>, i: int) -> Result<u64, IntParseError>
    decreases s.len() - i,
{
    if i >= s.len() {
        Ok(decimal_value(s) as u64)
    } else if !is_digit(s[i]) {
        Err(IntParseError::InvalidDigit)
    } else if decimal_value(s.subrange(0, i + 1)) > u64::MAX {
        Err(IntParseError::TooLarge)
    } else {
        scan_u64(s, i + 1)
    }
}

proof fn lemma_decimal_value_prefix(s: Seq<char>, i: int)
    requires
        0 <= i < s.len(),
        is_digit(s[i]),
    ensures
        decimal_value(s.subrange(0, i + 1)) == decimal_value(s.subrange(0, i)) * 10 + digit_value(
            s[i],
        ),
{
    assert(s.subrange(0, i + 1).drop_last() =~= s.subrange(0, i));
}

/// Reads a text as a `u64` in decimal, as `u64::from_str` does.
pub fn parse_u64(text: &str) -> (r: Result<u64, IntParseError>)
    ensures
        r == parse_u64_spec(text@),
{
    let n = text.unicode_len();
    if n == 0 {
        return Err(IntParseError::Empty);
    }
    let start: usize = if n > 1 && text.get_char(0) == '+' {
        1
    } else {
        0
    };
    let ghost s = text@;
    let ghost body = if s.len() > 1 && s[0] == '+' {
        s.drop_first()
    } else {
        s
    };
    proof {
        assert(body.len() == n - start);
        assert forall|k: int| 0 <= k < body.len() implies body[k] == s[k + start] by {}
        assert(parse_u64_spec(s) == scan_u64(body, 0));
    }
    let mut acc: u64 = 0;
    let mut i: usize = start;
    while i < n
        invariant
            s == text@,
            n == s.len(),
            start <= i <= n,
            start == 0 || start == 1,
            body.len() == n - start,
            forall|k: int| 0 <= k < body.len() ==> body[k] == s[k + start],
            acc == decimal_value(body.subrange(0, i - start)),
            scan_u64(body, 0) == scan_u64(body, i - start),
            parse_u64_spec(s) == scan_u64(body, 0),
        decreases n - i,
    {
        let c = text.get_char(i);
        let k: usize = i - start;
        proof {
            assert(c == body[k as int]);
        }
        if !('0' <= c && c <= '9') {
            proof {
                assert(scan_u64(body, k as int) == Err::<u64, IntParseError>(IntParseError::InvalidDigit));
            }
            return Err(IntParseError::InvalidDigit);
        }
        let d = (c as u32 - '0' as u32) as u64;
        proof {
            lemma_decimal_value_prefix(body, k as int);
        }
        if acc > (u64::MAX - d) / 10 {
            proof {
                assert(acc * 10 + d > u64::MAX) by (nonlinear_arith)
                    requires
                        acc > (u64::MAX - d) / 10,
                        d <= 9,
                ;
                assert(scan_u64(body, k as int) == Err::<u64, IntParseError>(IntParseError::TooLarge));
            }
            return Err(IntParseError::TooLarge);
        }
        proof {
            assert(acc * 10 + d <= u64::MAX) by (nonlinear_arith)
                requires
                    acc <= (u64::MAX - d) / 10,
                    d <= 9,
            ;
        }
        acc = acc * 10 + d;
        i = i + 1;
    }
    proof {
        assert(body.subrange(0, body.len() as int) =~= body);
    }
    Ok(acc)
}

} // verus!
