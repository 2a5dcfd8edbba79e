//! Decimal numbers as strings: parsing of the unsigned values the jailer
//! reads from its command line (uid, gid, cgroup version, resource limits)
//! and formatting of the values it writes out (the child PID, error detail).

use vstd::prelude::*;

verus! {

/// Why an unsigned decimal string failed to parse.  The kinds and their
/// rendered messages follow the ones std's unsigned parsers report, so the
/// detail carried by a resource-limit error reads the same.
#[derive(Debug, Clone, Copy, PartialEq, Eq, Structural)]
pub enum ParseUintError {
    /// The string was empty.
    Empty,
    /// A character was not a decimal digit.
    InvalidDigit,
    /// The value does not fit the target type.
    PosOverflow,
}

impl ParseUintError {
    /// The human-readable description of the failure.
    pub fn message(&self) -> (r: String)
        ensures
            r@ == spec_parse_uint_error_message(*self),
    {
        match self {
            ParseUintError::Empty => "cannot parse integer from empty string".to_owned(),
            ParseUintError::InvalidDigit => "invalid digit found in string".to_owned(),
            ParseUintError::PosOverflow => "number too large to fit in target type".to_owned(),
        }
    }
}

pub open spec fn spec_parse_uint_error_message(e: ParseUintError) -> Seq<char> {
    match e {
        ParseUintError::Empty => "cannot parse integer from empty string"@,
        ParseUintError::InvalidDigit => "invalid digit found in string"@,
        ParseUintError::PosOverflow => "number too large to fit in target type"@,
    }
}

pub open spec fn is_digit(c: char) -> bool {
    48 <= c as u32 && c as u32 <= 57
}

pub open spec fn digit_val(c: char) -> nat
    recommends
        is_digit(c),
{
    (c as u32 - 48) as nat
}

pub open spec fn all_digits(s: Seq<char>) -> bool {
    forall|i: int| 0 <= i < s.len() ==> is_digit(#[trigger] s[i])
}

/// Value of a digit string, most significant digit first.
pub open spec fn digits_value(s: Seq<char>) -> nat
    decreases s.len(),
{
    if s.len() == 0 {
        0
    } else {
        digits_value(s.drop_last()) * 10 + digit_val(s.last())
    }
}

/// The digits an unsigned parse reads: everything after an optional leading
/// `+` sign.
pub open spec fn spec_uint_body(s: Seq<char>) -> Seq<char> {
    if s.len() > 0 && s[0] == '+' {
        s.drop_first()
    } else {
        s
    }
}

/// What parsing an unsigned decimal string yields when the value must fit
/// below `max`: an empty string is refused, then any non-digit, then a value
/// above the bound.
pub open spec fn spec_parse_uint(s: Seq<char>, max: nat) -> Result<nat, ParseUintError> {
    if s.len() == 0 {
        Err(ParseUintError::Empty)
    } else {
        let body = spec_uint_body(s);
        if body.len() == 0 || !all_digits(body) {
            Err(ParseUintError::InvalidDigit)
        } else if digits_value(body) > max {
            Err(ParseUintError::PosOverflow)
        } else {
            Ok(digits_value(body))
        }
    }
}

proof fn lemma_digits_value_grow(s: Seq<char>, bound: nat)
    requires
        digits_value(s.drop_last()) > bound || (digits_value(s.drop_last()) * 10 + digit_val(
            s.last(),
        )) > bound,
        s.len() > 0,
    ensures
        digits_value(s) > bound,
{
}

/// Parse a decimal `u64`, accepting an optional leading `+` sign.
pub fn parse_u64(s: &str) -> (r: Result<u64, ParseUintError>)
    ensures
        r is Ok ==> spec_parse_uint(s@, u64::MAX as nat) == Result::<nat, ParseUintError>::Ok(
            r->Ok_0 as nat,
        ),
        r is Err ==> spec_parse_uint(s@, u64::MAX as nat) == Result::<nat, ParseUintError>::Err(
            r->Err_0,
        ),
{
    let len = s.unicode_len();
    if len == 0 {
        return Err(ParseUintError::Empty);
    }
    let first = s.get_char(0);
    let start: usize = if (first as u32) == 43 {
        1
    } else {
        0
    };
    proof {
        assert(s@.subrange(start as int, len as int) =~= spec_uint_body(s@));
    }
    if start == len {
        return Err(ParseUintError::InvalidDigit);
    }
    let ghost body = spec_uint_body(s@);
    let mut val: u64 = 0;
    let mut overflow = false;
    let mut i: usize = start;
    while i < len
        invariant
            start <= i <= len,
            start < len,
            len == s@.len(),
            body == spec_uint_body(s@),
            body == s@.subrange(start as int, len as int),
            all_digits(s@.subrange(start as int, i as int)),
            !overflow ==> val as nat == digits_value(s@.subrange(start as int, i as int)),
            overflow ==> digits_value(s@.subrange(start as int, i as int)) > u64::MAX,
        decreases len - i,
    {
        let c = s.get_char(i);
        let d32 = c as u32;
        if d32 < 48 || d32 > 57 {
            proof {
                assert(0 <= i - start < body.len());
                assert(body[i - start] == s@[i as int]);
                assert(!is_digit(body[i - start]));
                assert(!all_digits(body));
            }
            return Err(ParseUintError::InvalidDigit);
        }
        let d = (d32 - 48) as u64;
        let ghost prefix = s@.subrange(start as int, i as int);
        let ghost grown = s@.subrange(start as int, i + 1);
        proof {
            assert(grown.drop_last() =~= prefix);
            assert(grown.last() == s@[i as int]);
        }
        if overflow {
            proof {
                lemma_digits_value_grow(grown, u64::MAX as nat);
            }
        } else if val > (u64::MAX - d) / 10 {
            proof {
                let q = ((u64::MAX - d) / 10) as nat;
                let m = (u64::MAX - d) as nat;
                assert(m == 10 * q + m % 10) by {
                    vstd::arithmetic::div_mod::lemma_fundamental_div_mod(m as int, 10);
                }
                assert(val as nat * 10 >= (q + 1) * 10) by (nonlinear_arith)
                    requires
                        val as nat >= q + 1,
                ;
                assert(digits_value(grown) > u64::MAX);
            }
            overflow = true;
        } else {
            proof {
                let q = ((u64::MAX - d) / 10) as nat;
                let m = (u64::MAX - d) as nat;
                assert(m == 10 * q + m % 10) by {
                    vstd::arithmetic::div_mod::lemma_fundamental_div_mod(m as int, 10);
                }
                assert(val as nat * 10 <= q * 10) by (nonlinear_arith)
                    requires
                        val as nat <= q,
                ;
            }
            val = val * 10 + d;
        }
        i = i + 1;
    }
    proof {
        assert(s@.subrange(start as int, len as int) =~= body);
    }
    if overflow {
        Err(ParseUintError::PosOverflow)
    } else {
        Ok(val)
    }
}

/// Parse a decimal `u32`, accepting an optional leading `+` sign.
pub fn parse_u32(s: &str) -> (r: Result<u32, ParseUintError>)
    ensures
        r is Ok ==> spec_parse_uint(s@, u32::MAX as nat) == Result::<nat, ParseUintError>::Ok(
            r->Ok_0 as nat,
        ),
        r is Err ==> spec_parse_uint(s@, u32::MAX as nat) == Result::<nat, ParseUintError>::Err(
            r->Err_0,
        ),
{
    match parse_u64(s) {
        Ok(v) => {
            if v <= u32::MAX as u64 {
                Ok(v as u32)
            } else {
                Err(ParseUintError::PosOverflow)
            }
        },
        Err(e) => Err(e),
    }
}

/// Parse a decimal `u8`, accepting an optional leading `+` sign.
pub fn parse_u8(s: &str) -> (r: Result<u8, ParseUintError>)
    ensures
        r is Ok ==> spec_parse_uint(s@, u8::MAX as nat) == Result::<nat, ParseUintError>::Ok(
            r->Ok_0 as nat,
        ),
        r is Err ==> spec_parse_uint(s@, u8::MAX as nat) == Result::<nat, ParseUintError>::Err(
            r->Err_0,
        ),
{
    match parse_u64(s) {
        Ok(v) => {
            if v <= u8::MAX as u64 {
                Ok(v as u8)
            } else {
                Err(ParseUintError::PosOverflow)
            }
        },
        Err(e) => Err(e),
    }
}

pub open spec fn digit_char(d: nat) -> char
    recommends
        d < 10,
{
    if d == 0 {
        '0'
    } else if d == 1 {
        '1'
    } else if d == 2 {
        '2'
    } else if d == 3 {
        '3'
    } else if d == 4 {
        '4'
    } else if d == 5 {
        '5'
    } else if d == 6 {
        '6'
    } else if d == 7 {
        '7'
    } else if d == 8 {
        '8'
    } else {
        '9'
    }
}

/// The decimal rendering of `n`, most significant digit first, no sign and
/// no leading zero.
pub open spec fn spec_decimal(n: nat) -> Seq<char>
    decreases n,
{
    if n < 10 {
        seq![digit_char(n)]
    } else {
        spec_decimal(n / 10).push(digit_char(n % 10))
    }
}

fn digit_str(d: u64) -> (r: &'static str)
    requires
        d < 10,
    ensures
        r@ =~= seq![digit_char(d as nat)],
{
    proof {
        reveal_strlit("0");
        reveal_strlit("1");
        reveal_strlit("2");
        reveal_strlit("3");
        reveal_strlit("4");
        reveal_strlit("5");
        reveal_strlit("6");
        reveal_strlit("7");
        reveal_strlit("8");
        reveal_strlit("9");
    }
    if d == 0 {
        "0"
    } else if d == 1 {
        "1"
    } else if d == 2 {
        "2"
    } else if d == 3 {
        "3"
    } else if d == 4 {
        "4"
    } else if d == 5 {
        "5"
    } else if d == 6 {
        "6"
    } else if d == 7 {
        "7"
    } else if d == 8 {
        "8"
    } else {
        "9"
    }
}

/// Render `n` in decimal.
pub fn u64_to_string(n: u64) -> (r: String)
    ensures
        r@ == spec_decimal(n as nat),
    decreases n,
{
    if n < 10 {
        digit_str(n).to_owned()
    } else {
        let mut r = u64_to_string(n / 10);
        r.append(digit_str(n % 10));
        proof {
            assert(r@ =~= spec_decimal(n as nat));
        }
        r
    }
}

} // verus!
