use vstd::prelude::*;
use vstd::string::StringExecFns;

verus! {

/// Why a decimal number could not be read.
#[derive(Debug, Clone, Copy, PartialEq, Eq)]
pub enum IntParseError {
    /// The text is empty.
    Empty,
    /// The text holds something other than an optional `+` and digits.
    InvalidDigit,
    /// The number does not fit in the target type.
    PosOverflow,
}

pub open spec fn is_digit(c: char) -> bool {
    '0' <= c && c <= '9'
}

pub open spec fn digit_value(c: char) -> nat {
    ((c as u32) - ('0' as u32)) as nat
}

/// Reads the digits `ds` left to right, starting from the value `acc`,
/// failing at the first non-digit or at the first step that exceeds `max`.
pub open spec fn scan_decimal(ds: Seq<char>, acc: nat, max: nat) -> Result<nat, IntParseError>
    decreases ds.len(),
{
    if ds.len() == 0 {
        Ok(acc)
    } else if !is_digit(ds[0]) {
        Err(IntParseError::InvalidDigit)
    } else if acc * 10 + digit_value(ds[0]) > max {
        Err(IntParseError::PosOverflow)
    } else {
        scan_decimal(ds.drop_first(), acc * 10 + digit_value(ds[0]), max)
    }
}

/// The value of an unsigned decimal integer no greater than `max`: an optional
/// `+` followed by decimal digits.
pub open spec fn parse_unsigned(s: Seq<char>, max: nat) -> Result<nat, IntParseError> {
    if s.len() == 0 {
        Err(IntParseError::Empty)
    } else if s.len() == 1 && (s[0] == '+' || s[0] == '-') {
        Err(IntParseError::InvalidDigit)
    } else if s[0] == '+' {
        scan_decimal(s.drop_first(), 0, max)
    } else {
        scan_decimal(s, 0, max)
    }
}

pub open spec fn int_error_text(e: IntParseError) -> Seq<char> {
    match e {
        IntParseError::Empty => "cannot parse integer from empty string"@,
        IntParseError::InvalidDigit => "invalid digit found in string"@,
        IntParseError::PosOverflow => "number too large to fit in target type"@,
    }
}

impl IntParseError {
    /// The human-readable description of the error.
    pub fn message(&self) -> (m: String)
        ensures
            m@ == int_error_text(*self),
    {
        match self {
            IntParseError::Empty => String::from_str("cannot parse integer from empty string"),
            IntParseError::InvalidDigit => String::from_str("invalid digit found in string"),
            IntParseError::PosOverflow => String::from_str("number too large to fit in target type"),
        }
    }
}

fn parse_bounded(s: &Vec<char>, max: u64) -> (r: Result<u64, IntParseError>)
    requires
        max <= 0xffff_ffff,
    ensures
        match parse_unsigned(s@, max as nat) {
            Ok(n) => r == Ok::<u64, IntParseError>(n as u64),
            Err(e) => r == Err::<u64, IntParseError>(e),
        },
{
    if s.len() == 0 {
        return Err(IntParseError::Empty);
    }
    if s.len() == 1 && (s[0] == '+' || s[0] == '-') {
        return Err(IntParseError::InvalidDigit);
    }
    let start: usize = if s[0] == '+' { 1 } else { 0 };
    let ghost ds = s@.skip(start as int);
    assert(start == 1 ==> ds == s@.drop_first());
    assert(start == 0 ==> ds == s@);
    assert(parse_unsigned(s@, max as nat) == scan_decimal(ds, 0, max as nat));
    let mut acc: u64 = 0;
    let mut i: usize = start;
    while i < s.len()
        invariant
            start <= i <= s.len(),
            max <= 0xffff_ffff,
            acc <= max,
            ds == s@.skip(start as int),
            parse_unsigned(s@, max as nat) == scan_decimal(ds, 0, max as nat),
            scan_decimal(ds, 0, max as nat) == scan_decimal(s@.skip(i as int), acc as nat, max as nat),
        decreases s.len() - i,
    {
        let c = s[i];
        assert(s@.skip(i as int)[0] == c);
        assert(s@.skip(i as int).len() > 0);
        if !('0' <= c && c <= '9') {
            assert(!is_digit(s@.skip(i as int)[0]));
            return Err(IntParseError::InvalidDigit);
        }
        let d: u64 = ((c as u32) - ('0' as u32)) as u64;
        assert(d as nat == digit_value(c));
        if acc * 10 + d > max {
            assert(scan_decimal(s@.skip(i as int), acc as nat, max as nat) == Err::<nat, IntParseError>(IntParseError::PosOverflow));
            return Err(IntParseError::PosOverflow);
        }
        assert(s@.skip(i as int).drop_first() == s@.skip(i + 1));
        acc = acc * 10 + d;
        i = i + 1;
    }
    assert(s@.skip(i as int).len() == 0);
    Ok(acc)
}

/// Reads a `u16` written in decimal (an optional `+` followed by digits).
pub fn parse_u16(s: &Vec<char>) -> (r: Result<u16, IntParseError>)
    ensures
        match parse_unsigned(s@, 0xffff) {
            Ok(n) => r == Ok::<u16, IntParseError>(n as u16),
            Err(e) => r == Err::<u16, IntParseError>(e),
        },
{
    match parse_bounded(s, 0xffff) {
        Ok(n) => {
            proof { lemma_scan_bounded(s@, 0xffff); }
            Ok(n as u16)
        },
        Err(e) => Err(e),
    }
}

/// Reads a `u32` written in decimal (an optional `+` followed by digits).
pub fn parse_u32(s: &Vec<char>) -> (r: Result<u32, IntParseError>)
    ensures
        match parse_unsigned(s@, 0xffff_ffff) {
            Ok(n) => r == Ok::<u32, IntParseError>(n as u32),
            Err(e) => r == Err::<u32, IntParseError>(e),
        },
{
    match parse_bounded(s, 0xffff_ffff) {
        Ok(n) => {
            proof { lemma_scan_bounded(s@, 0xffff_ffff); }
            Ok(n as u32)
        },
        Err(e) => Err(e),
    }
}

proof fn lemma_scan_le(ds: Seq<char>, acc: nat, max: nat)
    requires
        acc <= max,
    ensures
        scan_decimal(ds, acc, max) matches Ok(n) ==> n <= max,
    decreases ds.len(),
{
    if ds.len() > 0 && is_digit(ds[0]) && acc * 10 + digit_value(ds[0]) <= max {
        lemma_scan_le(ds.drop_first(), acc * 10 + digit_value(ds[0]), max);
    }
}

/// A successfully read value never exceeds the bound.
pub proof fn lemma_scan_bounded(s: Seq<char>, max: nat)
    ensures
        parse_unsigned(s, max) matches Ok(n) ==> n <= max,
{
    if s.len() > 0 {
        lemma_scan_le(s, 0, max);
        lemma_scan_le(s.drop_first(), 0, max);
    }
}

} // verus!
