//! Programs written as hexadecimal text, such as `"A9 05 AA"`.
use vstd::prelude::*;
use vstd::string::StringSliceAdditionalSpecFns;

verus! {

#[verifier::external_type_specification]
#[verifier::external_body]
pub struct ExFromHexError(hex::FromHexError);

/// Why a program text cannot be read.
#[derive(Clone, Copy, Debug, PartialEq, Eq, Structural)]
pub enum ProgramError {
    /// An odd number of digits remains once the whitespace is removed.
    OddLength,
    /// Something other than a hexadecimal digit or whitespace.
    InvalidDigit,
}

/// The ASCII whitespace bytes that may separate the digits.
pub open spec fn is_space(b: u8) -> bool {
    b == 0x20 || b == 0x09 || b == 0x0A || b == 0x0D || b == 0x0C
}

pub open spec fn is_hex_byte(b: u8) -> bool {
    (0x30 <= b <= 0x39) || (0x41 <= b <= 0x46) || (0x61 <= b <= 0x66)
}

/// The value of a hexadecimal digit, in either case.
pub open spec fn hex_value(b: u8) -> int {
    if 0x30 <= b <= 0x39 {
        b - 0x30
    } else if 0x41 <= b <= 0x46 {
        b - 0x41 + 10
    } else {
        b - 0x61 + 10
    }
}

/// True when `s` is an even number of hexadecimal digits.
pub open spec fn valid_hex(s: Seq<u8>) -> bool {
    s.len() % 2 == 0 && forall|i: int| 0 <= i < s.len() ==> #[trigger] is_hex_byte(s[i])
}

/// One byte per pair of digits, the first digit the high one.
pub open spec fn hex_decoded(s: Seq<u8>) -> Seq<u8> {
    Seq::new(s.len() / 2, |i: int| (hex_value(s[2 * i]) * 16 + hex_value(s[2 * i + 1])) as u8)
}

pub open spec fn not_space() -> spec_fn(u8) -> bool {
    |b: u8| !is_space(b)
}

/// `s` without its whitespace bytes.
pub open spec fn strip_spaces(s: Seq<u8>) -> Seq<u8> {
    s.filter(not_space())
}

/// Relies on hex::decode: `Ok` exactly for an even number of hexadecimal
/// digits (either case), one byte per pair, high digit first.
#[verifier::external_body]
fn decode_hex(data: &[u8]) -> (r: Result<Vec<u8>, hex::FromHexError>)
    ensures
        r is Ok <==> valid_hex(data@),
        r matches Ok(v) ==> v@ == hex_decoded(data@),
{
    hex::decode(data)
}

/// Reads a program written as hexadecimal digits, with any whitespace between
/// them.
pub fn parse_program(program: &str) -> (r: Result<Vec<u8>, ProgramError>)
    ensures
        ({
            let digits = strip_spaces(program.spec_bytes());
            &&& r == Err::<Vec<u8>, _>(ProgramError::OddLength) <==> digits.len() % 2 == 1
            &&& r == Err::<Vec<u8>, _>(ProgramError::InvalidDigit) <==> (digits.len() % 2 == 0
                && !valid_hex(digits))
            &&& r matches Ok(v) ==> v@ == hex_decoded(digits)
        }),
{
    let bytes = program.as_bytes();
    let mut digits: Vec<u8> = Vec::new();
    let mut i: usize = 0;
    while i < bytes.len()
        invariant
            i <= bytes@.len(),
            bytes@ == program.spec_bytes(),
            digits@ == strip_spaces(bytes@.subrange(0, i as int)),
        decreases bytes@.len() - i,
    {
        let b = bytes[i];
        proof {
            let s = bytes@.subrange(0, i as int);
            assert(bytes@.subrange(0, i + 1) =~= s.push(b));
            Seq::filter_distributes_over_add(s, seq![b], not_space());
            reveal(Seq::filter);
            assert(seq![b].drop_last() =~= Seq::<u8>::empty());
            assert(Seq::<u8>::empty().filter(not_space()) =~= Seq::<u8>::empty());
            assert(s + seq![b] =~= s.push(b));
        }
        if !(b == 0x20 || b == 0x09 || b == 0x0A || b == 0x0D || b == 0x0C) {
            digits.push(b);
        }
        i += 1;
    }
    assert(bytes@.subrange(0, bytes@.len() as int) =~= bytes@);
    if digits.len() % 2 == 1 {
        return Err(ProgramError::OddLength);
    }
    match decode_hex(digits.as_slice()) {
        Ok(v) => Ok(v),
        Err(_) => Err(ProgramError::InvalidDigit),
    }
}

} // verus!
