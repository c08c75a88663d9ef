//! Bluetooth device addresses: six bytes, stored little-endian, displayed as
//! big-endian colon-separated uppercase hex, with an address-type tag.

use vstd::prelude::*;

use crate::strutil::push_char;

verus! {

/// Why an address string failed to parse. The messages mirror the
/// conventions of an unsigned base-16 integer parse for the per-octet
/// failures.
#[derive(Copy, Clone, Debug, PartialEq, Eq)]
pub enum AddressParseError {
    /// More than six `:`-separated octets.
    TooManyOctets,
    /// Fewer than six `:`-separated octets.
    TooFewOctets,
    /// An octet with no characters at all.
    EmptyOctet,
    /// An octet containing a character that is not a hexadecimal digit.
    InvalidDigit,
    /// An octet whose value does not fit in one byte.
    Overflow,
}

impl AddressParseError {
    /// A human-readable description of the error.
    pub fn message(&self) -> (r: String)
        ensures
            r@ == match self {
                AddressParseError::TooManyOctets => "Too many octets"@,
                AddressParseError::TooFewOctets => "Too few octets"@,
                AddressParseError::EmptyOctet => "cannot parse integer from empty string"@,
                AddressParseError::InvalidDigit => "invalid digit found in string"@,
                AddressParseError::Overflow => "number too large to fit in target type"@,
            },
    {
        match self {
            AddressParseError::TooManyOctets => "Too many octets".to_owned(),
            AddressParseError::TooFewOctets => "Too few octets".to_owned(),
            AddressParseError::EmptyOctet => "cannot parse integer from empty string".to_owned(),
            AddressParseError::InvalidDigit => "invalid digit found in string".to_owned(),
            AddressParseError::Overflow => "number too large to fit in target type".to_owned(),
        }
    }
}

/// A Bluetooth device address, tagged as public (the fixed controller
/// address) or random (assigned by the controller or host). The six bytes
/// are kept in little-endian order.
#[derive(Copy, Clone, Debug, Eq, Hash, PartialEq)]
pub enum Address {
    Public([u8; 6]),
    Random([u8; 6]),
}

/// The uppercase hexadecimal digit for a value below sixteen.
pub open spec fn spec_hex_char(n: u8) -> char
    recommends
        n < 16,
{
    if n == 0 {
        '0'
    } else if n == 1 {
        '1'
    } else if n == 2 {
        '2'
    } else if n == 3 {
        '3'
    } else if n == 4 {
        '4'
    } else if n == 5 {
        '5'
    } else if n == 6 {
        '6'
    } else if n == 7 {
        '7'
    } else if n == 8 {
        '8'
    } else if n == 9 {
        '9'
    } else if n == 10 {
        'A'
    } else if n == 11 {
        'B'
    } else if n == 12 {
        'C'
    } else if n == 13 {
        'D'
    } else if n == 14 {
        'E'
    } else {
        'F'
    }
}

/// One byte as two uppercase hexadecimal digits.
pub open spec fn spec_byte_hex(b: u8) -> Seq<char> {
    seq![spec_hex_char(b / 16), spec_hex_char(b % 16)]
}

/// The display form of six little-endian address bytes: big-endian order,
/// colon-separated, uppercase hex.
pub open spec fn spec_addr_string(bytes: Seq<u8>) -> Seq<char>
    recommends
        bytes.len() == 6,
{
    spec_byte_hex(bytes[5]) + seq![':'] + spec_byte_hex(bytes[4]) + seq![':'] + spec_byte_hex(
        bytes[3],
    ) + seq![':'] + spec_byte_hex(bytes[2]) + seq![':'] + spec_byte_hex(bytes[1]) + seq![':']
        + spec_byte_hex(bytes[0])
}

/// The value of a hexadecimal digit character, if it is one.
pub open spec fn spec_hex_digit_value(c: char) -> Option<u8> {
    if c == '0' {
        Some(0)
    } else if c == '1' {
        Some(1)
    } else if c == '2' {
        Some(2)
    } else if c == '3' {
        Some(3)
    } else if c == '4' {
        Some(4)
    } else if c == '5' {
        Some(5)
    } else if c == '6' {
        Some(6)
    } else if c == '7' {
        Some(7)
    } else if c == '8' {
        Some(8)
    } else if c == '9' {
        Some(9)
    } else if c == 'a' || c == 'A' {
        Some(10)
    } else if c == 'b' || c == 'B' {
        Some(11)
    } else if c == 'c' || c == 'C' {
        Some(12)
    } else if c == 'd' || c == 'D' {
        Some(13)
    } else if c == 'e' || c == 'E' {
        Some(14)
    } else if c == 'f' || c == 'F' {
        Some(15)
    } else {
        None
    }
}

/// Hex digits folded left-to-right onto an accumulated value: the first
/// non-digit fails with `InvalidDigit`, and a value that leaves one byte's
/// range fails with `Overflow`.
pub open spec fn spec_parse_hex_digits(s: Seq<char>, acc: int) -> Result<u8, AddressParseError>
    recommends
        0 <= acc <= 255,
    decreases s.len(),
{
    if s.len() == 0 {
        Ok(acc as u8)
    } else {
        match spec_hex_digit_value(s[0]) {
            None => Err(AddressParseError::InvalidDigit),
            Some(d) => if acc * 16 + d > 255 {
                Err(AddressParseError::Overflow)
            } else {
                spec_parse_hex_digits(s.drop_first(), acc * 16 + d)
            },
        }
    }
}

/// One octet token as a byte, following the conventions of an unsigned
/// base-16 integer parse: empty input is rejected, a single leading `+` is
/// allowed (but `+` alone is not), and every remaining character must be a
/// hexadecimal digit.
pub open spec fn spec_parse_octet(s: Seq<char>) -> Result<u8, AddressParseError> {
    if s.len() == 0 {
        Err(AddressParseError::EmptyOctet)
    } else if s[0] == '+' {
        if s.len() == 1 {
            Err(AddressParseError::InvalidDigit)
        } else {
            spec_parse_hex_digits(s.drop_first(), 0)
        }
    } else {
        spec_parse_hex_digits(s, 0)
    }
}

/// Plain splitting on a delimiter, with no escape semantics: adjacent
/// delimiters and delimiters at either end produce empty chunks, and the
/// empty string yields one empty chunk.
pub open spec fn spec_split_rec(
    s: Seq<char>,
    delimiter: char,
    cur: Seq<char>,
    acc: Seq<Seq<char>>,
) -> Seq<Seq<char>>
    decreases s.len(),
{
    if s.len() == 0 {
        acc.push(cur)
    } else if s[0] == delimiter {
        spec_split_rec(s.drop_first(), delimiter, Seq::empty(), acc.push(cur))
    } else {
        spec_split_rec(s.drop_first(), delimiter, cur.push(s[0]), acc)
    }
}

/// The chunks of `s` split on `delimiter`.
pub open spec fn spec_split(s: Seq<char>, delimiter: char) -> Seq<Seq<char>> {
    spec_split_rec(s, delimiter, Seq::empty(), Seq::empty())
}

/// Octet tokens parsed in order, at most `remaining` of them: one more than
/// that fails with `TooManyOctets` before it is even parsed.
pub open spec fn spec_parse_octets(octets: Seq<Seq<char>>, remaining: int) -> Result<
    Seq<u8>,
    AddressParseError,
>
    decreases octets.len(),
{
    if octets.len() == 0 {
        Ok(Seq::empty())
    } else if remaining == 0 {
        Err(AddressParseError::TooManyOctets)
    } else {
        match spec_parse_octet(octets[0]) {
            Err(e) => Err(e),
            Ok(b) => match spec_parse_octets(octets.drop_first(), remaining - 1) {
                Err(e) => Err(e),
                Ok(rest) => Ok(seq![b] + rest),
            },
        }
    }
}

/// What parsing a big-endian colon-separated hex address string yields: the
/// six bytes in little-endian order, or the first error encountered.
pub open spec fn spec_le_bytes_from_be_str(s: Seq<char>) -> Result<Seq<u8>, AddressParseError> {
    match spec_parse_octets(spec_split(s, ':'), 6) {
        Err(e) => Err(e),
        Ok(vals) => if vals.len() != 6 {
            Err(AddressParseError::TooFewOctets)
        } else {
            Ok(seq![vals[5], vals[4], vals[3], vals[2], vals[1], vals[0]])
        },
    }
}

/// The uppercase hexadecimal digit for a value below sixteen.
fn hex_char(n: u8) -> (r: char)
    requires
        n < 16,
    ensures
        r == spec_hex_char(n),
{
    match n {
        0 => '0',
        1 => '1',
        2 => '2',
        3 => '3',
        4 => '4',
        5 => '5',
        6 => '6',
        7 => '7',
        8 => '8',
        9 => '9',
        10 => 'A',
        11 => 'B',
        12 => 'C',
        13 => 'D',
        14 => 'E',
        _ => 'F',
    }
}

/// Appends one byte as two uppercase hexadecimal digits.
fn push_hex_byte(s: &mut String, b: u8)
    ensures
        final(s)@ == old(s)@ + spec_byte_hex(b),
{
    push_char(s, hex_char(b / 16));
    push_char(s, hex_char(b % 16));
    proof {
        assert(final(s)@ =~= old(s)@ + spec_byte_hex(b));
    }
}

/// Renders six little-endian address bytes big-endian, colon-separated, as
/// uppercase hex.
fn addr_to_string(bytes: &[u8; 6]) -> (r: String)
    ensures
        r@ == spec_addr_string(bytes@),
{
    let mut s = String::new();
    push_hex_byte(&mut s, bytes[5]);
    push_char(&mut s, ':');
    push_hex_byte(&mut s, bytes[4]);
    push_char(&mut s, ':');
    push_hex_byte(&mut s, bytes[3]);
    push_char(&mut s, ':');
    push_hex_byte(&mut s, bytes[2]);
    push_char(&mut s, ':');
    push_hex_byte(&mut s, bytes[1]);
    push_char(&mut s, ':');
    push_hex_byte(&mut s, bytes[0]);
    proof {
        assert(s@ =~= spec_addr_string(bytes@));
    }
    s
}

/// The value of a hexadecimal digit character, if it is one.
fn hex_digit_value(c: char) -> (r: Option<u8>)
    ensures
        r == spec_hex_digit_value(c),
{
    match c {
        '0' => Some(0),
        '1' => Some(1),
        '2' => Some(2),
        '3' => Some(3),
        '4' => Some(4),
        '5' => Some(5),
        '6' => Some(6),
        '7' => Some(7),
        '8' => Some(8),
        '9' => Some(9),
        'a' | 'A' => Some(10),
        'b' | 'B' => Some(11),
        'c' | 'C' => Some(12),
        'd' | 'D' => Some(13),
        'e' | 'E' => Some(14),
        'f' | 'F' => Some(15),
        _ => None,
    }
}

/// Splits on a delimiter with no escape semantics, keeping empty chunks.
fn plain_split(s: &str, delimiter: char) -> (r: Vec<String>)
    ensures
        r.deep_view() == spec_split(s@, delimiter),
{
    let ghost full = s@;
    let len = s.unicode_len();
    let mut chunks: Vec<String> = Vec::new();
    let mut cur = String::new();
    let mut i: usize = 0;
    proof {
        assert(full.subrange(0, len as int) =~= full);
        assert(chunks.deep_view() =~= Seq::<Seq<char>>::empty());
        assert(cur@ =~= Seq::<char>::empty());
    }
    while i < len
        invariant
            i <= len,
            len == full.len(),
            full == s@,
            spec_split(full, delimiter) == spec_split_rec(
                full.subrange(i as int, len as int),
                delimiter,
                cur@,
                chunks.deep_view(),
            ),
        decreases len - i,
    {
        let ghost suffix = full.subrange(i as int, len as int);
        proof {
            assert(suffix[0] == full[i as int]);
            assert(suffix.drop_first() =~= full.subrange(i as int + 1, len as int));
        }
        let c = s.get_char(i);
        if c == delimiter {
            let ghost old_chunks = chunks.deep_view();
            let ghost closed = cur@;
            chunks.push(cur);
            cur = String::new();
            proof {
                assert(chunks.deep_view() =~= old_chunks.push(closed));
            }
        } else {
            push_char(&mut cur, c);
        }
        i = i + 1;
    }
    proof {
        assert(full.subrange(i as int, len as int) =~= Seq::<char>::empty());
    }
    let ghost old_chunks = chunks.deep_view();
    let ghost closed = cur@;
    chunks.push(cur);
    proof {
        assert(chunks.deep_view() =~= old_chunks.push(closed));
    }
    chunks
}

/// Parses one octet token as a byte.
fn parse_octet(s: &str) -> (r: Result<u8, AddressParseError>)
    ensures
        r == spec_parse_octet(s@),
{
    let ghost full = s@;
    let len = s.unicode_len();
    if len == 0 {
        return Err(AddressParseError::EmptyOctet);
    }
    let mut j: usize = 0;
    if s.get_char(0) == '+' {
        if len == 1 {
            return Err(AddressParseError::InvalidDigit);
        }
        j = 1;
    }
    let mut acc: u16 = 0;
    proof {
        if j == 1 {
            assert(full.subrange(1, len as int) =~= full.drop_first());
        } else {
            assert(full.subrange(0, len as int) =~= full);
        }
    }
    while j < len
        invariant
            j <= len,
            len == full.len(),
            full == s@,
            acc <= 255,
            spec_parse_octet(full) == spec_parse_hex_digits(
                full.subrange(j as int, len as int),
                acc as int,
            ),
        decreases len - j,
    {
        let ghost suffix = full.subrange(j as int, len as int);
        proof {
            assert(suffix[0] == full[j as int]);
            assert(suffix.drop_first() =~= full.subrange(j as int + 1, len as int));
        }
        let c = s.get_char(j);
        match hex_digit_value(c) {
            None => {
                return Err(AddressParseError::InvalidDigit);
            },
            Some(d) => {
                let widened = acc * 16 + (d as u16);
                if widened > 255 {
                    return Err(AddressParseError::Overflow);
                }
                acc = widened;
            },
        }
        j = j + 1;
    }
    proof {
        assert(full.subrange(j as int, len as int) =~= Seq::<char>::empty());
    }
    Ok(acc as u8)
}

/// Reads a string of bytes in big-endian colon-separated hex and produces
/// the six bytes in little-endian order; `0x010203040506` becomes
/// `[6, 5, 4, 3, 2, 1]`.
fn le_bytes_from_be_str(s: &str) -> (r: Result<[u8; 6], AddressParseError>)
    ensures
        match r {
            Ok(b) => spec_le_bytes_from_be_str(s@) == Ok::<Seq<u8>, AddressParseError>(b@),
            Err(e) => spec_le_bytes_from_be_str(s@) == Err::<Seq<u8>, AddressParseError>(e),
        },
{
    let octets = plain_split(s, ':');
    let ghost odv = octets.deep_view();
    let mut vals: Vec<u8> = Vec::new();
    let mut k: usize = 0;
    proof {
        assert(odv.subrange(0, odv.len() as int) =~= odv);
        assert(vals@ + Seq::<u8>::empty() =~= vals@);
    }
    while k < octets.len()
        invariant
            k <= odv.len(),
            odv == octets.deep_view(),
            odv == spec_split(s@, ':'),
            odv.len() == octets@.len(),
            vals@.len() == k,
            k <= 6,
            match spec_parse_octets(odv.subrange(k as int, odv.len() as int), 6 - k as int) {
                Err(e) => spec_parse_octets(odv, 6) == Err::<Seq<u8>, AddressParseError>(e),
                Ok(rest) => spec_parse_octets(odv, 6) == Ok::<Seq<u8>, AddressParseError>(
                    vals@ + rest,
                ),
            },
        decreases odv.len() - k,
    {
        let ghost rest_octets = odv.subrange(k as int, odv.len() as int);
        proof {
            assert(rest_octets[0] == odv[k as int]);
            assert(rest_octets.drop_first() =~= odv.subrange(k as int + 1, odv.len() as int));
        }
        if vals.len() == 6 {
            proof {
                assert(spec_parse_octets(rest_octets, 6 - k as int) == Err::<
                    Seq<u8>,
                    AddressParseError,
                >(AddressParseError::TooManyOctets));
            }
            return Err(AddressParseError::TooManyOctets);
        }
        proof {
            assert(odv[k as int] == octets@[k as int]@);
        }
        match parse_octet(octets[k].as_str()) {
            Err(e) => {
                return Err(e);
            },
            Ok(b) => {
                let ghost old_vals = vals@;
                vals.push(b);
                proof {
                    assert(vals@ =~= old_vals + seq![b]);
                    match spec_parse_octets(
                        odv.subrange(k as int + 1, odv.len() as int),
                        6 - (k as int + 1),
                    ) {
                        Ok(rest) => {
                            assert(old_vals + (seq![b] + rest) =~= (old_vals + seq![b]) + rest);
                        },
                        Err(_) => {},
                    }
                }
            },
        }
        k = k + 1;
    }
    proof {
        assert(odv.subrange(k as int, odv.len() as int) =~= Seq::<Seq<char>>::empty());
        assert(vals@ + Seq::<u8>::empty() =~= vals@);
    }
    if vals.len() != 6 {
        return Err(AddressParseError::TooFewOctets);
    }
    let bytes: [u8; 6] = [vals[5], vals[4], vals[3], vals[2], vals[1], vals[0]];
    proof {
        assert(bytes@ =~= seq![vals@[5], vals@[4], vals@[3], vals@[2], vals@[1], vals@[0]]);
    }
    Ok(bytes)
}

impl Address {
    /// The six little-endian bytes of the address, whichever type it is.
    pub open spec fn bytes(&self) -> Seq<u8> {
        match self {
            Address::Public(b) => b@,
            Address::Random(b) => b@,
        }
    }

    /// The big-endian colon-separated uppercase-hex form of the address
    /// bytes.
    pub fn to_string(&self) -> (r: String)
        ensures
            r@ == spec_addr_string(self.bytes()),
    {
        match self {
            Address::Public(b) => addr_to_string(b),
            Address::Random(b) => addr_to_string(b),
        }
    }

    /// Parses a big-endian colon-separated hex string as a public address.
    pub fn public_from_str(s: &str) -> (r: Result<Address, AddressParseError>)
        ensures
            match r {
                Ok(a) => a matches Address::Public(b) && spec_le_bytes_from_be_str(s@) == Ok::<
                    Seq<u8>,
                    AddressParseError,
                >(b@),
                Err(e) => spec_le_bytes_from_be_str(s@) == Err::<Seq<u8>, AddressParseError>(e),
            },
    {
        match le_bytes_from_be_str(s) {
            Ok(bytes) => Ok(Address::Public(bytes)),
            Err(e) => Err(e),
        }
    }

    /// Parses a big-endian colon-separated hex string as a random address.
    pub fn random_from_str(s: &str) -> (r: Result<Address, AddressParseError>)
        ensures
            match r {
                Ok(a) => a matches Address::Random(b) && spec_le_bytes_from_be_str(s@) == Ok::<
                    Seq<u8>,
                    AddressParseError,
                >(b@),
                Err(e) => spec_le_bytes_from_be_str(s@) == Err::<Seq<u8>, AddressParseError>(e),
            },
    {
        match le_bytes_from_be_str(s) {
            Ok(bytes) => Ok(Address::Random(bytes)),
            Err(e) => Err(e),
        }
    }

    /// The name of the address type.
    pub fn address_type_string(&self) -> (r: String)
        ensures
            self matches Address::Public(_) ==> r@ == "Public"@,
            self matches Address::Random(_) ==> r@ == "Random"@,
    {
        match self {
            Address::Public(_) => "Public".to_owned(),
            Address::Random(_) => "Random".to_owned(),
        }
    }
}

} // verus!
