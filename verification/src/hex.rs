use vstd::prelude::*;
use vstd::string::*;

verus! {

/// Why a text is no hexadecimal rendering of an identifier.
#[derive(Debug, Clone, Copy, PartialEq, Eq, Structural)]
pub enum HexError {
    /// The text has not exactly two characters for each byte.
    Length,
    /// The text has the right length and holds a character that is no hex digit.
    Digit,
}

/// Value of a hex digit, in either case.
pub open spec fn hex_value(c: char) -> Option<u8> {
    if '0' <= c <= '9' {
        Some((c as u8 - '0' as u8) as u8)
    } else if 'a' <= c <= 'f' {
        Some((c as u8 - 'a' as u8 + 10) as u8)
    } else if 'A' <= c <= 'F' {
        Some((c as u8 - 'A' as u8 + 10) as u8)
    } else {
        None
    }
}

/// The lower-case hex digit of a value below sixteen.
pub open spec fn hex_digit(n: u8) -> char {
    if n < 10 {
        ('0' as u8 + n) as char
    } else {
        ('a' as u8 + n - 10) as char
    }
}

/// Whether every character of `s` is a hex digit.
pub open spec fn is_hex(s: Seq<char>) -> bool {
    forall|i: int| 0 <= i < s.len() ==> (#[trigger] hex_value(s[i])) is Some
}

/// The byte that the two digits at `2 * i` and `2 * i + 1` stand for.
pub open spec fn byte_at(s: Seq<char>, i: int) -> u8 {
    (16 * hex_value(s[2 * i])->0 + hex_value(s[2 * i + 1])->0) as u8
}

/// The bytes that a text of hex digits stands for, two digits to the byte,
/// the high digit first.
pub open spec fn decode(s: Seq<char>) -> Seq<u8> {
    Seq::new((s.len() / 2) as nat, |i: int| byte_at(s, i))
}

/// The digit at place `i` of the rendering of `bytes`.
pub open spec fn digit_at(bytes: Seq<u8>, i: int) -> char {
    if i % 2 == 0 {
        hex_digit(bytes[i / 2] / 16)
    } else {
        hex_digit(bytes[i / 2] % 16)
    }
}

/// Lower-case rendering of `bytes`: two digits to the byte, zero-padded, in
/// the order of the bytes.
pub open spec fn encode(bytes: Seq<u8>) -> Seq<char> {
    Seq::new(2 * bytes.len(), |i: int| digit_at(bytes, i))
}

/// Whether `s` renders an identifier of `n` bytes.
pub open spec fn is_hex_of(s: Seq<char>, n: nat) -> bool {
    s.len() == 2 * n && is_hex(s)
}

/// A hex digit decodes to the value it was made from.
pub proof fn digit_round_trip(n: u8)
    requires
        n < 16,
    ensures
        hex_value(hex_digit(n)) == Some(n),
{
}

/// Rendering bytes as hex and decoding the text gives the bytes back, and the
/// rendering is a text of hex digits, two for each byte.
pub proof fn decode_encode(bytes: Seq<u8>)
    ensures
        is_hex_of(encode(bytes), bytes.len()),
        decode(encode(bytes)) == bytes,
{
    let s = encode(bytes);
    assert forall|i: int| 0 <= i < s.len() implies (#[trigger] hex_value(s[i])) is Some by {
        digit_round_trip(bytes[i / 2] / 16);
        digit_round_trip(bytes[i / 2] % 16);
    }
    assert forall|i: int| 0 <= i < bytes.len() implies decode(s)[i] == bytes[i] by {
        digit_round_trip(bytes[i] / 16);
        digit_round_trip(bytes[i] % 16);
        assert(s[2 * i] == hex_digit(bytes[i] / 16));
        assert(s[2 * i + 1] == hex_digit(bytes[i] % 16));
    }
    assert(decode(s) =~= bytes);
}

/// Value of an ASCII hex digit.
fn nibble(b: u8) -> (r: Option<u8>)
    requires
        b < 128,
    ensures
        r == hex_value(b as char),
        r is Some ==> r->0 < 16,
{
    if b >= 0x30 && b <= 0x39 {
        Some(b - 0x30)
    } else if b >= 0x61 && b <= 0x66 {
        Some(b - 0x61 + 10)
    } else if b >= 0x41 && b <= 0x46 {
        Some(b - 0x41 + 10)
    } else {
        None
    }
}

/// Decodes a text of exactly `2 * N` hex digits, in either case, to `N` bytes.
pub fn decode_hex<const N: usize>(input: &str) -> (r: Result<[u8; N], HexError>)
    requires
        2 * N <= usize::MAX,
    ensures
        r is Ok <==> is_hex_of(input@, N as nat),
        r is Ok ==> r->Ok_0@ == decode(input@),
        r == Err::<[u8; N], HexError>(HexError::Length) <==> input@.len() != 2 * N,
        r == Err::<[u8; N], HexError>(HexError::Digit) <==> input@.len() == 2 * N && !is_hex(
            input@,
        ),
{
    if input.unicode_len() != 2 * N {
        return Err(HexError::Length);
    }
    if !input.is_ascii() {
        proof {
            let i = choose|i: int| 0 <= i < input@.len() && !('\0' <= #[trigger] input@[i] <= '\u{7f}');
            assert(hex_value(input@[i]) is None);
        }
        return Err(HexError::Digit);
    }
    let mut out: [u8; N] = [0u8; N];
    let mut i: usize = 0;
    while i < N
        invariant
            i <= N,
            2 * N <= usize::MAX,
            input.is_ascii(),
            input@.len() == 2 * N,
            forall|j: int| 0 <= j < 2 * i ==> (#[trigger] hex_value(input@[j])) is Some,
            forall|j: int| 0 <= j < i ==> out@[j] == byte_at(input@, j),
        decreases N - i,
    {
        let hi = nibble(input.get_ascii(2 * i));
        let lo = nibble(input.get_ascii(2 * i + 1));
        assert(input@[2 * i] as u8 as char == input@[2 * i]);
        assert(input@[2 * i + 1] as u8 as char == input@[2 * i + 1]);
        match (hi, lo) {
            (Some(h), Some(l)) => {
                out[i] = 16 * h + l;
            },
            _ => {
                assert(!is_hex(input@));
                return Err(HexError::Digit);
            },
        }
        i = i + 1;
    }
    assert(out@ =~= decode(input@));
    Ok(out)
}

/// The text of one lower-case hex digit.
fn digit_text(n: u8) -> (r: &'static str)
    requires
        n < 16,
    ensures
        r@ == seq![hex_digit(n)],
{
    proof {
        reveal_strlit("0");
        reveal_strlit("1");
        reveal_strlit("2");
        reveal_strlit("3");
        reveal_strlit("4");
        reveal_strlit("5");
        reveal_strlit("6");
        reveal_strlit("7");
        reveal_strlit("8");
        reveal_strlit("9");
        reveal_strlit("a");
        reveal_strlit("b");
        reveal_strlit("c");
        reveal_strlit("d");
        reveal_strlit("e");
        reveal_strlit("f");
    }
    let r = match n {
        0 => "0",
        1 => "1",
        2 => "2",
        3 => "3",
        4 => "4",
        5 => "5",
        6 => "6",
        7 => "7",
        8 => "8",
        9 => "9",
        10 => "a",
        11 => "b",
        12 => "c",
        13 => "d",
        14 => "e",
        _ => "f",
    };
    assert(r@ =~= seq![hex_digit(n)]);
    r
}

/// Renders bytes as lower-case hex, two digits to the byte.
pub fn encode_hex(bytes: &[u8]) -> (r: String)
    ensures
        r@ == encode(bytes@),
{
    let mut text = String::new();
    let mut i: usize = 0;
    while i < bytes.len()
        invariant
            i <= bytes.len(),
            text@.len() == 2 * i,
            forall|j: int| 0 <= j < 2 * i ==> text@[j] == digit_at(bytes@, j),
        decreases bytes.len() - i,
    {
        let b: u8 = bytes[i];
        text.append(digit_text(b / 16));
        text.append(digit_text(b % 16));
        i = i + 1;
    }
    assert(text@ =~= encode(bytes@));
    text
}

} // verus!
