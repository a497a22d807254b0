//! Reading and writing base addresses as hexadecimal text.

use vstd::prelude::*;
use vstd::string::*;

verus! {

/// A validated base address in the target's address space.
pub type ParsedAddress = usize;

/// Why a piece of text is not an address.
#[derive(Clone, Copy, Debug, PartialEq, Eq)]
pub enum AddressError {
    /// The text lacks the `0x` prefix, is shorter than eight characters, holds
    /// something other than hexadecimal digits after the prefix, or names a
    /// value wider than the machine word.
    BadFormat,
}

/// Fewest characters, prefix included, that address text may have.
pub const MIN_ADDRESS_CHARS: usize = 8;

/// Whether `c` is one of `0-9`, `a-f`, `A-F`.
pub open spec fn is_hex_digit(c: char) -> bool {
    ('0' <= c && c <= '9') || ('a' <= c && c <= 'f') || ('A' <= c && c <= 'F')
}

/// The number a hexadecimal digit stands for.
pub open spec fn hex_digit_value(c: char) -> nat {
    if '0' <= c && c <= '9' {
        (c as int - '0' as int) as nat
    } else if 'a' <= c && c <= 'f' {
        (c as int - 'a' as int + 10) as nat
    } else {
        (c as int - 'A' as int + 10) as nat
    }
}

/// Whether every character of `s` is a hexadecimal digit.
pub open spec fn all_hex_digits(s: Seq<char>) -> bool {
    forall|i: int| 0 <= i < s.len() ==> is_hex_digit(#[trigger] s[i])
}

/// The number that a run of hexadecimal digits denotes, most significant
/// digit first. The empty run denotes zero.
pub open spec fn hex_value(s: Seq<char>) -> nat
    decreases s.len(),
{
    if s.len() == 0 {
        0
    } else {
        16 * hex_value(s.drop_last()) + hex_digit_value(s.last())
    }
}

/// Whether `s` opens with the prefix `0x`.
pub open spec fn has_hex_prefix(s: Seq<char>) -> bool {
    s.len() >= 2 && s[0] == '0' && s[1] == 'x'
}

/// Whether `s` opens with `0x` and is long enough to be an address.
pub open spec fn has_address_shape(s: Seq<char>) -> bool {
    has_hex_prefix(s) && s.len() >= MIN_ADDRESS_CHARS
}

/// Whether `s` is the text of an address: the prefix `0x`, at least eight
/// characters in all, only hexadecimal digits after the prefix, and a value
/// that fits the machine word.
pub open spec fn is_address_text(s: Seq<char>) -> bool {
    &&& has_address_shape(s)
    &&& all_hex_digits(s.skip(2))
    &&& hex_value(s.skip(2)) <= usize::MAX
}

/// What validating `s` yields.
pub open spec fn parse_address(s: Seq<char>) -> Result<ParsedAddress, AddressError> {
    if is_address_text(s) {
        Ok(hex_value(s.skip(2)) as usize)
    } else {
        Err(AddressError::BadFormat)
    }
}

/// A longer run of hexadecimal digits never denotes less than one of its
/// prefixes.
proof fn lemma_hex_value_prefix(s: Seq<char>, k: int)
    requires
        0 <= k <= s.len(),
    ensures
        hex_value(s.take(k)) <= hex_value(s),
    decreases s.len(),
{
    if k == s.len() {
        assert(s.take(k) =~= s);
    } else {
        lemma_hex_value_prefix(s.drop_last(), k);
        assert(s.drop_last().take(k) =~= s.take(k));
    }
}

/// Reads one hexadecimal digit.
fn hex_digit(c: char) -> (d: Option<u8>)
    ensures
        d is Some <==> is_hex_digit(c),
        d matches Some(v) ==> v == hex_digit_value(c) && v < 16,
{
    if c >= '0' && c <= '9' {
        Some((c as u32 - '0' as u32) as u8)
    } else if c >= 'a' && c <= 'f' {
        Some((c as u32 - 'a' as u32 + 10) as u8)
    } else if c >= 'A' && c <= 'F' {
        Some((c as u32 - 'A' as u32 + 10) as u8)
    } else {
        None
    }
}

/// Tells whether `text` opens with `0x` and has at least eight characters.
pub fn looks_like_address(text: &str) -> (shaped: bool)
    ensures
        shaped == has_address_shape(text@),
{
    let n: usize = text.unicode_len();
    n >= MIN_ADDRESS_CHARS && text.get_char(0) == '0' && text.get_char(1) == 'x'
}

/// Validates address text and converts it to the address it names.
///
/// The text is accepted exactly when it satisfies [`is_address_text`]; the
/// result is then the value of the digits after the prefix. Anything else,
/// the empty text and a value too wide for the machine word included, is
/// answered with [`AddressError::BadFormat`]. In particular no text
/// without the prefix, and none shorter than eight characters, is accepted.
pub fn validate_address(text: &str) -> (r: Result<ParsedAddress, AddressError>)
    ensures
        r == parse_address(text@),
        is_address_text(text@) ==> r is Ok && r->Ok_0 == hex_value(text@.skip(2)),
        !is_address_text(text@) ==> r == Err::<ParsedAddress, AddressError>(
            AddressError::BadFormat,
        ),
        !has_hex_prefix(text@) || text@.len() < MIN_ADDRESS_CHARS ==> r == Err::<
            ParsedAddress,
            AddressError,
        >(AddressError::BadFormat),
{
    if !looks_like_address(text) {
        return Err(AddressError::BadFormat);
    }
    let n: usize = text.unicode_len();
    let ghost digits = text@.skip(2);
    let mut acc: usize = 0;
    let mut i: usize = 2;
    while i < n
        invariant
            2 <= i <= n,
            n == text@.len(),
            digits == text@.skip(2),
            all_hex_digits(digits.take(i - 2)),
            acc == hex_value(digits.take(i - 2)),
        decreases n - i,
    {
        let c = text.get_char(i);
        let ghost seen = digits.take(i - 2);
        let ghost next = digits.take(i - 1);
        proof {
            assert(digits[i - 2] == c);
            assert(next.drop_last() =~= seen);
            assert(next.last() == c);
        }
        match hex_digit(c) {
            None => {
                return Err(AddressError::BadFormat);
            },
            Some(d) => {
                let widened = match acc.checked_mul(16) {
                    Some(shifted) => shifted.checked_add(d as usize),
                    None => None,
                };
                match widened {
                    Some(value) => {
                        acc = value;
                    },
                    None => {
                        proof {
                            assert(hex_value(next) > usize::MAX);
                            if all_hex_digits(digits) {
                                lemma_hex_value_prefix(digits, i - 1);
                            }
                        }
                        return Err(AddressError::BadFormat);
                    },
                }
            },
        }
        proof {
            assert forall|j: int| 0 <= j < next.len() implies is_hex_digit(#[trigger] next[j]) by {
                if j < seen.len() {
                    assert(next[j] == seen[j]);
                }
            }
        }
        i = i + 1;
    }
    proof {
        assert(digits.take(n - 2) =~= digits);
    }
    Ok(acc)
}

/// The upper-case hexadecimal digit for a value below sixteen.
pub open spec fn hex_digit_char(d: nat) -> char {
    if d < 10 {
        ('0' as nat + d) as char
    } else {
        ('A' as nat + d - 10) as char
    }
}

/// The hexadecimal digits of `n`, most significant first, upper case, with
/// no leading zero; zero is written as the single digit `0`.
pub open spec fn hex_digits(n: nat) -> Seq<char>
    decreases n,
{
    if n < 16 {
        seq![hex_digit_char(n)]
    } else {
        hex_digits(n / 16).push(hex_digit_char(n % 16))
    }
}

/// How an address is written: `0x` followed by its digits.
pub open spec fn hex_text(n: nat) -> Seq<char> {
    seq!['0', 'x'] + hex_digits(n)
}

/// The one-character text of an upper-case hexadecimal digit.
fn digit_text(d: usize) -> (t: &'static str)
    requires
        d < 16,
    ensures
        t@ == seq![hex_digit_char(d as nat)],
{
    proof {
        reveal_strlit("0");
        reveal_strlit("1");
        reveal_strlit("2");
        reveal_strlit("3");
        reveal_strlit("4");
        reveal_strlit("5");
        reveal_strlit("6");
        reveal_strlit("7");
        reveal_strlit("8");
        reveal_strlit("9");
        reveal_strlit("A");
        reveal_strlit("B");
        reveal_strlit("C");
        reveal_strlit("D");
        reveal_strlit("E");
        reveal_strlit("F");
    }
    let t = if d == 0 {
        "0"
    } else if d == 1 {
        "1"
    } else if d == 2 {
        "2"
    } else if d == 3 {
        "3"
    } else if d == 4 {
        "4"
    } else if d == 5 {
        "5"
    } else if d == 6 {
        "6"
    } else if d == 7 {
        "7"
    } else if d == 8 {
        "8"
    } else if d == 9 {
        "9"
    } else if d == 10 {
        "A"
    } else if d == 11 {
        "B"
    } else if d == 12 {
        "C"
    } else if d == 13 {
        "D"
    } else if d == 14 {
        "E"
    } else {
        "F"
    };
    assert(t@ =~= seq![hex_digit_char(d as nat)]);
    t
}

/// Appends the digits of `value` to `out`.
fn push_hex_digits(out: &mut String, value: usize)
    ensures
        final(out)@ == old(out)@ + hex_digits(value as nat),
    decreases value,
{
    if value >= 16 {
        push_hex_digits(out, value / 16);
    }
    out.append(digit_text(value % 16));
    proof {
        let before = old(out)@;
        let digit = hex_digit_char((value % 16) as nat);
        if value >= 16 {
            let upper = hex_digits((value / 16) as nat);
            assert((before + upper) + seq![digit] =~= before + upper.push(digit));
        }
    }
}

/// Writes an address as text: `0x`, then its upper-case hexadecimal digits
/// without padding.
pub fn format_hex(address: ParsedAddress) -> (text: String)
    ensures
        text@ == hex_text(address as nat),
{
    proof {
        reveal_strlit("0x");
    }
    let mut text = String::from_str("0x");
    assert(text@ =~= seq!['0', 'x']);
    push_hex_digits(&mut text, address);
    text
}

/// Smallest address whose text, written without padding, reaches the
/// minimum length: six digits after the prefix.
pub const MIN_ROUND_TRIP_ADDRESS: usize = 0x10_0000;

/// Each digit that is written reads back as the value it was written for.
proof fn lemma_digit_char_value(d: nat)
    requires
        d < 16,
    ensures
        is_hex_digit(hex_digit_char(d)),
        hex_digit_value(hex_digit_char(d)) == d,
{
}

/// Written digits are hexadecimal digits, and they denote the number they
/// were written for.
pub proof fn lemma_hex_digits_denote(n: nat)
    ensures
        hex_digits(n).len() >= 1,
        all_hex_digits(hex_digits(n)),
        hex_value(hex_digits(n)) == n,
    decreases n,
{
    let s = hex_digits(n);
    lemma_digit_char_value(n % 16);
    if n < 16 {
        assert(s.drop_last() =~= Seq::<char>::empty());
        assert(hex_value(s.drop_last()) == 0);
    } else {
        lemma_hex_digits_denote(n / 16);
        assert(s.drop_last() =~= hex_digits(n / 16));
        assert forall|i: int| 0 <= i < s.len() implies is_hex_digit(#[trigger] s[i]) by {
            if i < s.len() - 1 {
                assert(s[i] == hex_digits(n / 16)[i]);
            }
        }
    }
}

/// A number is written with at least six digits exactly when it reaches
/// `0x100000`.
proof fn lemma_six_digits(n: nat)
    ensures
        hex_digits(n).len() >= 6 <==> n >= 0x10_0000,
{
    let n1 = n / 16;
    let n2 = n1 / 16;
    let n3 = n2 / 16;
    let n4 = n3 / 16;
    let n5 = n4 / 16;
    lemma_hex_digits_denote(n5);
    assert(hex_digits(n4).len() >= 2 <==> n4 >= 16);
    assert(hex_digits(n3).len() >= 3 <==> n3 >= 0x100);
    assert(hex_digits(n2).len() >= 4 <==> n2 >= 0x1000);
    assert(hex_digits(n1).len() >= 5 <==> n1 >= 0x1_0000);
}

/// Writing an address and reading the written digits gives the address
/// back. The written text is itself accepted as address text exactly when
/// the address is at least `0x100000`; below that it is shorter than eight
/// characters.
pub proof fn lemma_write_then_read(address: ParsedAddress)
    ensures
        has_hex_prefix(hex_text(address as nat)),
        all_hex_digits(hex_text(address as nat).skip(2)),
        hex_value(hex_text(address as nat).skip(2)) == address,
        is_address_text(hex_text(address as nat)) <==> address >= MIN_ROUND_TRIP_ADDRESS,
        address >= MIN_ROUND_TRIP_ADDRESS ==> parse_address(hex_text(address as nat)) == Ok::<
            ParsedAddress,
            AddressError,
        >(address),
{
    let n = address as nat;
    lemma_hex_digits_denote(n);
    lemma_six_digits(n);
    assert(hex_text(n).skip(2) =~= hex_digits(n));
}

/// Round trip: address text is read as exactly the number its digits
/// denote, and writing that address and reading the digits back gives the
/// same number, whatever the casing or padding of the text it came from.
pub proof fn lemma_read_write_read(s: Seq<char>)
    requires
        is_address_text(s),
    ensures
        parse_address(s) is Ok,
        parse_address(s)->Ok_0 == hex_value(s.skip(2)),
        hex_value(hex_text(parse_address(s)->Ok_0 as nat).skip(2)) == hex_value(s.skip(2)),
        parse_address(s)->Ok_0 >= MIN_ROUND_TRIP_ADDRESS ==> parse_address(
            hex_text(parse_address(s)->Ok_0 as nat),
        ) == parse_address(s),
{
    lemma_write_then_read(parse_address(s)->Ok_0);
}

} // verus!
