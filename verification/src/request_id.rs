//! Correlation identifiers: a short random token per request, hex-encoded so
//! it is always printable. The randomness itself comes from the operating
//! system; everything around it is verified.

use vstd::prelude::*;

verus! {

/// The lower-case hex character for a value below 16.
pub open spec fn hex_digit(n: u8) -> char
    recommends
        n < 16,
{
    if n == 0 {
        '0'
    } else if n == 1 {
        '1'
    } else if n == 2 {
        '2'
    } else if n == 3 {
        '3'
    } else if n == 4 {
        '4'
    } else if n == 5 {
        '5'
    } else if n == 6 {
        '6'
    } else if n == 7 {
        '7'
    } else if n == 8 {
        '8'
    } else if n == 9 {
        '9'
    } else if n == 10 {
        'a'
    } else if n == 11 {
        'b'
    } else if n == 12 {
        'c'
    } else if n == 13 {
        'd'
    } else if n == 14 {
        'e'
    } else {
        'f'
    }
}

/// `c` is a lower-case hex character.
pub open spec fn is_hex_digit(c: char) -> bool {
    exists|n: u8| n < 16 && c == hex_digit(n)
}

/// Every character of `s` is a lower-case hex character.
pub open spec fn is_hex_seq(s: Seq<char>) -> bool {
    forall|i: int| 0 <= i < s.len() ==> is_hex_digit(#[trigger] s[i])
}

/// Lower-case hex encoding: two characters per byte, high nibble first.
pub open spec fn hex_of(bytes: Seq<u8>) -> Seq<char>
    decreases bytes.len(),
{
    if bytes.len() == 0 {
        Seq::<char>::empty()
    } else {
        hex_of(bytes.drop_last()) + seq![
            hex_digit((bytes.last() / 16) as u8),
            hex_digit((bytes.last() % 16) as u8),
        ]
    }
}

/// The hex encoding of `bytes` is twice as long and all hex characters.
pub proof fn lemma_hex_of_form(bytes: Seq<u8>)
    ensures
        hex_of(bytes).len() == 2 * bytes.len(),
        is_hex_seq(hex_of(bytes)),
    decreases bytes.len(),
{
    if bytes.len() > 0 {
        lemma_hex_of_form(bytes.drop_last());
        let hi = (bytes.last() / 16) as u8;
        let lo = (bytes.last() % 16) as u8;
        assert(hi < 16 && hex_digit(hi) == hex_digit(hi));
        assert(lo < 16 && hex_digit(lo) == hex_digit(lo));
    }
}

fn hex_digit_char(n: u8) -> (r: &'static str)
    requires
        n < 16,
    ensures
        r@.len() == 1,
        r@[0] == hex_digit(n),
{
    proof {
        reveal_strlit("0");
        reveal_strlit("1");
        reveal_strlit("2");
        reveal_strlit("3");
        reveal_strlit("4");
        reveal_strlit("5");
        reveal_strlit("6");
        reveal_strlit("7");
        reveal_strlit("8");
        reveal_strlit("9");
        reveal_strlit("a");
        reveal_strlit("b");
        reveal_strlit("c");
        reveal_strlit("d");
        reveal_strlit("e");
        reveal_strlit("f");
    }
    if n == 0 {
        "0"
    } else if n == 1 {
        "1"
    } else if n == 2 {
        "2"
    } else if n == 3 {
        "3"
    } else if n == 4 {
        "4"
    } else if n == 5 {
        "5"
    } else if n == 6 {
        "6"
    } else if n == 7 {
        "7"
    } else if n == 8 {
        "8"
    } else if n == 9 {
        "9"
    } else if n == 10 {
        "a"
    } else if n == 11 {
        "b"
    } else if n == 12 {
        "c"
    } else if n == 13 {
        "d"
    } else if n == 14 {
        "e"
    } else {
        "f"
    }
}

/// Lower-case hex encoding of a byte vector, two characters per byte.
pub fn hex_encode(bytes: &Vec<u8>) -> (s: String)
    ensures
        s@ == hex_of(bytes@),
{
    let mut s = String::new();
    let mut i: usize = 0;
    while i < bytes.len()
        invariant
            i <= bytes@.len(),
            s@ == hex_of(bytes@.take(i as int)),
        decreases bytes@.len() - i,
    {
        let b = bytes[i];
        let hi = hex_digit_char(b / 16);
        let lo = hex_digit_char(b % 16);
        s.append(hi);
        s.append(lo);
        proof {
            let prefix = bytes@.take(i as int);
            let next = bytes@.take(i + 1 as int);
            assert(next.drop_last() =~= prefix);
            assert(next.last() == b);
            assert(s@ =~= hex_of(next));
        }
        i += 1;
    }
    proof {
        assert(bytes@.take(bytes@.len() as int) =~= bytes@);
    }
    s
}

/// Relies on getrandom::getrandom: fills a buffer with bytes from the
/// operating system's randomness source, or reports its error. Nothing can
/// be promised about which bytes come back.
#[verifier::external_body]
fn os_random_bytes(n: usize) -> (r: Option<Vec<u8>>)
    ensures
        r matches Some(v) ==> v@.len() == n,
{
    let mut buf = vec![0u8; n];
    match getrandom::getrandom(&mut buf) {
        Ok(()) => Some(buf),
        Err(_) => None,
    }
}

/// Draws 8 random bytes and hex-encodes them: a 16-character printable token
/// with 64 bits of entropy, so collisions across a realistic request volume
/// are negligible. `None` when the operating system's randomness source
/// fails; the caller decides what that aborts.
pub fn generate_request_id() -> (r: Option<String>)
    ensures
        r matches Some(s) ==> s@.len() == 16 && is_hex_seq(s@),
{
    match os_random_bytes(8) {
        Some(bytes) => {
            let s = hex_encode(&bytes);
            proof {
                lemma_hex_of_form(bytes@);
            }
            Some(s)
        },
        None => None,
    }
}

} // verus!
