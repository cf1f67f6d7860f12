//! Lower-case hexadecimal framing for token strings.
//!
//! A session token travels in an HTTP header, so its raw bytes (nonce and
//! ciphertext) are framed as lower-case hex digits.  Both directions are
//! specified exactly, and decoding inverts encoding.

use vstd::prelude::*;
use vstd::string::StrSliceExecFns;

verus! {

/// The lower-case hex digit of a value below sixteen.
pub open spec fn spec_hex_char(n: u8) -> char {
    if n < 10 {
        ((n + 48) as u8) as char
    } else {
        ((n + 87) as u8) as char
    }
}

/// The value of a lower-case hex digit character, if it is one.
pub open spec fn spec_hex_val(c: char) -> Option<u8> {
    if '0' <= c && c <= '9' {
        Some((c as u32 - 48) as u8)
    } else if 'a' <= c && c <= 'f' {
        Some((c as u32 - 87) as u8)
    } else {
        None
    }
}

/// The hex framing of a byte string: two digits per byte, high nibble first.
pub open spec fn spec_hex_encode(b: Seq<u8>) -> Seq<char>
    decreases b.len(),
{
    if b.len() == 0 {
        Seq::empty()
    } else {
        seq![spec_hex_char(b.first() / 16), spec_hex_char(b.first() % 16)]
            + spec_hex_encode(b.drop_first())
    }
}

/// The bytes a character string frames: `Some` exactly on even-length
/// strings of lower-case hex digits.
pub open spec fn spec_hex_decode(s: Seq<char>) -> Option<Seq<u8>>
    decreases s.len(),
{
    if s.len() == 0 {
        Some(Seq::empty())
    } else if s.len() == 1 {
        None
    } else {
        match (spec_hex_val(s[0]), spec_hex_val(s[1])) {
            (Some(h), Some(l)) => match spec_hex_decode(s.skip(2)) {
                Some(rest) => Some(seq![(h * 16 + l) as u8] + rest),
                None => None,
            },
            _ => None,
        }
    }
}

/// Reading back a digit pair recovers the nibbles that produced it.
proof fn lemma_hex_char_val(n: u8)
    requires
        n < 16,
    ensures
        spec_hex_val(spec_hex_char(n)) == Some(n),
        '\0' <= spec_hex_char(n) <= '\u{7f}',
{
}

/// Decoding inverts encoding: the framing loses nothing.
pub proof fn lemma_hex_round_trip(b: Seq<u8>)
    ensures
        spec_hex_decode(spec_hex_encode(b)) == Some(b),
        spec_hex_encode(b).len() == 2 * b.len(),
    decreases b.len(),
{
    if b.len() == 0 {
        assert(spec_hex_decode(spec_hex_encode(b)) == Some(b));
    } else {
        let h = b.first() / 16;
        let l = b.first() % 16;
        lemma_hex_char_val(h);
        lemma_hex_char_val(l);
        lemma_hex_round_trip(b.drop_first());
        let s = spec_hex_encode(b);
        assert(s.skip(2) =~= spec_hex_encode(b.drop_first()));
        assert(h * 16 + l == b.first());
        assert(seq![b.first()] + b.drop_first() =~= b);
    }
}

/// Appends the given character to the string.  Relies on the standard
/// library's `String::push`.
#[verifier::external_body]
fn push_char(s: &mut String, c: char)
    ensures
        final(s)@ == old(s)@.push(c),
{
    s.push(c);
}

/// The lower-case hex digit of a value below sixteen.
fn hex_char(n: u8) -> (c: char)
    requires
        n < 16,
    ensures
        c == spec_hex_char(n),
{
    if n < 10 {
        (n + 48) as char
    } else {
        (n + 87) as char
    }
}

/// Frames a byte string as lower-case hex, two digits per byte.
pub fn hex_encode(b: &Vec<u8>) -> (r: String)
    ensures
        r@ == spec_hex_encode(b@),
{
    let mut r = String::new();
    let n: usize = b.len();
    let mut i: usize = 0;
    proof {
        assert(b@.skip(0) =~= b@);
    }
    while i < n
        invariant
            0 <= i <= n,
            n == b@.len(),
            spec_hex_encode(b@) =~= r@ + spec_hex_encode(b@.skip(i as int)),
        decreases n - i,
    {
        let byte: u8 = b[i];
        let ghost prev = r@;
        push_char(&mut r, hex_char(byte / 16));
        push_char(&mut r, hex_char(byte % 16));
        proof {
            assert(b@.skip(i as int).first() == b@[i as int]);
            assert(b@.skip(i as int).drop_first() =~= b@.skip(i as int + 1));
            assert(r@ =~= prev + seq![
                spec_hex_char(byte / 16),
                spec_hex_char(byte % 16),
            ]);
            assert(spec_hex_encode(b@) =~= r@ + spec_hex_encode(b@.skip(i as int + 1)));
        }
        i = i + 1;
    }
    proof {
        assert(b@.skip(n as int) =~= Seq::<u8>::empty());
        assert(r@ =~= spec_hex_encode(b@));
    }
    r
}

/// The value of a lower-case hex digit character, if it is one.
fn hex_val_char(c: char) -> (r: Option<u8>)
    ensures
        r == spec_hex_val(c),
{
    if '0' <= c && c <= '9' {
        Some((c as u32 - 48) as u8)
    } else if 'a' <= c && c <= 'f' {
        Some((c as u32 - 87) as u8)
    } else {
        None
    }
}

/// An odd-length string never decodes.
proof fn lemma_hex_decode_odd(s: Seq<char>)
    requires
        s.len() % 2 == 1,
    ensures
        spec_hex_decode(s) is None,
    decreases s.len(),
{
    if s.len() > 1 {
        lemma_hex_decode_odd(s.skip(2));
    }
}

/// Unframes a hex string: `Some` exactly on even-length strings of
/// lower-case hex digits.
pub fn hex_decode(s: &str) -> (r: Option<Vec<u8>>)
    ensures
        match r {
            Some(v) => spec_hex_decode(s@) == Some(v@),
            None => spec_hex_decode(s@) is None,
        },
{
    let n: usize = s.unicode_len();
    if n % 2 != 0 {
        proof {
            lemma_hex_decode_odd(s@);
        }
        return None;
    }
    let mut out: Vec<u8> = Vec::new();
    let mut i: usize = 0;
    proof {
        assert(s@.skip(0) =~= s@);
        if spec_hex_decode(s@) is Some {
            assert(out@ + spec_hex_decode(s@)->Some_0 =~= spec_hex_decode(s@)->Some_0);
        }
    }
    while i < n
        invariant
            0 <= i <= n,
            i % 2 == 0,
            n % 2 == 0,
            n == s@.len(),
            spec_hex_decode(s@) == (match spec_hex_decode(s@.skip(i as int)) {
                Some(rest) => Some(out@ + rest),
                None => None::<Seq<u8>>,
            }),
        decreases n - i,
    {
        proof {
            assert(i + 1 < n) by {
                if i + 1 == n {
                    assert(n % 2 == (i + 1) % 2);
                }
            }
        }
        let ch: char = s.get_char(i);
        let cl: char = s.get_char(i + 1);
        proof {
            assert(s@.skip(i as int)[0] == s@[i as int]);
            assert(s@.skip(i as int)[1] == s@[i as int + 1]);
            assert(s@.skip(i as int).skip(2) =~= s@.skip(i as int + 2));
        }
        let h: Option<u8> = hex_val_char(ch);
        let l: Option<u8> = hex_val_char(cl);
        match (h, l) {
            (Some(hv), Some(lv)) => {
                let ghost prev = out@;
                out.push(hv * 16 + lv);
                proof {
                    if spec_hex_decode(s@.skip(i as int + 2)) is Some {
                        let rest = spec_hex_decode(s@.skip(i as int + 2))->Some_0;
                        assert(out@ + rest =~= prev + (seq![(hv * 16 + lv) as u8] + rest));
                    }
                }
            },
            _ => {
                return None;
            },
        }
        i = i + 2;
    }
    proof {
        assert(s@.skip(n as int) =~= Seq::<char>::empty());
        if spec_hex_decode(s@) is Some {
            assert(out@ + Seq::<u8>::empty() =~= out@);
        }
    }
    Some(out)
}

} // verus!
