//! Core of a JSON-RPC 2.0 daemon: message model, call parsing, dispatch,
//! HTTP routing decisions and the accept-loop lifecycle, with the
//! domain-specific operations behind a pluggable handler capability.

use vstd::prelude::*;

pub mod daemon;
pub mod jsonvalue;
pub mod text;

verus! {

/// Known Elements networks.
#[derive(Debug, Clone, Copy, PartialEq, Eq, Structural)]
pub enum Network {
    ElementsRegtest,
    Liquid,
    LiquidTestnet,
}

/// Get JSON-able objects that describe the type.
pub trait GetInfo<T> {
    /// Get a description of this object given the network of interest.
    fn get_info(&self, network: Network) -> T;
}

#[verifier::external_type_specification]
#[verifier::external_body]
pub struct ExDecodeError(base64::DecodeError);

/// One of the letters `'a'` through `'f'`.
pub open spec fn is_lower_hex_letter(c: char) -> bool {
    'a' <= c && c <= 'f'
}

/// The charset gate for the hex path: an even number of characters, every one
/// of them a lower-case hex letter.  Digits and upper case fall through to
/// base64, like every other character.
pub open spec fn spec_is_plain_hex(s: Seq<char>) -> bool {
    s.len() % 2 == 0 && forall|i: int| 0 <= i < s.len() ==> is_lower_hex_letter(#[trigger] s[i])
}

/// The value of one lower-case hex letter.
pub open spec fn spec_hex_val(c: char) -> int
    recommends
        is_lower_hex_letter(c),
{
    c as int - 87
}

/// The bytes written in hex by `s`, one byte for each pair of characters.
pub open spec fn spec_hex_bytes(s: Seq<char>) -> Seq<u8>
    recommends
        spec_is_plain_hex(s),
{
    Seq::new((s.len() / 2) as nat, |i: int| (spec_hex_val(s[2 * i]) * 16 + spec_hex_val(s[2 * i + 1])) as u8)
}

fn is_plain_hex(s: &str) -> (r: bool)
    ensures
        r == spec_is_plain_hex(s@),
{
    let n = s.unicode_len();
    if n % 2 != 0 {
        return false;
    }
    let mut i: usize = 0;
    while i < n
        invariant
            n == s@.len(),
            i <= n,
            forall|j: int| 0 <= j < i ==> is_lower_hex_letter(#[trigger] s@[j]),
        decreases n - i,
    {
        let c = s.get_char(i);
        if !('a' <= c && c <= 'f') {
            return false;
        }
        i = i + 1;
    }
    true
}

fn decode_hex(s: &str) -> (v: Vec<u8>)
    requires
        spec_is_plain_hex(s@),
    ensures
        v@ == spec_hex_bytes(s@),
{
    let n = s.unicode_len();
    let mut out: Vec<u8> = Vec::new();
    let mut i: usize = 0;
    while i + 1 < n
        invariant
            spec_is_plain_hex(s@),
            n == s@.len(),
            i <= n,
            i % 2 == 0,
            out@ == spec_hex_bytes(s@).take(i as int / 2),
        decreases n - i,
    {
        let hi = s.get_char(i);
        let lo = s.get_char(i + 1);
        let b: u8 = (((hi as u32) - 87) * 16 + ((lo as u32) - 87)) as u8;
        out.push(b);
        proof {
            assert(out@ =~= spec_hex_bytes(s@).take((i + 2) as int / 2));
        }
        i = i + 2;
    }
    proof {
        assert(i == n);
        assert(spec_hex_bytes(s@).take(n as int / 2) =~= spec_hex_bytes(s@));
    }
    out
}

/// What base64's standard engine decodes a string to, if anything.  The
/// outcome depends on the characters alone, so it only gets a name here.
pub uninterp spec fn spec_base64_decoding(s: Seq<char>) -> Option<Seq<u8>>;

/// Relies on base64's `BASE64_STANDARD.decode`: the standard alphabet with
/// padding, decoding the whole string or failing.
#[verifier::external_body]
fn base64_decode(s: &str) -> (r: Result<Vec<u8>, base64::DecodeError>)
    ensures
        r matches Ok(v) ==> spec_base64_decoding(s@) == Some(v@),
        r is Err ==> spec_base64_decoding(s@) is None,
{
    base64::Engine::decode(&base64::prelude::BASE64_STANDARD, s)
}

/// Parse a string which may be base64 or hex-encoded.
///
/// An even-length string of exclusively lower-case hex letters is read as
/// hex; any other string is handed to the base64 decoder and answered with
/// its verdict.
pub fn hex_or_base64(s: &str) -> (r: Result<Vec<u8>, base64::DecodeError>)
    ensures
        spec_is_plain_hex(s@) ==> (r matches Ok(v) && v@ == spec_hex_bytes(s@)),
        !spec_is_plain_hex(s@) ==> ({
            &&& (r matches Ok(v) ==> spec_base64_decoding(s@) == Some(v@))
            &&& (r is Err ==> spec_base64_decoding(s@) is None)
        }),
{
    if is_plain_hex(s) {
        Ok(decode_hex(s))
    } else {
        base64_decode(s)
    }
}

} // verus!
