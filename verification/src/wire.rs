//! The variable-length integers and the error code space that every part of the protocol shares.

use vstd::prelude::*;

verus! {

/// One past the largest value that a variable-length integer can hold.
pub const VARINT_LIMIT: u64 = 0x4000_0000_0000_0000;

/// The first HTTP/3 error code of the range reserved for WebTransport.
pub const HTTP3_ERROR_FIRST: u64 = 0x52e4a40fa8db;

/// The last HTTP/3 error code of the range reserved for WebTransport.
pub const HTTP3_ERROR_LAST: u64 = 0x52e5ac983162;

/// The `n` bytes of `x` in network byte order.
pub open spec fn be_bytes(x: nat, n: nat) -> Seq<u8>
    decreases n,
{
    if n == 0 {
        Seq::empty()
    } else {
        be_bytes(x / 256, (n - 1) as nat).push((x % 256) as u8)
    }
}

/// The number that `s` spells in network byte order.
pub open spec fn be_value(s: Seq<u8>) -> nat
    decreases s.len(),
{
    if s.len() == 0 {
        0
    } else {
        be_value(s.drop_last()) * 256 + s.last() as nat
    }
}

/// How many bytes the shortest encoding of `x` takes.
pub open spec fn varint_size(x: u64) -> nat {
    if x < 0x40 {
        1
    } else if x < 0x4000 {
        2
    } else if x < 0x4000_0000 {
        4
    } else {
        8
    }
}

/// What the two leading bits add to the number that an encoding of `n` bytes spells.
pub open spec fn varint_tag(n: nat) -> nat {
    if n == 1 {
        0
    } else if n == 2 {
        0x4000
    } else if n == 4 {
        0x8000_0000
    } else {
        0xC000_0000_0000_0000
    }
}

/// The shortest encoding of `x`.
pub open spec fn varint_bytes(x: u64) -> Seq<u8> {
    be_bytes(varint_tag(varint_size(x)) + x as nat, varint_size(x))
}

/// How many bytes an encoding takes that starts with `first`.
pub open spec fn varint_width(first: u8) -> nat {
    if first < 0x40 {
        1
    } else if first < 0x80 {
        2
    } else if first < 0xC0 {
        4
    } else {
        8
    }
}

/// The integer at the front of `s` and the bytes it takes, or `None` where `s` ends too early.
pub open spec fn varint_decode(s: Seq<u8>) -> Option<(u64, nat)> {
    if s.len() == 0 || s.len() < varint_width(s[0]) {
        None
    } else {
        let n = varint_width(s[0]);
        Some(((be_value(s.take(n as int)) - varint_tag(n)) as u64, n))
    }
}

/// The number of values that `n` bytes can spell.
pub open spec fn pow256(n: nat) -> nat
    decreases n,
{
    if n == 0 {
        1
    } else {
        256 * pow256((n - 1) as nat)
    }
}

proof fn lemma_pow256_positive(n: nat)
    ensures
        pow256(n) > 0,
    decreases n,
{
    if n > 0 {
        lemma_pow256_positive((n - 1) as nat);
    }
}

/// Spelling a number out and reading it back gives the number.
proof fn lemma_be_round_trip(x: nat, n: nat)
    requires
        x < pow256(n),
    ensures
        be_bytes(x, n).len() == n,
        be_value(be_bytes(x, n)) == x,
    decreases n,
{
    if n > 0 {
        assert(x / 256 < pow256((n - 1) as nat));
        lemma_be_round_trip(x / 256, (n - 1) as nat);
        let s = be_bytes(x, n);
        assert(s.drop_last() =~= be_bytes(x / 256, (n - 1) as nat));
    }
}

/// The first byte of a spelled number is its most significant one.
proof fn lemma_be_first(x: nat, n: nat)
    requires
        n > 0,
        x < pow256(n),
    ensures
        be_bytes(x, n).len() == n,
        be_bytes(x, n)[0] as nat == x / pow256((n - 1) as nat),
    decreases n,
{
    lemma_be_round_trip(x, n);
    if n == 1 {
        assert(be_bytes(x, 1) =~= Seq::<u8>::empty().push((x % 256) as u8)) by {
            reveal_with_fuel(be_bytes, 2);
        }
        assert(pow256(0) == 1 && pow256(1) == 256) by {
            reveal_with_fuel(pow256, 2);
        }
    } else {
        lemma_be_first(x / 256, (n - 1) as nat);
        assert(be_bytes(x, n)[0] == be_bytes(x / 256, (n - 1) as nat)[0]);
        let p = pow256((n - 2) as nat);
        lemma_pow256_positive((n - 2) as nat);
        vstd::arithmetic::div_mod::lemma_div_denominator(x as int, 256, p as int);
    }
}

/// A decoder given an encoding, whatever follows it, reads the integer and stops at its end.
pub proof fn law_varint_round_trip(x: u64, rest: Seq<u8>)
    requires
        x < VARINT_LIMIT,
    ensures
        varint_bytes(x).len() == varint_size(x),
        varint_decode(varint_bytes(x) + rest) == Some((x, varint_size(x))),
{
    let n = varint_size(x);
    let y = varint_tag(n) + x as nat;
    assert(pow256(0) == 1 && pow256(1) == 256
        && pow256(2) == 0x1_0000 && pow256(3)
        == 0x100_0000 && pow256(4) == 0x1_0000_0000
        && pow256(7) == 0x100_0000_0000_0000
        && pow256(8) == 0x1_0000_0000_0000_0000) by {
        reveal_with_fuel(pow256, 9);
    }
    lemma_be_round_trip(y, n);
    lemma_be_first(y, n);
    let s = varint_bytes(x) + rest;
    assert(s[0] == be_bytes(y, n)[0]);
    assert(varint_width(s[0]) == n) by {
        if n == 1 {
            assert(s[0] as nat == y / 1);
        } else if n == 2 {
            assert(s[0] as nat == y / 0x100);
        } else if n == 4 {
            assert(s[0] as nat == y / 0x100_0000);
        } else {
            assert(s[0] as nat == y / 0x100_0000_0000_0000);
        }
    }
    assert(s.take(n as int) =~= be_bytes(y, n));
}

/// A decoder given only the front of an encoding asks for more.
pub proof fn law_varint_prefix_is_incomplete(x: u64, k: nat)
    requires
        x < VARINT_LIMIT,
        k < varint_size(x),
    ensures
        varint_decode(varint_bytes(x).take(k as int)) is None,
{
    law_varint_round_trip(x, Seq::empty());
    assert(varint_bytes(x) + Seq::<u8>::empty() =~= varint_bytes(x));
    if k > 0 {
        assert(varint_bytes(x).take(k as int)[0] == varint_bytes(x)[0]);
    }
}

/// Appends the shortest encoding of `x`, as `web_transport_proto::VarInt::encode` writes it: the
/// first two bits of the first byte say whether one, two, four or eight bytes follow in network
/// byte order. The caller stays below the limit, above which no `VarInt` exists.
#[verifier::external_body]
pub(crate) fn encode_varint(x: u64, buf: &mut Vec<u8>)
    requires
        x < VARINT_LIMIT,
    ensures
        final(buf)@ == old(buf)@ + varint_bytes(x),
{
    web_transport_proto::VarInt::from_u64(x).unwrap().encode(buf);
}

/// Reads the integer at the front of `data`, as `web_transport_proto::VarInt::decode` does, and says
/// how many bytes it took; `None` where `data` ends before the integer does.
#[verifier::external_body]
pub(crate) fn decode_varint(data: &[u8]) -> (r: Option<(u64, usize)>)
    ensures
        (match r {
            Some((x, n)) => varint_decode(data@) == Some((x, n as nat)),
            None => varint_decode(data@) is None,
        }),
{
    let mut cursor = std::io::Cursor::new(data);
    let value = web_transport_proto::VarInt::decode(&mut cursor).ok()?;
    Some((value.into_inner(), cursor.position() as usize))
}

/// Checks that `x` can be encoded, as `web_transport_proto::VarInt::from_u64` does: it hands the
/// number back below the limit and refuses it from there on.
#[verifier::external_body]
pub(crate) fn varint_from_u64(x: u64) -> (r: Option<u64>)
    ensures
        r == (if x < VARINT_LIMIT {
            Some(x)
        } else {
            None
        }),
{
    web_transport_proto::VarInt::from_u64(x).ok().map(web_transport_proto::VarInt::into_inner)
}

/// The HTTP/3 error code that carries the WebTransport error code `code`.
pub open spec fn http3_code(code: u32) -> int {
    HTTP3_ERROR_FIRST + code + code / 0x1e
}

/// The WebTransport error code that the HTTP/3 error code `code` carries, if any.
pub open spec fn webtransport_code(code: u64) -> Option<u32> {
    if HTTP3_ERROR_FIRST <= code <= HTTP3_ERROR_LAST {
        let offset = code - HTTP3_ERROR_FIRST;
        Some((offset - offset / 0x1f) as u32)
    } else {
        None
    }
}

/// `web_transport_proto::error_to_http3` spreads the 32-bit codes over the reserved range, leaving a
/// gap after every thirty of them.
pub assume_specification[ web_transport_proto::error_to_http3 ](code: u32) -> (r: u64)
    ensures
        r == http3_code(code),
;

/// `web_transport_proto::error_from_http3` takes a code of the reserved range back to its 32 bits and
/// answers `None` outside of it.
pub assume_specification[ web_transport_proto::error_from_http3 ](code: u64) -> (r: Option<u32>)
    ensures
        r == webtransport_code(code),
;

/// Convert a WebTransport error code into the reserved HTTP/3 error space used on the wire.
///
/// The result always fits a QUIC application error code.
pub fn app_error(code: u32) -> (r: u64)
    ensures
        r == http3_code(code),
        r < VARINT_LIMIT,
{
    web_transport_proto::error_to_http3(code)
}

/// Every error code survives the trip through the HTTP/3 error space, and stays inside the range
/// reserved for it.
pub proof fn law_error_code_round_trip(code: u32)
    ensures
        HTTP3_ERROR_FIRST <= http3_code(code) <= HTTP3_ERROR_LAST,
        http3_code(code) < VARINT_LIMIT,
        webtransport_code(http3_code(code) as u64) == Some(code),
{
    let offset = code + code / 0x1e;
    assert(offset / 0x1f == code / 0x1e);
}

/// Two different error codes never share an HTTP/3 error code: larger codes get larger ones.
pub proof fn law_error_codes_keep_their_order(a: u32, b: u32)
    requires
        a < b,
    ensures
        http3_code(a) < http3_code(b),
{
}

/// A spelled number has as many bytes as it was given.
pub proof fn lemma_be_len(x: nat, n: nat)
    ensures
        be_bytes(x, n).len() == n,
    decreases n,
{
    if n > 0 {
        lemma_be_len(x / 256, (n - 1) as nat);
    }
}

/// An application's error code has its own place in the range reserved for WebTransport: two codes never
/// share one, and larger codes stand behind smaller ones.
pub proof fn law_error_codes_have_their_own_place(a: u32, b: u32, x: u64, y: u64)
    requires
        call_ensures(app_error, (a,), x),
        call_ensures(app_error, (b,), y),
    ensures
        x == 0x52e4a40fa8db + a + a / 30,
        0x52e4a40fa8db <= x <= 0x52e5ac983162,
        a < b <==> x < y,
{
    law_error_code_round_trip(a);
    if a < b {
        law_error_codes_keep_their_order(a, b);
    } else if b < a {
        law_error_codes_keep_their_order(b, a);
    }
}

} // verus!
