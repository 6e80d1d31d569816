//! The canonical byte message that an owner signs for a relayed
//! registration, and the textual signature format.
//!
//! Every field is length-unambiguous: strings carry an 8-byte little-endian
//! length prefix, the optional currency a presence tag, and integers have a
//! fixed width.

use vstd::prelude::*;
use vstd::utf8::encode_utf8;
use crate::registry::opt_view;
use crate::types::RegisterWithSigParams;

verus! {

/// The low `n` bytes of `x`, least significant first.
pub open spec fn le_bytes(x: nat, n: nat) -> Seq<u8>
    decreases n,
{
    if n == 0 {
        Seq::empty()
    } else {
        seq![(x % 256) as u8] + le_bytes(x / 256, (n - 1) as nat)
    }
}

/// A string field: the length of its UTF-8 bytes, then the bytes.
pub open spec fn str_field(s: Seq<char>) -> Seq<u8> {
    le_bytes(encode_utf8(s).len(), 8) + encode_utf8(s)
}

/// The optional currency: a `0` tag when absent, else `1` and the string field.
pub open spec fn currency_field(c: Option<Seq<char>>) -> Seq<u8> {
    match c {
        None => seq![0u8],
        Some(a) => seq![1u8] + str_field(a),
    }
}

/// The message signed for `p`, bound to the registry identity `registry`:
/// registry, name, owner, relayer, currency, amount (16 bytes), deadline and
/// nonce (8 bytes each).
pub open spec fn registration_message(registry: Seq<char>, p: RegisterWithSigParams) -> Seq<u8> {
    str_field(registry) + str_field(p.name@) + str_field(p.owner@) + str_field(p.relayer@)
        + currency_field(opt_view(p.currency)) + le_bytes(p.amount as nat, 16)
        + le_bytes(p.deadline as nat, 8) + le_bytes(p.nonce as nat, 8)
}

/// The byte of `:`, which separates signature and key in a signature string.
pub const SEPARATOR: u8 = 58;

/// `b` holds exactly one separator, at `i`.
pub open spec fn sole_separator_at(b: Seq<u8>, i: int) -> bool {
    &&& 0 <= i < b.len()
    &&& b[i] == SEPARATOR
    &&& forall|j: int| 0 <= j < b.len() && j != i ==> #[trigger] b[j] != SEPARATOR
}

/// A signature string `<signature>:<public key>` split into its two parts;
/// `None` unless it holds exactly one separator.
pub open spec fn signature_parts(b: Seq<u8>) -> Option<(Seq<u8>, Seq<u8>)> {
    if exists|i: int| sole_separator_at(b, i) {
        let i = choose|i: int| sole_separator_at(b, i);
        Some((b.subrange(0, i), b.subrange(i + 1, b.len() as int)))
    } else {
        None
    }
}

fn push_le(out: &mut Vec<u8>, x: u128, n: usize)
    ensures
        final(out)@ == old(out)@ + le_bytes(x as nat, n as nat),
{
    let ghost start = old(out)@;
    let mut v: u128 = x;
    let mut i: usize = 0;
    while i < n
        invariant
            i <= n,
            out@ + le_bytes(v as nat, (n - i) as nat) == start + le_bytes(x as nat, n as nat),
        decreases n - i,
    {
        let ghost before = out@;
        assert(le_bytes(v as nat, (n - i) as nat) == seq![(v % 256) as u8] + le_bytes(
            (v / 256) as nat,
            (n - i - 1) as nat,
        ));
        out.push((v % 256) as u8);
        assert(out@ + le_bytes((v / 256) as nat, (n - i - 1) as nat) =~= before + le_bytes(
            v as nat,
            (n - i) as nat,
        ));
        v = v / 256;
        i = i + 1;
    }
    assert(le_bytes(v as nat, 0) =~= Seq::<u8>::empty());
    assert(out@ =~= out@ + le_bytes(v as nat, 0));
}

fn append_bytes(out: &mut Vec<u8>, src: &[u8])
    ensures
        final(out)@ == old(out)@ + src@,
{
    let ghost start = old(out)@;
    let mut i: usize = 0;
    while i < src.len()
        invariant
            i <= src@.len(),
            out@ == start + src@.subrange(0, i as int),
        decreases src@.len() - i,
    {
        out.push(src[i]);
        i = i + 1;
        assert(out@ =~= start + src@.subrange(0, i as int));
    }
    assert(src@.subrange(0, src@.len() as int) =~= src@);
}

fn push_str_field(out: &mut Vec<u8>, s: &str)
    ensures
        final(out)@ == old(out)@ + str_field(s@),
{
    let bytes = s.as_bytes();
    push_le(out, bytes.len() as u128, 8);
    append_bytes(out, bytes);
    assert(final(out)@ =~= old(out)@ + str_field(s@));
}

/// The canonical message for `params`, bound to the registry identity `registry`.
pub fn create_registration_message(registry: &str, params: &RegisterWithSigParams) -> (r: Vec<u8>)
    ensures
        r@ == registration_message(registry@, *params),
{
    let mut out: Vec<u8> = Vec::new();
    push_str_field(&mut out, registry);
    push_str_field(&mut out, params.name.as_str());
    push_str_field(&mut out, params.owner.as_str());
    push_str_field(&mut out, params.relayer.as_str());
    match &params.currency {
        None => {
            out.push(0u8);
        },
        Some(c) => {
            out.push(1u8);
            push_str_field(&mut out, c.as_str());
        },
    }
    push_le(&mut out, params.amount, 16);
    push_le(&mut out, params.deadline as u128, 8);
    push_le(&mut out, params.nonce as u128, 8);
    assert(out@ =~= registration_message(registry@, *params));
    out
}

fn copy_range(src: &[u8], lo: usize, hi: usize) -> (r: Vec<u8>)
    requires
        lo <= hi <= src@.len(),
    ensures
        r@ == src@.subrange(lo as int, hi as int),
{
    let mut out: Vec<u8> = Vec::new();
    let mut i: usize = lo;
    while i < hi
        invariant
            lo <= i <= hi <= src@.len(),
            out@ == src@.subrange(lo as int, i as int),
        decreases hi - i,
    {
        out.push(src[i]);
        i = i + 1;
        assert(out@ =~= src@.subrange(lo as int, i as int));
    }
    out
}

/// Splits a signature string `<signature>:<public key>` at its separator.
pub fn split_signature(text: &str) -> (r: Option<(Vec<u8>, Vec<u8>)>)
    ensures
        match r {
            Some(parts) => signature_parts(encode_utf8(text@)) == Some((parts.0@, parts.1@)),
            None => signature_parts(encode_utf8(text@)) is None,
        },
{
    let b = text.as_bytes();
    let n: usize = b.len();
    let mut count: usize = 0;
    let mut at: usize = 0;
    let mut at2: usize = 0;
    let mut i: usize = 0;
    while i < n
        invariant
            n == b@.len(),
            i <= n,
            count <= i,
            count == 0 ==> forall|j: int| 0 <= j < i ==> #[trigger] b@[j] != SEPARATOR,
            count == 1 ==> at < i && b@[at as int] == SEPARATOR && forall|j: int|
                0 <= j < i && j != at ==> #[trigger] b@[j] != SEPARATOR,
            count >= 2 ==> at < at2 < i && b@[at as int] == SEPARATOR && b@[at2 as int]
                == SEPARATOR,
        decreases n - i,
    {
        if b[i] == SEPARATOR {
            if count == 1 {
                at2 = i;
            }
            if count == 0 {
                at = i;
            }
            if count < 2 {
                count = count + 1;
            }
        }
        i = i + 1;
    }
    if count != 1 {
        proof {
            if exists|k: int| sole_separator_at(b@, k) {
                let k = choose|k: int| sole_separator_at(b@, k);
                if count >= 2 {
                    assert(at as int == k || b@[at as int] != SEPARATOR);
                    assert(at2 as int == k || b@[at2 as int] != SEPARATOR);
                } else {
                    assert(b@[k] != SEPARATOR);
                }
            }
        }
        return None;
    }
    assert(sole_separator_at(b@, at as int));
    proof {
        let k = choose|k: int| sole_separator_at(b@, k);
        assert(k == at as int);
    }
    let sig = copy_range(b, 0, at);
    let key = copy_range(b, at + 1, n);
    Some((sig, key))
}

} // verus!
