//! The message that an admin signs to whitelist addresses in bulk, and its
//! SHA-256 digest, computed by the host's crypto functions. The host checks
//! the admin's ed25519 signature over this digest.
use soroban_sdk::xdr::ToXdr;
use soroban_sdk::{Bytes, Env};
use vstd::prelude::*;

verus! {

/// Declares `soroban_sdk::Env`, the handle to the contract's host
/// environment, so that the host's crypto functions can be called; Verus
/// sees nothing inside it.
#[verifier::external_type_specification]
#[verifier::external_body]
pub struct ExEnv(soroban_sdk::Env);

/// The SHA-256 digest of `data`.
pub uninterp spec fn sha256_digest(data: Seq<u8>) -> Seq<u8>;

/// The XDR encoding of `n` as a contract value: the four-byte type tag of
/// an unsigned 64-bit value (5), then the eight bytes of `n`, most
/// significant first.
pub open spec fn u64_xdr(n: u64) -> Seq<u8> {
    seq![
        0u8, 0u8, 0u8, 5u8,
        (n >> 56u64) as u8, (n >> 48u64) as u8, (n >> 40u64) as u8, (n >> 32u64) as u8,
        (n >> 24u64) as u8, (n >> 16u64) as u8, (n >> 8u64) as u8, n as u8,
    ]
}

/// The XDR encoding, as a contract value, of the address of the account
/// whose ed25519 public key is `key`: the type tag of an address (18), the
/// tag of an account address (0), the tag of an ed25519 key (0), then the
/// key's bytes.
pub open spec fn account_address_xdr(key: Seq<u8>) -> Seq<u8> {
    seq![0u8, 0u8, 0u8, 18u8, 0u8, 0u8, 0u8, 0u8, 0u8, 0u8, 0u8, 0u8] + key
}

/// Calls `soroban_sdk::crypto::Crypto::sha256` on `data` and returns the
/// 32 bytes of the digest. The contract claims that the result is the
/// SHA-256 digest of `data`, a function of `data` alone; it says nothing of
/// the host's resource budget, which the host may exhaust.
#[verifier::external_body]
fn sha256(e: &Env, data: &Vec<u8>) -> (r: [u8; 32])
    ensures
        r@ == sha256_digest(data@),
{
    let bytes = Bytes::from_slice(e, data.as_slice());
    e.crypto().sha256(&bytes).to_array()
}

/// Calls `soroban_sdk::xdr::ToXdr::to_xdr` on the integer `n` and copies the
/// encoded bytes out. The contract claims that the result is the XDR
/// encoding of `n` as a contract value, spelled out by `u64_xdr`.
#[verifier::external_body]
fn nonce_xdr(e: &Env, n: u64) -> (r: Vec<u8>)
    ensures
        r@ == u64_xdr(n),
{
    let encoded = n.to_xdr(e);
    let mut out = vec![0u8; encoded.len() as usize];
    encoded.copy_into_slice(out.as_mut_slice());
    out
}

/// The concatenation of all the byte strings of `parts`, in order.
pub open spec fn concat_all(parts: Seq<Vec<u8>>) -> Seq<u8>
    decreases parts.len(),
{
    if parts.len() == 0 {
        Seq::empty()
    } else {
        concat_all(parts.drop_last()) + parts.last()@
    }
}

/// The signed whitelist message: the tag, the admin, every address in order,
/// then the nonce, each in its XDR encoding.
pub open spec fn whitelist_message(tag: Seq<u8>, admin: Seq<u8>, addresses: Seq<Vec<u8>>, nonce: u64) -> Seq<u8> {
    tag + admin + concat_all(addresses) + u64_xdr(nonce)
}

fn append_bytes(out: &mut Vec<u8>, src: &Vec<u8>)
    ensures
        final(out)@ == old(out)@ + src@,
{
    let mut i: usize = 0;
    while i < src.len()
        invariant
            i <= src@.len(),
            out@ == old(out)@ + src@.subrange(0, i as int),
        decreases src@.len() - i,
    {
        out.push(src[i]);
        proof {
            assert(src@.subrange(0, i + 1) =~= src@.subrange(0, i as int).push(src@[i as int]));
        }
        i = i + 1;
    }
    proof {
        assert(src@.subrange(0, src@.len() as int) =~= src@);
    }
}

/// Frames the signed whitelist message from its XDR-encoded parts: the tag,
/// the admin, every address in order, then the nonce.
pub fn frame_whitelist_message(tag_xdr: &Vec<u8>, admin_xdr: &Vec<u8>, address_xdrs: &Vec<Vec<u8>>, nonce_xdr: &Vec<u8>) -> (r: Vec<u8>)
    ensures
        r@ == tag_xdr@ + admin_xdr@ + concat_all(address_xdrs@) + nonce_xdr@,
{
    let mut msg: Vec<u8> = Vec::new();
    append_bytes(&mut msg, tag_xdr);
    append_bytes(&mut msg, admin_xdr);
    let mut i: usize = 0;
    while i < address_xdrs.len()
        invariant
            i <= address_xdrs@.len(),
            msg@ == tag_xdr@ + admin_xdr@ + concat_all(address_xdrs@.subrange(0, i as int)),
        decreases address_xdrs@.len() - i,
    {
        append_bytes(&mut msg, &address_xdrs[i]);
        proof {
            let prefix = address_xdrs@.subrange(0, i + 1);
            assert(prefix.drop_last() =~= address_xdrs@.subrange(0, i as int));
            assert(prefix.last() == address_xdrs@[i as int]);
        }
        i = i + 1;
    }
    proof {
        assert(address_xdrs@.subrange(0, address_xdrs@.len() as int) =~= address_xdrs@);
    }
    append_bytes(&mut msg, nonce_xdr);
    msg
}

/// Builds the message that `admin` signs to whitelist `addresses` with
/// `nonce`: the tag, the admin and the addresses come XDR-encoded, the nonce
/// is encoded here.
pub fn signed_whitelist_message(e: &Env, tag_xdr: &Vec<u8>, admin_xdr: &Vec<u8>, address_xdrs: &Vec<Vec<u8>>, nonce: u64) -> (r: Vec<u8>)
    ensures
        r@ == whitelist_message(tag_xdr@, admin_xdr@, address_xdrs@, nonce),
{
    let n = nonce_xdr(e, nonce);
    frame_whitelist_message(tag_xdr, admin_xdr, address_xdrs, &n)
}

/// The SHA-256 digest of the message that `admin` signs to whitelist
/// `addresses` with `nonce`; the host verifies the admin's signature over it.
pub fn signed_whitelist_digest(e: &Env, tag_xdr: &Vec<u8>, admin_xdr: &Vec<u8>, address_xdrs: &Vec<Vec<u8>>, nonce: u64) -> (r: [u8; 32])
    ensures
        r@ == sha256_digest(whitelist_message(tag_xdr@, admin_xdr@, address_xdrs@, nonce)),
{
    let msg = signed_whitelist_message(e, tag_xdr, admin_xdr, address_xdrs, nonce);
    sha256(e, &msg)
}

/// Whether `address_xdr`, the XDR encoding of an address, is the address of
/// the account whose ed25519 public key is `public_key`; a contract address
/// never matches.
pub fn signer_key_matches(address_xdr: &Vec<u8>, public_key: &[u8; 32]) -> (r: bool)
    ensures
        r == (address_xdr@ == account_address_xdr(public_key@)),
{
    let prefix: [u8; 12] = [0, 0, 0, 18, 0, 0, 0, 0, 0, 0, 0, 0];
    let ghost expected = account_address_xdr(public_key@);
    assert(expected.len() == 44);
    if address_xdr.len() != 44 {
        return false;
    }
    let mut i: usize = 0;
    while i < 44
        invariant
            address_xdr@.len() == 44,
            expected == account_address_xdr(public_key@),
            prefix@ == seq![0u8, 0u8, 0u8, 18u8, 0u8, 0u8, 0u8, 0u8, 0u8, 0u8, 0u8, 0u8],
            i <= 44,
            forall|j: int| 0 <= j < i ==> address_xdr@[j] == expected[j],
        decreases 44 - i,
    {
        let want: u8 = if i < 12 { prefix[i] } else { public_key[i - 12] };
        if address_xdr[i] != want {
            assert(address_xdr@[i as int] != expected[i as int]);
            return false;
        }
        i = i + 1;
    }
    assert(address_xdr@ =~= expected);
    true
}

/// An account address encodes to 44 bytes: the address tag 18 in the fourth
/// byte, zeros for the other tag bytes, then the 32 bytes of the key.
pub proof fn lemma_account_address_layout(key: Seq<u8>)
    requires
        key.len() == 32,
    ensures
        account_address_xdr(key).len() == 44,
        account_address_xdr(key)[3] == 18,
        forall|i: int| 0 <= i < 12 && i != 3 ==> account_address_xdr(key)[i] == 0,
        account_address_xdr(key).subrange(12, 44) == key,
{
    assert(account_address_xdr(key).subrange(12, 44) =~= key);
}

} // verus!
