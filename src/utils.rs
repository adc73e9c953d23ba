//! Key identifiers, Ethereum addresses of secp256k1 public keys, and the
//! recovery of the y-parity bit that the threshold signing service omits.
use alloy_signer::k256::ecdsa::{RecoveryId, Signature, VerifyingKey};
use alloy_signer::k256::elliptic_curve::sec1::ToEncodedPoint;
use vstd::prelude::*;

verus! {

/// The uncompressed SEC1 encoding of a SEC1-encoded secp256k1 public key, or
/// `None` when the bytes are not a point of the curve.
pub uninterp spec fn sec1_uncompressed(public_key: Seq<u8>) -> Option<Seq<u8>>;

/// The Keccak-256 digest of `data`.
pub uninterp spec fn keccak(data: Seq<u8>) -> Seq<u8>;

/// The uncompressed SEC1 encoding of the public key recovered from a prehashed
/// message, a 64-byte `r || s` signature and a recovery id, or `None` when no
/// key can be recovered.
pub uninterp spec fn recovered_key(hash: Seq<u8>, signature: Seq<u8>, parity: u8) -> Option<Seq<u8>>;

pub open spec fn view_opt(o: Option<Vec<u8>>) -> Option<Seq<u8>> {
    match o {
        Some(v) => Some(v@),
        None => None,
    }
}

/// Relies on `PublicKey::<Secp256k1>::from_sec1_bytes` to parse the key; the
/// result is converted to its uncompressed encoding (tag byte and two 32-byte
/// coordinates).
#[verifier::external_body]
fn uncompressed_point(public_key: &[u8]) -> (r: Option<Vec<u8>>)
    ensures
        view_opt(r) == sec1_uncompressed(public_key@),
        r matches Some(p) ==> p@.len() == 65,
{
    let key = alloy_signer::k256::PublicKey::from_sec1_bytes(public_key).ok()?;
    Some(key.to_encoded_point(false).as_bytes().to_vec())
}

/// Relies on `alloy_primitives::keccak256`.
#[verifier::external_body]
fn keccak256(data: &[u8]) -> (r: [u8; 32])
    ensures
        r@ == keccak(data@),
{
    alloy_primitives::keccak256(data).0
}

/// Relies on `VerifyingKey::recover_from_prehash`; the signature bytes and the
/// recovery id are converted to k256's types first, and the recovered key to
/// its uncompressed encoding.
#[verifier::external_body]
fn recover_point(hash: &[u8; 32], signature: &[u8], parity: u8) -> (r: Option<Vec<u8>>)
    requires
        parity < 2,
    ensures
        view_opt(r) == recovered_key(hash@, signature@, parity),
        r matches Some(p) ==> p@.len() == 65,
        signature@.len() != 64 ==> r is None,
{
    let signature = Signature::try_from(signature).ok()?;
    let recid = RecoveryId::try_from(parity).ok()?;
    let key = VerifyingKey::recover_from_prehash(hash, &signature, recid).ok()?;
    Some(key.to_encoded_point(false).as_bytes().to_vec())
}

/// Elliptic curves that a threshold key can live on.
#[derive(Debug, Clone, Copy, PartialEq, Eq)]
pub enum EcdsaCurve {
    Secp256k1,
}

/// Names a threshold ECDSA key of the management canister.
#[derive(Debug, Clone, PartialEq, Eq)]
pub struct EcdsaKeyId {
    pub curve: EcdsaCurve,
    pub name: String,
}

/// Why creating a signer or signing failed.
#[derive(Debug, Clone, PartialEq, Eq)]
pub enum IcpSignerError {
    /// The system rejected the call to the management canister.
    IcpCall(crate::evm_rpc::RejectionCode, String),
    /// A public key or a signature whose bytes are not valid on the curve.
    EllipticCurve,
    /// Neither recovery id recovers the signer's public key: the signature
    /// does not belong to it.
    RecoveryFailed,
}

/// The key id on secp256k1 with the given name.
pub fn ecdsa_key_id(name: &str) -> (r: EcdsaKeyId)
    ensures
        r.curve == EcdsaCurve::Secp256k1,
        r.name@ == name@,
{
    EcdsaKeyId { curve: EcdsaCurve::Secp256k1, name: name.to_owned() }
}

/// The Ethereum address of an uncompressed point: the last 20 bytes of the
/// Keccak-256 digest of the point without its tag byte.
pub open spec fn address_of_point(point: Seq<u8>) -> Seq<u8> {
    keccak(point.subrange(1, point.len() as int)).subrange(12, 32)
}

/// The Ethereum address of a SEC1-encoded public key, if it is a point of the
/// curve.
pub open spec fn address_spec(public_key: Seq<u8>) -> Option<Seq<u8>> {
    match sec1_uncompressed(public_key) {
        Some(point) => Some(address_of_point(point)),
        None => None,
    }
}

/// Bytes `start .. start + N` of `src`.
pub(crate) fn take_bytes<const N: usize>(src: &[u8], start: usize) -> (r: [u8; N])
    requires
        start + N <= src@.len(),
    ensures
        r@ == src@.subrange(start as int, start + N),
{
    let mut out: [u8; N] = vstd::array::array_fill_for_copy_types(0u8);
    let mut i: usize = 0;
    while i < N
        invariant
            i <= N,
            start + N <= src@.len(),
            src@.len() == src.len(),
            out@.len() == N,
            forall|j: int| 0 <= j < i ==> out@[j] == src@[start + j],
        decreases N - i,
    {
        out[i] = src[start + i];
        i = i + 1;
    }
    assert(out@ =~= src@.subrange(start as int, start + N));
    out
}

/// The Ethereum address of an uncompressed point of 65 bytes.
fn address_from_point(point: &Vec<u8>) -> (r: [u8; 20])
    requires
        point@.len() == 65,
    ensures
        r@ == address_of_point(point@),
{
    let hash = keccak256(vstd::slice::slice_subrange(point.as_slice(), 1, point.len()));
    proof {
        assert(hash@.len() == 32);
    }
    take_bytes(&hash, 12)
}

/// Returns the Ethereum address for the given SEC1-encoded public key.
pub fn address_for_public_key(public_key: &[u8]) -> (r: Result<[u8; 20], IcpSignerError>)
    ensures
        match address_spec(public_key@) {
            Some(address) => r matches Ok(a) && a@ == address,
            None => r == Err::<[u8; 20], IcpSignerError>(IcpSignerError::EllipticCurve),
        },
{
    match uncompressed_point(public_key) {
        Some(point) => Ok(address_from_point(&point)),
        None => Err(IcpSignerError::EllipticCurve),
    }
}

/// Whether two byte strings are equal.
fn bytes_equal(a: &[u8], b: &[u8]) -> (r: bool)
    ensures
        r == (a@ == b@),
{
    if a.len() != b.len() {
        return false;
    }
    let mut i: usize = 0;
    while i < a.len()
        invariant
            a@.len() == b@.len(),
            i <= a@.len(),
            forall|j: int| 0 <= j < i ==> a@[j] == b@[j],
        decreases a@.len() - i,
    {
        if a[i] != b[i] {
            return false;
        }
        i = i + 1;
    }
    assert(a@ =~= b@);
    true
}

/// The recovery id whose recovered key is `target`, trying 0 before 1.
pub open spec fn parity_choice(target: Seq<u8>, candidate0: Option<Seq<u8>>, candidate1: Option<
    Seq<u8>,
>) -> Option<u8> {
    if candidate0 == Some(target) {
        Some(0u8)
    } else if candidate1 == Some(target) {
        Some(1u8)
    } else {
        None
    }
}

/// Picks the recovery id whose candidate key equals the known key `target`.
pub fn select_parity(target: &[u8], candidate0: &Option<Vec<u8>>, candidate1: &Option<Vec<u8>>) -> (r:
    Option<u8>)
    ensures
        r == parity_choice(target@, view_opt(*candidate0), view_opt(*candidate1)),
{
    if let Some(key) = candidate0 {
        if bytes_equal(key.as_slice(), target) {
            return Some(0);
        }
    }
    if let Some(key) = candidate1 {
        if bytes_equal(key.as_slice(), target) {
            return Some(1);
        }
    }
    None
}

/// The recovery id that `y_parity` finds for a key whose uncompressed
/// encoding is `point`.
pub open spec fn parity_for_point(hash: Seq<u8>, signature: Seq<u8>, point: Seq<u8>) -> Option<u8> {
    parity_choice(point, recovered_key(hash, signature, 0), recovered_key(hash, signature, 1))
}

/// Finds the recovery id (y-parity) of a signature made by `public_key`: the
/// one of 0 and 1 from which the key is recovered.
pub fn y_parity(hash: &[u8; 32], signature: &[u8], public_key: &[u8]) -> (r: Result<
    u64,
    IcpSignerError,
>)
    ensures
        match sec1_uncompressed(public_key@) {
            None => r == Err::<u64, IcpSignerError>(IcpSignerError::EllipticCurve),
            Some(point) => match parity_for_point(hash@, signature@, point) {
                Some(parity) => r == Ok::<u64, IcpSignerError>(parity as u64),
                None => r == Err::<u64, IcpSignerError>(IcpSignerError::RecoveryFailed),
            },
        },
{
    let point = match uncompressed_point(public_key) {
        Some(point) => point,
        None => return Err(IcpSignerError::EllipticCurve),
    };
    parity_of_point(hash, signature, &point)
}

/// The recovery id for a known uncompressed key `point`.
fn parity_of_point(hash: &[u8; 32], signature: &[u8], point: &Vec<u8>) -> (r: Result<u64, IcpSignerError>)
    ensures
        match parity_for_point(hash@, signature@, point@) {
            Some(parity) => r == Ok::<u64, IcpSignerError>(parity as u64),
            None => r == Err::<u64, IcpSignerError>(IcpSignerError::RecoveryFailed),
        },
{
    let candidate0 = recover_point(hash, signature, 0);
    let candidate1 = recover_point(hash, signature, 1);
    match select_parity(point.as_slice(), &candidate0, &candidate1) {
        Some(parity) => Ok(parity as u64),
        None => Err(IcpSignerError::RecoveryFailed),
    }
}

/// Deriving an address is deterministic: the same key gives the same
/// address, and that address is the last 20 bytes of the Keccak-256 digest of
/// the uncompressed point without its tag byte.
pub proof fn address_is_deterministic(key1: Seq<u8>, key2: Seq<u8>)
    requires
        key1 == key2,
    ensures
        address_spec(key1) == address_spec(key2),
        sec1_uncompressed(key1) matches Some(point) ==> address_spec(key1) == Some(
            keccak(point.subrange(1, point.len() as int)).subrange(12, 32),
        ),
{
}

} // verus!
