//! A signer whose key is held by the threshold ECDSA service: it caches the
//! public key and its address, and completes the service's signatures with the
//! recovery id.
use crate::evm_rpc::RejectionCode;
use crate::utils::{
    address_for_public_key, address_spec, ecdsa_key_id, parity_for_point, recovered_key,
    sec1_uncompressed,
    EcdsaCurve, EcdsaKeyId, IcpSignerError,
};
use vstd::prelude::*;

verus! {

/// An ECDSA signature with its recovery id.
#[derive(Debug, Clone, Copy, PartialEq, Eq)]
pub struct Signature {
    pub r: [u8; 32],
    pub s: [u8; 32],
    pub y_parity: bool,
}

/// What one call to the threshold signing service carries.
#[derive(Debug)]
pub struct SignRequest {
    pub message_hash: Vec<u8>,
    pub derivation_path: Vec<Vec<u8>>,
    pub key_id: EcdsaKeyId,
}

/// The contents of a derivation path.
pub open spec fn path_view(path: Vec<Vec<u8>>) -> Seq<Seq<u8>> {
    path@.map_values(|segment: Vec<u8>| segment@)
}

/// A signer backed by a threshold ECDSA key and a derivation path.
#[derive(Debug, Clone)]
pub struct IcpSigner {
    derivation_path: Vec<Vec<u8>>,
    key_id: EcdsaKeyId,
    public_key: Vec<u8>,
    address: [u8; 20],
    chain_id: Option<u64>,
}

/// The signature for a 64-byte `r || s` from the signing service, or why there
/// is none, for a signer whose uncompressed public key is `point`.
pub open spec fn signature_spec(hash: Seq<u8>, signature: Seq<u8>, point: Seq<u8>) -> Result<
    (Seq<u8>, Seq<u8>, bool),
    IcpSignerError,
> {
    if signature.len() != 64 {
        Err(IcpSignerError::EllipticCurve)
    } else {
        match parity_for_point(hash, signature, point) {
            Some(parity) => Ok((signature.subrange(0, 32), signature.subrange(32, 64), parity == 1)),
            None => Err(IcpSignerError::RecoveryFailed),
        }
    }
}

/// The contents of a signature, as in `signature_spec`.
pub open spec fn signature_view(r: Result<Signature, IcpSignerError>) -> Result<
    (Seq<u8>, Seq<u8>, bool),
    IcpSignerError,
> {
    match r {
        Ok(sig) => Ok((sig.r@, sig.s@, sig.y_parity)),
        Err(e) => Err(e),
    }
}

/// Copies each segment of a derivation path.
fn copy_path(path: &Vec<Vec<u8>>) -> (r: Vec<Vec<u8>>)
    ensures
        path_view(r) == path_view(*path),
{
    let mut out: Vec<Vec<u8>> = Vec::new();
    let mut i: usize = 0;
    while i < path.len()
        invariant
            i <= path@.len(),
            out@.len() == i,
            forall|j: int| 0 <= j < i ==> out@[j]@ == path@[j]@,
        decreases path@.len() - i,
    {
        out.push(vstd::slice::slice_to_vec(path[i].as_slice()));
        i = i + 1;
    }
    assert(path_view(out) =~= path_view(*path));
    out
}

impl IcpSigner {
    /// The cached address is the one of the cached public key.
    pub open spec fn wf(&self) -> bool {
        address_spec(self.spec_public_key()) == Some(self.spec_address())
    }

    pub closed spec fn spec_public_key(&self) -> Seq<u8> {
        self.public_key@
    }

    pub closed spec fn spec_address(&self) -> Seq<u8> {
        self.address@
    }

    pub closed spec fn spec_chain_id(&self) -> Option<u64> {
        self.chain_id
    }

    pub closed spec fn spec_key_id(&self) -> EcdsaKeyId {
        self.key_id
    }

    pub closed spec fn spec_derivation_path(&self) -> Vec<Vec<u8>> {
        self.derivation_path
    }

    /// The uncompressed encoding of the public key.
    pub open spec fn point(&self) -> Seq<u8> {
        sec1_uncompressed(self.spec_public_key())->Some_0
    }

    /// A signer for the key named `ecdsa_key_name` under `derivation_path`,
    /// from the reply of the public-key call: the public key, or the
    /// rejection of the call. The address is derived from the key here.
    pub fn new(
        derivation_path: Vec<Vec<u8>>,
        ecdsa_key_name: &str,
        chain_id: Option<u64>,
        public_key_reply: Result<Vec<u8>, (RejectionCode, String)>,
    ) -> (r: Result<Self, IcpSignerError>)
        ensures
            match public_key_reply {
                Err((code, message)) => r == Err::<Self, IcpSignerError>(
                    IcpSignerError::IcpCall(code, message),
                ),
                Ok(public_key) => match address_spec(public_key@) {
                    None => r == Err::<Self, IcpSignerError>(IcpSignerError::EllipticCurve),
                    Some(address) => r matches Ok(signer) && {
                        &&& signer.wf()
                        &&& signer.spec_public_key() == public_key@
                        &&& signer.spec_address() == address
                        &&& signer.spec_chain_id() == chain_id
                        &&& signer.spec_key_id().curve == EcdsaCurve::Secp256k1
                        &&& signer.spec_key_id().name@ == ecdsa_key_name@
                        &&& signer.spec_derivation_path() == derivation_path
                    },
                },
            },
    {
        let public_key = match public_key_reply {
            Ok(public_key) => public_key,
            Err((code, message)) => return Err(IcpSignerError::IcpCall(code, message)),
        };
        let key_id = ecdsa_key_id(ecdsa_key_name);
        let address = address_for_public_key(public_key.as_slice())?;
        Ok(IcpSigner { derivation_path, key_id, public_key, address, chain_id })
    }

    /// The call to the signing service for `hash`: the digest, this signer's
    /// key id and its derivation path.
    pub fn sign_request(&self, hash: &[u8; 32]) -> (r: SignRequest)
        ensures
            r.message_hash@ == hash@,
            path_view(r.derivation_path) == path_view(self.spec_derivation_path()),
            r.key_id.curve == self.spec_key_id().curve,
            r.key_id.name@ == self.spec_key_id().name@,
    {
        SignRequest {
            message_hash: vstd::slice::slice_to_vec(hash.as_slice()),
            derivation_path: copy_path(&self.derivation_path),
            key_id: EcdsaKeyId { curve: self.key_id.curve, name: self.key_id.name.clone() },
        }
    }

    /// Completes the signature of `hash` from the reply of the signing
    /// service: `r || s`, or the rejection of the call. The recovery id is
    /// the one from which this signer's public key is recovered.
    pub fn sign_hash_inner(
        &self,
        hash: &[u8; 32],
        signature_reply: Result<Vec<u8>, (RejectionCode, String)>,
    ) -> (r: Result<Signature, IcpSignerError>)
        requires
            self.wf(),
        ensures
            match signature_reply {
                Err((code, message)) => r == Err::<Signature, IcpSignerError>(
                    IcpSignerError::IcpCall(code, message),
                ),
                Ok(signature) => signature_view(r) == signature_spec(
                    hash@,
                    signature@,
                    self.point(),
                ),
            },
    {
        let signature = match signature_reply {
            Ok(signature) => signature,
            Err((code, message)) => return Err(IcpSignerError::IcpCall(code, message)),
        };
        if signature.len() != 64 {
            return Err(IcpSignerError::EllipticCurve);
        }
        let parity = crate::utils::y_parity(hash, signature.as_slice(), self.public_key.as_slice())?;
        let r: [u8; 32] = crate::utils::take_bytes(signature.as_slice(), 0);
        let s: [u8; 32] = crate::utils::take_bytes(signature.as_slice(), 32);
        Ok(Signature { r, s, y_parity: parity == 1 })
    }

    /// The address of the signer's public key.
    pub fn address(&self) -> (r: [u8; 20])
        ensures
            r@ == self.spec_address(),
    {
        self.address
    }

    pub fn chain_id(&self) -> (r: Option<u64>)
        ensures
            r == self.spec_chain_id(),
    {
        self.chain_id
    }

    /// Sets the chain id; the key material is left as it is.
    pub fn set_chain_id(&mut self, chain_id: Option<u64>)
        ensures
            final(self).spec_chain_id() == chain_id,
            final(self).spec_public_key() == old(self).spec_public_key(),
            final(self).spec_address() == old(self).spec_address(),
            final(self).spec_key_id() == old(self).spec_key_id(),
            final(self).spec_derivation_path() == old(self).spec_derivation_path(),
            final(self).wf() == old(self).wf(),
    {
        self.chain_id = chain_id;
    }

    /// The SEC1-encoded public key.
    pub fn public_key(&self) -> (r: &Vec<u8>)
        ensures
            r@ == self.spec_public_key(),
    {
        &self.public_key
    }

    pub fn key_id(&self) -> (r: &EcdsaKeyId)
        ensures
            *r == self.spec_key_id(),
    {
        &self.key_id
    }

    pub fn derivation_path(&self) -> (r: &Vec<Vec<u8>>)
        ensures
            *r == self.spec_derivation_path(),
    {
        &self.derivation_path
    }
}

/// A completed signature never guesses: its recovery id is one from which
/// the signer's key is recovered, and its `r` and `s` are those the service
/// returned.
pub proof fn signature_recovers_key(hash: Seq<u8>, signature: Seq<u8>, point: Seq<u8>)
    ensures
        signature_spec(hash, signature, point) matches Ok((r, s, y_parity)) ==> {
            &&& recovered_key(hash, signature, if y_parity { 1u8 } else { 0u8 }) == Some(point)
            &&& r == signature.subrange(0, 32)
            &&& s == signature.subrange(32, 64)
        },
{
}

/// A 64-byte `r || s` from which recovery id 1, and not 0, recovers the
/// signer's key is completed with y-parity 1 and the same `r` and `s`.
pub proof fn parity_one_signature(hash: Seq<u8>, signature: Seq<u8>, point: Seq<u8>)
    requires
        signature.len() == 64,
        recovered_key(hash, signature, 0) != Some(point),
        recovered_key(hash, signature, 1) == Some(point),
    ensures
        signature_spec(hash, signature, point) == Ok::<(Seq<u8>, Seq<u8>, bool), IcpSignerError>(
            (signature.subrange(0, 32), signature.subrange(32, 64), true),
        ),
{
}

} // verus!
