//! Deriving a payment-credential hash from a decoded address.

use vstd::prelude::*;

verus! {

/// The shape of a decoded address, as far as credential derivation reads it:
/// a Shelley-era payment address carries a payment-credential hash; every
/// other encoding (legacy Byron-era, stake-only, or any future kind) carries
/// none that this library extracts.
pub enum AddressModel {
    Shelley { payment_hash: Seq<u8> },
    Other,
}

/// A decoded address, reduced to what credential derivation needs: the
/// Shelley-era variant with its payment-credential hash bytes, or any other
/// variant.
#[derive(Clone, Debug)]
pub enum DecodedAddress {
    Shelley { payment_hash: Vec<u8> },
    Other,
}

impl View for DecodedAddress {
    type V = AddressModel;

    open spec fn view(&self) -> AddressModel {
        match self {
            DecodedAddress::Shelley { payment_hash } => AddressModel::Shelley {
                payment_hash: payment_hash@,
            },
            DecodedAddress::Other => AddressModel::Other,
        }
    }
}

/// A payment-credential hash: an immutable by-value wrapper around the raw
/// hash bytes. Equality and hashing go by the byte content.
#[derive(Clone, Eq, Hash, Debug)]
pub struct PubKeyHash(Vec<u8>);

impl View for PubKeyHash {
    type V = Seq<u8>;

    closed spec fn view(&self) -> Seq<u8> {
        self.0@
    }
}

impl PubKeyHash {
    /// Wrap a copy of the given bytes.
    pub fn new(inner: &[u8]) -> (r: Self)
        ensures
            r@ == inner@,
    {
        PubKeyHash(vstd::slice::slice_to_vec(inner))
    }

    /// The wrapped hash bytes.
    pub fn as_bytes(&self) -> (r: &Vec<u8>)
        ensures
            r@ == self@,
    {
        &self.0
    }
}

impl vstd::std_specs::cmp::PartialEqSpecImpl for PubKeyHash {
    open spec fn obeys_eq_spec() -> bool {
        true
    }

    open spec fn eq_spec(&self, other: &PubKeyHash) -> bool {
        self@ == other@
    }
}

impl PartialEq for PubKeyHash {
    fn eq(&self, other: &PubKeyHash) -> (r: bool) {
        if self.0.len() != other.0.len() {
            return false;
        }
        let mut i: usize = 0;
        while i < self.0.len()
            invariant
                i <= self.0.len(),
                self.0.len() == other.0.len(),
                forall|j: int| 0 <= j < i ==> self.0@[j] == other.0@[j],
            decreases self.0.len() - i,
        {
            if self.0[i] != other.0[i] {
                return false;
            }
            i = i + 1;
        }
        proof {
            assert(self.0@ =~= other.0@);
        }
        true
    }
}

/// What extraction reads off an address: the payment-credential hash of a
/// Shelley-era address, and absence for every other kind.
pub open spec fn spec_pkh_of(a: AddressModel) -> Option<Seq<u8>> {
    match a {
        AddressModel::Shelley { payment_hash } => Some(payment_hash),
        AddressModel::Other => None,
    }
}

/// What decoding a bech32 string yields: `None` where the string is not a
/// valid bech32-encoded address, otherwise the decoded address's shape.
pub uninterp spec fn spec_decode_bech32(s: Seq<char>) -> Option<AddressModel>;

/// Relies on pallas_addresses::Address::from_bech32, whose outcome depends on
/// the characters of `s` alone, and on the pure accessors
/// ShelleyAddress::payment and ShelleyPaymentPart::as_hash, which read the
/// payment-credential hash out of the decoded value (for both key-hash and
/// script-hash credentials).
#[verifier::external_body]
fn decode_bech32(s: &str) -> (r: Option<DecodedAddress>)
    ensures
        match r {
            Some(d) => spec_decode_bech32(s@) == Some(d@),
            None => spec_decode_bech32(s@) is None,
        },
{
    match pallas_addresses::Address::from_bech32(s) {
        Ok(pallas_addresses::Address::Shelley(shelley)) => Some(DecodedAddress::Shelley {
            payment_hash: shelley.payment().as_hash().to_vec(),
        }),
        Ok(_) => Some(DecodedAddress::Other),
        Err(_) => None,
    }
}

/// Decode a bech32-encoded address string into the shape that credential
/// derivation reads: `None` exactly where the string is not a valid
/// bech32-encoded address.
pub fn decode_address(s: &str) -> (r: Option<DecodedAddress>)
    ensures
        match r {
            Some(d) => spec_decode_bech32(s@) == Some(d@),
            None => spec_decode_bech32(s@) is None,
        },
{
    decode_bech32(s)
}

/// Derive the payment-credential hash of a decoded address. Total over every
/// address kind, and never an error: a Shelley-era address yields its
/// payment-credential hash bytes, wrapped; every other kind yields `None`.
pub fn derive_pkh_from_address(address: &DecodedAddress) -> (r: Option<PubKeyHash>)
    ensures
        match r {
            Some(p) => spec_pkh_of(address@) == Some(p@),
            None => spec_pkh_of(address@) is None,
        },
{
    match address {
        DecodedAddress::Shelley { payment_hash } => Some(PubKeyHash::new(payment_hash.as_slice())),
        DecodedAddress::Other => None,
    }
}

/// Law: extraction is repeatable. Two extractions on the same address value
/// yield byte-for-byte-equal hashes (or absence both times); the outcome
/// depends on the address's shape alone.
pub proof fn lemma_extraction_idempotent(a1: AddressModel, a2: AddressModel)
    requires
        a1 == a2,
    ensures
        spec_pkh_of(a1) == spec_pkh_of(a2),
{
}

} // verus!
