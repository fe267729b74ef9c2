//! Network protocol parameters and payment-credential derivation.
//!
//! Two independent pieces: a loader that turns the text of a protocol-parameter
//! JSON file into a typed [`NetworkParams`] record, rejecting anything missing
//! or malformed with a distinguishable [`LoadError`]; and an extractor that,
//! given a decoded address, yields the payment-credential hash for the
//! Shelley-era encoding and absence for every other kind.

mod address;
mod params;

pub use address::{
    decode_address, derive_pkh_from_address, lemma_extraction_idempotent, spec_decode_bech32,
    spec_pkh_of, AddressModel, DecodedAddress, PubKeyHash,
};
pub use params::{
    content_view, json_u64_of, json_wf, lemma_load_idempotent, load_network_params, spec_load,
    spec_params_from_json, LoadError, NetworkParams, NetworkParamsBuilder,
};
