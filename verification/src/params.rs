//! Loading network protocol parameters from JSON text.

use vstd::prelude::*;

verus! {

/// Network protocol parameters: the cost (in the chain's smallest unit) of
/// storing one byte of UTXO data, and the fee charged per byte of transaction
/// size. Both are read verbatim from the parameter file; missing or malformed
/// values never coerce to zero.
#[derive(Clone, Debug, PartialEq, Eq, Structural)]
pub struct NetworkParams {
    pub utxo_cost_per_byte: u32,
    pub tx_fee_per_byte: u32,
}

/// Why loading network parameters failed. Every failure is distinguishable;
/// none is recoverable by the loader itself.
#[derive(Clone, Copy, Debug, PartialEq, Eq, Structural)]
pub enum LoadError {
    /// The parameter file does not exist or could not be read.
    FileAccessError,
    /// The file's contents are not well-formed JSON.
    ParseError,
    /// The JSON is well formed but a required key is missing, has the wrong
    /// type, or its value does not fit in an unsigned 32-bit integer.
    SchemaError,
}

/// Stateless facade for constructing [`NetworkParams`] from JSON text.
pub struct NetworkParamsBuilder {}

impl NetworkParams {
    /// A builder for loading parameters.
    pub fn builder() -> (r: NetworkParamsBuilder)
        ensures
            r == (NetworkParamsBuilder {}),
    {
        NetworkParamsBuilder {}
    }
}

/// Whether `s` is a well-formed JSON document, as serde_json accepts it.
pub uninterp spec fn json_wf(s: Seq<char>) -> bool;

/// The unsigned 64-bit integer held at top-level key `key` of the JSON
/// document `s`, or `None` where `s` is not a JSON object with that key, or
/// the key's value is not an unsigned integer that fits in 64 bits.
pub uninterp spec fn json_u64_of(s: Seq<char>, key: Seq<char>) -> Option<u64>;

/// Relies on serde_json::from_str::<Value>: whether it accepts `s` depends on
/// the characters of `s` alone.
#[verifier::external_body]
fn json_is_valid(s: &str) -> (r: bool)
    ensures
        r == json_wf(s@),
{
    serde_json::from_str::<serde_json::Value>(s).is_ok()
}

/// Relies on serde_json::from_str::<Value>, Value::get and Value::as_u64:
/// together they yield the unsigned integer at top-level key `key`, `None` on
/// an unparsable document, a non-object document, a missing key, or a value
/// that is not an unsigned integer fitting in 64 bits (a negative number, a
/// fraction, a string); the outcome depends on `s` and `key` alone.
#[verifier::external_body]
fn json_u64_field(s: &str, key: &str) -> (r: Option<u64>)
    ensures
        r == json_u64_of(s@, key@),
{
    match serde_json::from_str::<serde_json::Value>(s) {
        Ok(doc) => match doc.get(key) {
            Some(value) => value.as_u64(),
            None => None,
        },
        Err(_) => None,
    }
}

/// What parsing JSON text into parameters yields: `ParseError` on text that is
/// not well-formed JSON; otherwise `SchemaError` where either key is absent,
/// not an unsigned integer, or beyond 32 bits; otherwise the two values,
/// verbatim.
pub open spec fn spec_params_from_json(s: Seq<char>) -> Result<NetworkParams, LoadError> {
    if !json_wf(s) {
        Err(LoadError::ParseError)
    } else {
        match (json_u64_of(s, "utxoCostPerByte"@), json_u64_of(s, "txFeePerByte"@)) {
            (Some(utxo), Some(fee)) => {
                if utxo <= u32::MAX && fee <= u32::MAX {
                    Ok(NetworkParams {
                        utxo_cost_per_byte: utxo as u32,
                        tx_fee_per_byte: fee as u32,
                    })
                } else {
                    Err(LoadError::SchemaError)
                }
            },
            _ => Err(LoadError::SchemaError),
        }
    }
}

impl NetworkParamsBuilder {
    /// Parse JSON text into parameters. Returns `Ok` exactly when the text is
    /// a JSON document whose top-level keys `utxoCostPerByte` and
    /// `txFeePerByte` each hold an unsigned integer fitting in 32 bits, and
    /// then carries both values verbatim; otherwise the error that
    /// [`spec_params_from_json`] assigns.
    pub fn new_from_json(&self, json: &str) -> (r: Result<NetworkParams, LoadError>)
        ensures
            r == spec_params_from_json(json@),
    {
        if !json_is_valid(json) {
            return Err(LoadError::ParseError);
        }
        let utxo = json_u64_field(json, "utxoCostPerByte");
        let fee = json_u64_field(json, "txFeePerByte");
        match (utxo, fee) {
            (Some(u), Some(f)) => {
                if u <= u32::MAX as u64 && f <= u32::MAX as u64 {
                    Ok(NetworkParams { utxo_cost_per_byte: u as u32, tx_fee_per_byte: f as u32 })
                } else {
                    Err(LoadError::SchemaError)
                }
            },
            _ => Err(LoadError::SchemaError),
        }
    }
}

/// The view of an optional borrowed file content.
pub open spec fn content_view(content: Option<&str>) -> Option<Seq<char>> {
    match content {
        Some(s) => Some(s@),
        None => None,
    }
}

/// What loading yields for a file whose text is `content`, with `None`
/// standing for a file that could not be opened or read.
pub open spec fn spec_load(content: Option<Seq<char>>) -> Result<NetworkParams, LoadError> {
    match content {
        Some(s) => spec_params_from_json(s),
        None => Err(LoadError::FileAccessError),
    }
}

/// Load network parameters from the text of the parameter file. `content` is
/// the file's text, or `None` where the file did not exist or could not be
/// read; that case fails with `FileAccessError`, and every other outcome is
/// that of [`NetworkParamsBuilder::new_from_json`] on the text.
pub fn load_network_params(content: Option<&str>) -> (r: Result<NetworkParams, LoadError>)
    ensures
        r == spec_load(content_view(content)),
{
    match content {
        Some(s) => NetworkParams::builder().new_from_json(s),
        None => Err(LoadError::FileAccessError),
    }
}

/// Law: loading is repeatable. Two loads of files with the same text (or two
/// failures to read) yield the same outcome, field for field; a result never
/// depends on anything but the text.
pub proof fn lemma_load_idempotent(c1: Option<Seq<char>>, c2: Option<Seq<char>>)
    requires
        c1 == c2,
    ensures
        spec_load(c1) == spec_load(c2),
{
}

} // verus!
