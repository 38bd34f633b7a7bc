//! Sensor samples and the encrypted records made from them: validation,
//! canonical serialization, integrity hash and encryption.

use crate::cipher::{
    decrypt_data, decrypt_result, is_sealed_blob, seal_with_nonce, sealed_blob, CipherError,
};
use crate::primitives::{random_nonce, sha256, sha256_digest, MAX_PLAINTEXT_LEN};
use crate::text::{
    append_bytes, append_decimal, append_escaped, append_hundredths, decimal, escaped, hex_text, hundredths, to_hex,
};
use vstd::prelude::*;
use vstd::string::StringSliceAdditionalSpecFns;
use vstd::utf8::encode_utf8;

verus! {

/// Lowest plausible temperature, in hundredths of a degree Celsius.
pub const MIN_TEMPERATURE: i32 = -4000;

/// Highest plausible temperature, in hundredths of a degree Celsius.
pub const MAX_TEMPERATURE: i32 = 8500;

/// One set of readings. Values are fixed-point, in hundredths of their unit.
pub struct Readings {
    /// Temperature in hundredths of a degree Celsius.
    pub temperature: i32,
    /// Relative humidity in hundredths of a percent.
    pub humidity: i32,
    /// Air pressure in hundredths of a hectopascal, when the sensor has one.
    pub pressure: Option<i32>,
}

/// A reading taken by a device at a time (seconds since the Unix epoch).
pub struct SensorReading {
    pub device_id: String,
    pub timestamp: u64,
    pub readings: Readings,
}

/// What may be read about a record without decrypting it.
pub struct Metadata {
    pub device_id: String,
    pub timestamp: u64,
    /// Lower-case hex SHA-256 of the serialized plaintext sample.
    pub data_hash: String,
}

/// An encrypted record: metadata and the encrypted serialized sample.
pub struct Payload {
    pub metadata: Metadata,
    pub encrypted_data: String,
}

/// Why a sample could not be turned into a record.
#[derive(Debug, Clone, Copy, PartialEq, Eq, Structural)]
pub enum RecordError {
    /// The temperature lies outside the plausible range.
    InvalidSample,
    /// The serialized sample is too long to encrypt.
    EncryptionFailed,
}

/// Whether a temperature lies in the plausible range [-40.00, 85.00] °C.
pub open spec fn plausible_temperature(t: int) -> bool {
    MIN_TEMPERATURE <= t <= MAX_TEMPERATURE
}

/// The JSON numeral of an optional value in hundredths; `null` when absent.
pub open spec fn optional_hundredths(v: Option<i32>) -> Seq<u8> {
    match v {
        Some(x) => hundredths(x as int),
        None => "null".spec_bytes(),
    }
}

/// Canonical serialization of a sample: compact JSON with a fixed field order,
/// `{"device_id":..,"timestamp":..,"readings":{"temperature":..,"humidity":..,"pressure":..}}`.
pub open spec fn sample_bytes(s: SensorReading) -> Seq<u8> {
    "{\"device_id\":\"".spec_bytes() + escaped(encode_utf8(s.device_id@)) + "\",\"timestamp\":".spec_bytes()
        + decimal(s.timestamp as nat) + ",\"readings\":{\"temperature\":".spec_bytes()
        + hundredths(s.readings.temperature as int) + ",\"humidity\":".spec_bytes()
        + hundredths(s.readings.humidity as int) + ",\"pressure\":".spec_bytes()
        + optional_hundredths(s.readings.pressure) + "}}".spec_bytes()
}

/// Whether `p` is a record of sample `s` under `key`: it carries the sample's
/// device and time, the hash of the serialized sample, and its encryption.
pub open spec fn is_record_of(p: Payload, s: SensorReading, key: Seq<u8>) -> bool {
    &&& p.metadata.device_id@ == s.device_id@
    &&& p.metadata.timestamp == s.timestamp
    &&& p.metadata.data_hash@ == hex_text(sha256_digest(sample_bytes(s)))
    &&& sample_bytes(s).len() <= MAX_PLAINTEXT_LEN
    &&& is_sealed_blob(key, sample_bytes(s), p.encrypted_data@)
}

/// Whether the sample's temperature is plausible.
pub fn is_plausible(sample: &SensorReading) -> (r: bool)
    ensures
        r == plausible_temperature(sample.readings.temperature as int),
{
    MIN_TEMPERATURE <= sample.readings.temperature && sample.readings.temperature <= MAX_TEMPERATURE
}

/// Canonical serialization of a sample (see `sample_bytes`).
pub fn serialize_sample(sample: &SensorReading) -> (r: Vec<u8>)
    ensures
        r@ == sample_bytes(*sample),
{
    let mut out: Vec<u8> = Vec::new();
    append_bytes(&mut out, "{\"device_id\":\"".as_bytes());
    append_escaped(&mut out, sample.device_id.as_str().as_bytes());
    append_bytes(&mut out, "\",\"timestamp\":".as_bytes());
    append_decimal(&mut out, sample.timestamp);
    append_bytes(&mut out, ",\"readings\":{\"temperature\":".as_bytes());
    append_hundredths(&mut out, sample.readings.temperature);
    append_bytes(&mut out, ",\"humidity\":".as_bytes());
    append_hundredths(&mut out, sample.readings.humidity);
    append_bytes(&mut out, ",\"pressure\":".as_bytes());
    match sample.readings.pressure {
        Some(x) => append_hundredths(&mut out, x),
        None => append_bytes(&mut out, "null".as_bytes()),
    }
    append_bytes(&mut out, "}}".as_bytes());
    assert(out@ =~= sample_bytes(*sample));
    out
}

/// Lower-case hex SHA-256 of `bytes`.
pub fn hash_hex(bytes: &[u8]) -> (r: String)
    ensures
        r@ == hex_text(sha256_digest(bytes@)),
{
    let digest = sha256(bytes);
    to_hex(&digest)
}

/// Turns a sample into an encrypted record under `key`, encrypting with the given nonce.
pub fn process_with_nonce(sample: &SensorReading, key: &[u8; 32], nonce: &[u8; 12]) -> (r: Result<Payload, RecordError>)
    ensures
        !plausible_temperature(sample.readings.temperature as int)
            ==> r == Err::<Payload, RecordError>(RecordError::InvalidSample),
        plausible_temperature(sample.readings.temperature as int) && sample_bytes(*sample).len() > MAX_PLAINTEXT_LEN
            ==> r == Err::<Payload, RecordError>(RecordError::EncryptionFailed),
        plausible_temperature(sample.readings.temperature as int) && sample_bytes(*sample).len() <= MAX_PLAINTEXT_LEN
            ==> (r matches Ok(p) && {
                &&& p.metadata.device_id@ == sample.device_id@
                &&& p.metadata.timestamp == sample.timestamp
                &&& p.metadata.data_hash@ == hex_text(sha256_digest(sample_bytes(*sample)))
                &&& p.encrypted_data@ == sealed_blob(key@, nonce@, sample_bytes(*sample))
            }),
{
    if !is_plausible(sample) {
        return Err(RecordError::InvalidSample);
    }
    let bytes = serialize_sample(sample);
    let data_hash = hash_hex(bytes.as_slice());
    match seal_with_nonce(bytes.as_slice(), key, nonce) {
        Ok(encrypted_data) => Ok(
            Payload {
                metadata: Metadata { device_id: sample.device_id.clone(), timestamp: sample.timestamp, data_hash },
                encrypted_data,
            },
        ),
        Err(_) => Err(RecordError::EncryptionFailed),
    }
}

/// Turns a sample into an encrypted record under `key`, with a fresh random nonce.
pub fn process(sample: &SensorReading, key: &[u8; 32]) -> (r: Result<Payload, RecordError>)
    ensures
        !plausible_temperature(sample.readings.temperature as int)
            ==> r == Err::<Payload, RecordError>(RecordError::InvalidSample),
        plausible_temperature(sample.readings.temperature as int) && sample_bytes(*sample).len() > MAX_PLAINTEXT_LEN
            ==> r == Err::<Payload, RecordError>(RecordError::EncryptionFailed),
        plausible_temperature(sample.readings.temperature as int) && sample_bytes(*sample).len() <= MAX_PLAINTEXT_LEN
            ==> (r matches Ok(p) && is_record_of(p, *sample, key@)),
{
    let nonce = random_nonce();
    let r = process_with_nonce(sample, key, &nonce);
    proof {
        if r is Ok {
            assert(sealed_blob(key@, nonce@, sample_bytes(*sample)) == r->Ok_0.encrypted_data@);
        }
    }
    r
}

/// Checks a record's integrity under `key`: decrypts it and compares the hash
/// of the plaintext with the stored one. A record that `process` made from a
/// sample under the same key checks as intact.
pub fn verify_record(p: &Payload, key: &[u8; 32]) -> (r: Result<bool, CipherError>)
    ensures
        match r {
            Ok(intact) => decrypt_result(key@, p.encrypted_data@) matches Ok(plain)
                && intact == (hex_text(sha256_digest(plain)) == p.metadata.data_hash@),
            Err(e) => decrypt_result(key@, p.encrypted_data@) == Err::<Seq<u8>, CipherError>(e),
        },
        forall|s: SensorReading| #[trigger] is_record_of(*p, s, key@) ==> r == Ok::<bool, CipherError>(true),
{
    let plain = decrypt_data(p.encrypted_data.as_str(), key)?;
    let digest = hash_hex(plain.as_slice());
    let r = digest == p.metadata.data_hash;
    assert forall|s: SensorReading| #[trigger] is_record_of(*p, s, key@) implies r by {
        assert(is_sealed_blob(key@, sample_bytes(s), p.encrypted_data@));
    }
    Ok(r)
}

} // verus!
