use base64::Engine;
use sim_iot::cipher::{decrypt_data, encrypt_data, seal_with_nonce, CipherError};
use sim_iot::keystore::{generate_key, key_from_bytes, KeyError};
use sim_iot::pipeline::{metadata_of, Phase, Pipeline};
use sim_iot::queue::BatchQueue;
use sim_iot::record::{
    hash_hex, process, process_with_nonce, serialize_sample, verify_record, Payload, Readings, RecordError,
    SensorReading,
};
use sim_iot::text::to_hex;
use std::collections::HashSet;

fn key_a() -> [u8; 32] {
    let mut k = [0u8; 32];
    for (i, b) in k.iter_mut().enumerate() {
        *b = i as u8;
    }
    k
}

fn key_b() -> [u8; 32] {
    [7u8; 32]
}

fn sample(temperature: i32, timestamp: u64) -> SensorReading {
    SensorReading {
        device_id: "rpi-rust-001".to_string(),
        timestamp,
        readings: Readings { temperature, humidity: 4500, pressure: Some(101325) },
    }
}

fn decode(blob: &str) -> Vec<u8> {
    base64::engine::general_purpose::STANDARD.decode(blob).unwrap()
}

fn encode(bytes: &[u8]) -> String {
    base64::engine::general_purpose::STANDARD.encode(bytes)
}

#[test]
fn round_trip_encrypt_decrypt() {
    let plaintexts: Vec<Vec<u8>> = vec![vec![], b"a".to_vec(), b"hello sensor".to_vec(), (0..=255u8).collect()];
    for key in [key_a(), key_b()] {
        for p in &plaintexts {
            let blob = encrypt_data(p, &key).unwrap();
            assert_eq!(decrypt_data(&blob, &key).unwrap(), *p);
        }
    }
}

#[test]
fn blob_is_nonce_then_ciphertext_and_tag() {
    let nonce = [9u8; 12];
    let blob = seal_with_nonce(b"reading", &key_a(), &nonce).unwrap();
    let bytes = decode(&blob);
    assert_eq!(bytes.len(), 12 + 7 + 16);
    assert_eq!(&bytes[..12], &nonce);
    assert_ne!(&bytes[12..19], b"reading");
    assert_eq!(seal_with_nonce(b"reading", &key_a(), &nonce).unwrap(), blob);
    assert_eq!(decrypt_data(&blob, &key_a()).unwrap(), b"reading".to_vec());
}

#[test]
fn tamper_detection_every_ciphertext_byte() {
    for key in [key_a(), key_b()] {
        for p in [b"x".to_vec(), b"temperature 21.5".to_vec()] {
            let blob = encrypt_data(&p, &key).unwrap();
            let bytes = decode(&blob);
            for i in 12..bytes.len() {
                let mut t = bytes.clone();
                t[i] ^= 0x01;
                assert_eq!(decrypt_data(&encode(&t), &key), Err(CipherError::AuthenticationFailed));
            }
        }
    }
}

#[test]
fn wrong_key_fails_authentication() {
    let blob = encrypt_data(b"secret", &key_a()).unwrap();
    assert_eq!(decrypt_data(&blob, &key_b()), Err(CipherError::AuthenticationFailed));
}

#[test]
fn malformed_blobs_are_decode_errors() {
    assert_eq!(decrypt_data("not base64 !!", &key_a()), Err(CipherError::DecodeError));
    assert_eq!(decrypt_data(&encode(&[1, 2, 3, 4, 5]), &key_a()), Err(CipherError::DecodeError));
    assert_eq!(decrypt_data(&encode(&[0u8; 11]), &key_a()), Err(CipherError::DecodeError));
    assert_eq!(decrypt_data(&encode(&[0u8; 12]), &key_a()), Err(CipherError::AuthenticationFailed));
}

#[test]
fn nonces_are_pairwise_distinct() {
    let key = key_a();
    let mut seen: HashSet<Vec<u8>> = HashSet::new();
    for _ in 0..10_000 {
        let blob = encrypt_data(b"same plaintext", &key).unwrap();
        seen.insert(decode(&blob)[..12].to_vec());
    }
    assert_eq!(seen.len(), 10_000);
}

#[test]
fn sha256_hex_of_known_inputs() {
    assert_eq!(hash_hex(b"abc"), "ba7816bf8f01cfea414140de5dae2223b00361a396177a9cb410ff61f20015ad");
    assert_eq!(hash_hex(b""), "e3b0c44298fc1c149afbf4c8996fb92427ae41e4649b934ca495991b7852b855");
}

#[test]
fn hex_text_of_bytes() {
    assert_eq!(to_hex(&[0x00, 0x0f, 0xa5, 0xff]), "000fa5ff");
    assert_eq!(to_hex(&[]), "");
}

#[test]
fn serialization_is_canonical_json() {
    let s = SensorReading {
        device_id: "rpi-rust-001".to_string(),
        timestamp: 1700000000,
        readings: Readings { temperature: 2153, humidity: 4500, pressure: Some(101325) },
    };
    assert_eq!(
        String::from_utf8(serialize_sample(&s)).unwrap(),
        "{\"device_id\":\"rpi-rust-001\",\"timestamp\":1700000000,\"readings\":{\"temperature\":21.53,\"humidity\":45.00,\"pressure\":1013.25}}"
    );
    let t = SensorReading {
        device_id: "a\"b\\c\n".to_string(),
        timestamp: 0,
        readings: Readings { temperature: -4001, humidity: -5, pressure: None },
    };
    assert_eq!(
        String::from_utf8(serialize_sample(&t)).unwrap(),
        "{\"device_id\":\"a\\\"b\\\\c\\u000a\",\"timestamp\":0,\"readings\":{\"temperature\":-40.01,\"humidity\":-0.05,\"pressure\":null}}"
    );
}

#[test]
fn processed_record_hash_matches_decrypted_plaintext() {
    let key = key_a();
    let s = sample(2153, 1700000123);
    let p = process(&s, &key).unwrap();
    assert_eq!(p.metadata.device_id, "rpi-rust-001");
    assert_eq!(p.metadata.timestamp, 1700000123);
    let plain = decrypt_data(&p.encrypted_data, &key).unwrap();
    assert_eq!(plain, serialize_sample(&s));
    assert_eq!(hash_hex(&plain), p.metadata.data_hash);
    assert_eq!(verify_record(&p, &key), Ok(true));
}

#[test]
fn verify_record_detects_wrong_hash_and_key() {
    let key = key_a();
    let mut p = process_with_nonce(&sample(100, 5), &key, &[3u8; 12]).unwrap();
    assert_eq!(verify_record(&p, &key_b()), Err(CipherError::AuthenticationFailed));
    p.metadata.data_hash = hash_hex(b"something else");
    assert_eq!(verify_record(&p, &key), Ok(false));
}

#[test]
fn temperature_boundaries() {
    let key = key_a();
    assert!(process(&sample(-4000, 1), &key).is_ok());
    assert!(process(&sample(8500, 1), &key).is_ok());
    assert!(matches!(process(&sample(-4001, 1), &key), Err(RecordError::InvalidSample)));
    assert!(matches!(process(&sample(8501, 1), &key), Err(RecordError::InvalidSample)));
}

fn record(n: u64) -> Payload {
    process_with_nonce(&sample(2000, n), &key_a(), &[0u8; 12]).unwrap()
}

#[test]
fn queue_fifo_in_batches() {
    let mut q = BatchQueue::new();
    assert!(q.is_empty());
    for n in 1..=7u64 {
        q.push(record(n));
    }
    assert_eq!(q.len(), 7);
    let mut sizes = Vec::new();
    let mut order = Vec::new();
    loop {
        let batch = q.drain_up_to(3);
        if batch.is_empty() {
            break;
        }
        sizes.push(batch.len());
        order.extend(batch.iter().map(|p| p.metadata.timestamp));
    }
    assert_eq!(sizes, vec![3, 3, 1]);
    assert_eq!(order, (1..=7u64).collect::<Vec<_>>());
    assert_eq!(q.len(), 0);
}

#[test]
fn drain_of_empty_queue_is_empty() {
    let mut q = BatchQueue::new();
    assert!(q.drain_up_to(10).is_empty());
    q.push(record(1));
    assert_eq!(q.drain_up_to(0).len(), 0);
    assert_eq!(q.len(), 1);
}

#[test]
fn end_to_end_batch_size_three() {
    let key = key_a();
    let mut pipeline = Pipeline::new(3);
    let mut flushed: Vec<(u64, usize, Vec<u64>)> = Vec::new();
    for n in 1..=7u64 {
        if let Some(batch) = pipeline.ingest(&sample(2000 + n as i32, n), &key).unwrap() {
            flushed.push((batch.index, batch.records.len(), batch.records.iter().map(|p| p.metadata.timestamp).collect()));
            pipeline.flush_done(true);
        }
    }
    assert_eq!(pipeline.pending_len(), 1);
    let last = pipeline.stop().unwrap();
    assert_eq!(pipeline.phase(), Phase::Draining);
    flushed.push((last.index, last.records.len(), last.records.iter().map(|p| p.metadata.timestamp).collect()));
    pipeline.flush_done(true);
    assert_eq!(pipeline.phase(), Phase::Stopped);
    assert_eq!(pipeline.pending_len(), 0);
    assert_eq!(pipeline.next_index(), 3);
    assert_eq!(
        flushed,
        vec![(0, 3, vec![1, 2, 3]), (1, 3, vec![4, 5, 6]), (2, 1, vec![7])]
    );
    assert!(pipeline.stop().is_none());
}

#[test]
fn rejected_sample_leaves_pipeline_unchanged() {
    let mut pipeline = Pipeline::new(2);
    assert!(matches!(pipeline.ingest(&sample(9000, 1), &key_a()), Err(RecordError::InvalidSample)));
    assert_eq!(pipeline.pending_len(), 0);
    assert!(pipeline.ingest(&sample(2000, 2), &key_a()).unwrap().is_none());
    assert_eq!(pipeline.pending_len(), 1);
}

#[test]
fn failed_flush_reuses_index() {
    let mut pipeline = Pipeline::new(1);
    let b = pipeline.ingest(&sample(2000, 1), &key_a()).unwrap().unwrap();
    assert_eq!(b.index, 0);
    pipeline.flush_done(false);
    let b = pipeline.ingest(&sample(2000, 2), &key_a()).unwrap().unwrap();
    assert_eq!(b.index, 0);
    pipeline.flush_done(true);
    assert_eq!(pipeline.next_index(), 1);
    assert_eq!(pipeline.batch_size(), 1);
}

#[test]
fn stop_with_empty_queue_stops() {
    let mut pipeline = Pipeline::new(4);
    assert!(pipeline.stop().is_none());
    assert_eq!(pipeline.phase(), Phase::Stopped);
}

#[test]
fn metadata_view_keeps_order_without_ciphertext() {
    let records = vec![record(10), record(11)];
    let meta = metadata_of(&records);
    assert_eq!(meta.len(), 2);
    assert_eq!(meta[0].timestamp, 10);
    assert_eq!(meta[1].timestamp, 11);
    assert_eq!(meta[1].data_hash, records[1].metadata.data_hash);
}

#[test]
fn key_from_stored_bytes() {
    assert_eq!(key_from_bytes(&[1u8; 31]), Err(KeyError::KeyCorrupt));
    assert_eq!(key_from_bytes(&[]), Err(KeyError::KeyCorrupt));
    let stored: Vec<u8> = (0..40u8).collect();
    assert_eq!(key_from_bytes(&stored), Ok(key_a()));
    let k = generate_key();
    assert_eq!(key_from_bytes(&k), Ok(k));
    assert_eq!(key_from_bytes(&k), key_from_bytes(&k));
}

#[test]
fn generated_keys_differ() {
    assert_ne!(generate_key(), generate_key());
}
