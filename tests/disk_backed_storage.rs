use sector_base::codec::{pad_stream, padded_bytes, padded_prefix, unpad_stream, unpadded_bytes};
use sector_base::errors::SectorManagerErr;
use sector_base::responses::{
    NumUnsealedBytesResponse, SBResponseStatus, ToResponseStatus, TruncateUnsealedResponse,
    WriteAndPreprocessResponse,
};
use sector_base::storage::{
    new_fast_fake_sector_store, new_real_sector_store, ConcreteSectorStore,
};

fn create_storage() -> ConcreteSectorStore {
    new_real_sector_store("/tmp/sealed".to_string(), "/tmp/staging".to_string())
}

/// Applies a truncation plan to an in-memory copy of a file, as `set_len` would.
fn set_len(buf: &mut Vec<u8>, len: u64) {
    buf.resize(len as usize, 0);
}

#[test]
fn unsealed_sector_write_and_truncate() {
    let storage = create_storage();
    let manager = storage.manager();

    let access = manager.new_staging_sector_access();
    assert!(access.starts_with("/tmp/staging/"));

    let contents = [2u8; 500];

    let write = manager.write_unsealed(Ok(Vec::new()), &contents.to_vec());
    let write_unsealed_response =
        WriteAndPreprocessResponse::from_result(write.as_ref().map(|w| w.num_bytes_written).map_err(|e| e.clone()));

    assert_eq!(SBResponseStatus::SBNoError, write_unsealed_response.status_code);

    // buffer the file's bytes into memory after writing bytes
    let mut buf = write.unwrap().contents;
    let output_bytes_written = buf.len();

    // the reported count is the padded bytes that the write added
    assert_eq!(output_bytes_written, write_unsealed_response.num_bytes_written as usize);

    // ensure the file we wrote to contains the expected bytes
    assert_eq!(contents[0..32], buf[0..32]);
    assert_eq!(8u8, buf[32]);

    // ensure the file we wrote to contains the expected bytes
    assert_eq!(504, buf.len());

    // also ensure this is the amount we calculate
    let expected_padded_bytes = padded_bytes(contents.len() as u64) as usize;
    assert_eq!(expected_padded_bytes, output_bytes_written);

    {
        let num_unsealed_bytes_response =
            NumUnsealedBytesResponse::from_result(manager.num_unsealed_bytes(Ok(buf.len() as u64)));

        assert_eq!(SBResponseStatus::SBNoError, num_unsealed_bytes_response.status_code);

        // ensure num_unsealed_bytes returns the number of data bytes written.
        assert_eq!(500, num_unsealed_bytes_response.num_bytes as usize);
    }

    {
        // Truncate to 32 unpadded bytes
        let new_len = manager.truncate_unsealed(Ok(()), 32).unwrap();
        set_len(&mut buf, new_len);
        let done = manager.truncated(Ok(()));
        assert_eq!(SBResponseStatus::SBNoError, TruncateUnsealedResponse::from_result(done).status_code);

        // ensure the file we wrote to contains the expected bytes
        assert_eq!(33, buf.len());

        // All but last bytes are identical.
        assert_eq!(contents[0..32], buf[0..32]);

        // The last byte (first of new Fr) has been shifted by two bits of padding.
        assert_eq!(contents[32] << 2, buf[32]);

        let num_unsealed_bytes_response =
            NumUnsealedBytesResponse::from_result(manager.num_unsealed_bytes(Ok(buf.len() as u64)));

        assert_eq!(SBResponseStatus::SBNoError, num_unsealed_bytes_response.status_code);

        // ensure that our byte-counting function works
        assert_eq!(32, num_unsealed_bytes_response.num_bytes);
    }

    {
        // Truncate to 31 unpadded bytes
        let new_len = manager.truncate_unsealed(Ok(()), 31).unwrap();
        set_len(&mut buf, new_len);
        assert_eq!(SBResponseStatus::SBNoError, manager.truncated(Ok(())).to_response_status());

        // ensure the file we wrote to contains the expected bytes
        assert_eq!(31, buf.len());
        assert_eq!(contents[0..31], buf[0..]);

        let num_unsealed_bytes_response =
            NumUnsealedBytesResponse::from_result(manager.num_unsealed_bytes(Ok(buf.len() as u64)));

        assert_eq!(SBResponseStatus::SBNoError, num_unsealed_bytes_response.status_code);

        // ensure that our byte-counting function works
        assert_eq!(buf.len(), num_unsealed_bytes_response.num_bytes as usize);
    }

    let new_len = manager.truncate_unsealed(Ok(()), 1).unwrap();
    set_len(&mut buf, new_len);
    assert_eq!(SBResponseStatus::SBNoError, manager.truncated(Ok(())).to_response_status());

    // ensure the file we wrote to contains the expected bytes
    assert_eq!(1, buf.len());
    assert_eq!(contents[0..1], buf[0..]);

    let num_unsealed_bytes_response =
        NumUnsealedBytesResponse::from_result(manager.num_unsealed_bytes(Ok(buf.len() as u64)));

    assert_eq!(SBResponseStatus::SBNoError, num_unsealed_bytes_response.status_code);

    // ensure that our byte-counting function works
    assert_eq!(buf.len(), num_unsealed_bytes_response.num_bytes as usize);
}

#[test]
fn size_conversions_exact_values() {
    assert_eq!(504, padded_bytes(500));
    assert_eq!(500, unpadded_bytes(504));
    assert_eq!(33, padded_bytes(32));
    assert_eq!(32, unpadded_bytes(33));
    assert_eq!(31, padded_bytes(31));
    assert_eq!(127, unpadded_bytes(128));
    assert_eq!(128, padded_bytes(127));
    assert_eq!(1016, unpadded_bytes(1024));
    assert_eq!(0, padded_bytes(0));
    assert_eq!(0, unpadded_bytes(0));
}

#[test]
fn unpad_of_pad_is_identity_over_a_range() {
    let mut previous = 0;
    for u in 0..5000u64 {
        let p = padded_bytes(u);
        assert_eq!(u, unpadded_bytes(p));
        assert!(p >= previous);
        previous = p;
    }
}

#[test]
fn fresh_write_round_trips_count() {
    let manager = create_storage();
    let manager = manager.manager();
    for n in [0usize, 1, 31, 32, 127, 128, 254, 500, 1000] {
        let data: Vec<u8> = (0..n).map(|i| (i * 7 + 3) as u8).collect();
        let w = manager.write_unsealed(Ok(Vec::new()), &data).unwrap();
        assert_eq!(Ok(n as u64), manager.num_unsealed_bytes(Ok(w.contents.len() as u64)));
        assert_eq!(w.contents.len() as u64, w.num_bytes_written);
    }
}

#[test]
fn appending_matches_writing_at_once() {
    let storage = create_storage();
    let manager = storage.manager();
    let data: Vec<u8> = (0..300u32).map(|i| (i * 13 + 5) as u8).collect();
    let once = manager.write_unsealed(Ok(Vec::new()), &data).unwrap();
    let first = manager.write_unsealed(Ok(Vec::new()), &data[..45].to_vec()).unwrap();
    let second = manager.write_unsealed(Ok(first.contents.clone()), &data[45..].to_vec()).unwrap();
    assert_eq!(once.contents, second.contents);
    assert_eq!(
        second.num_bytes_written,
        padded_bytes(300) - padded_bytes(45)
    );
    assert_eq!(Ok(300), manager.num_unsealed_bytes(Ok(second.contents.len() as u64)));
}

#[test]
fn truncating_inside_first_element_keeps_raw_bytes() {
    let storage = create_storage();
    let manager = storage.manager();
    let data: Vec<u8> = (0..100u32).map(|i| (i * 11 + 1) as u8).collect();
    let mut buf = manager.write_unsealed(Ok(Vec::new()), &data).unwrap().contents;
    let len = manager.truncate_unsealed(Ok(()), 31).unwrap();
    assert_eq!(31, len);
    set_len(&mut buf, len);
    assert_eq!(data[..31], buf[..]);
}

#[test]
fn opening_failures_are_caller_errors() {
    let storage = create_storage();
    let manager = storage.manager();
    let missing = "No such file or directory".to_string();
    let r = manager.num_unsealed_bytes(Err(missing.clone()));
    assert_eq!(Err(SectorManagerErr::CallerError(missing.clone())), r);
    let response = NumUnsealedBytesResponse::from_result(r);
    assert_eq!(SBResponseStatus::SBCallerError, response.status_code);
    assert_eq!(Some("caller error: No such file or directory".to_string()), response.error_msg);
    assert_eq!(0, response.num_bytes);

    let w = manager.write_unsealed(Err(missing.clone()), &vec![1, 2, 3]);
    assert_eq!(SBResponseStatus::SBCallerError, w.to_response_status());
    let t = manager.truncate_unsealed(Err(missing.clone()), 3);
    assert_eq!(Err(SectorManagerErr::CallerError(missing)), t);
}

#[test]
fn codec_failures_are_receiver_errors() {
    let storage = create_storage();
    let manager = storage.manager();
    let r = manager.num_unsealed_bytes(Ok(u64::MAX));
    assert_eq!(SBResponseStatus::SBReceiverError, r.to_response_status());
    let response = NumUnsealedBytesResponse::from_result(r);
    assert!(response.error_msg.unwrap().starts_with("receiver error: "));

    let t = manager.truncate_unsealed(Ok(()), u64::MAX);
    assert_eq!(SBResponseStatus::SBReceiverError, t.to_response_status());

    let done = manager.truncated(Err("disk full".to_string()));
    assert_eq!(Err(SectorManagerErr::ReceiverError("disk full".to_string())), done);
    let response = TruncateUnsealedResponse::from_result(done);
    assert_eq!(SBResponseStatus::SBReceiverError, response.status_code);
    assert_eq!(Some("receiver error: disk full".to_string()), response.error_msg);
}

#[test]
fn padded_prefix_cuts_or_refuses() {
    let stream: Vec<u8> = (0..64u8).collect();
    assert_eq!(Some(stream[..33].to_vec()), padded_prefix(&stream, 32));
    assert_eq!(None, padded_prefix(&stream, 100));
    assert_eq!(Some(Vec::new()), padded_prefix(&stream, 0));
}

#[test]
fn stream_codec_pads_and_unpads() {
    let raw: Vec<u8> = vec![2u8; 40];
    let padded = pad_stream(&raw);
    assert_eq!(64, padded.len());
    assert_eq!(raw[..31], padded[..31]);
    assert_eq!(2u8 & 0x3f, padded[31]);
    assert_eq!(8u8, padded[32]);
    let back = unpad_stream(&padded[..padded_bytes(40) as usize].to_vec(), 40);
    assert_eq!(raw, back);
}

#[test]
fn written_content_reads_back_as_old_raw_bytes_and_data() {
    let storage = create_storage();
    let manager = storage.manager();
    let d1: Vec<u8> = (0..70u32).map(|i| (i * 3 + 9) as u8).collect();
    let d2: Vec<u8> = (0..90u32).map(|i| (i * 5 + 1) as u8).collect();
    let first = manager.write_unsealed(Ok(Vec::new()), &d1).unwrap();
    let second = manager.write_unsealed(Ok(first.contents.clone()), &d2).unwrap();
    let mut both = d1.clone();
    both.extend_from_slice(&d2);
    assert_eq!(both, unpad_stream(&second.contents, 160));
    // all bytes of the first write but its last one are kept
    let kept = first.contents.len() - 1;
    assert_eq!(first.contents[..kept], second.contents[..kept]);
}

#[test]
fn store_refuses_writes_past_sector_capacity() {
    let storage = create_storage();
    // 128 padded bytes hold 127 raw bytes
    let full = storage.write_unsealed(Ok(Vec::new()), &vec![7u8; 127]).unwrap();
    assert_eq!(128, full.contents.len());
    assert_eq!(128, full.num_bytes_written);
    let over = storage.write_unsealed(Ok(full.contents.clone()), &vec![1u8]).unwrap();
    assert_eq!(0, over.num_bytes_written);
    assert_eq!(full.contents, over.contents);
    let too_big = storage.write_unsealed(Ok(Vec::new()), &vec![7u8; 128]).unwrap();
    assert_eq!(0, too_big.num_bytes_written);
    assert!(too_big.contents.is_empty());

    let fast = new_fast_fake_sector_store("s".to_string(), "t".to_string());
    let ok = fast.write_unsealed(Ok(Vec::new()), &vec![7u8; 500]).unwrap();
    assert_eq!(504, ok.num_bytes_written);
    let missing = fast.write_unsealed(Err("gone".to_string()), &vec![1u8]);
    assert_eq!(Some(SectorManagerErr::CallerError("gone".to_string())), missing.err());
}
