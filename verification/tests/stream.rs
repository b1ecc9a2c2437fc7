use osm_sound_demo::stream::{
    channel, Arrival, PumpStep, ReadStep, SeekError, SeekFrom, Shared, StreamingRead,
    StreamingWrite, Wait, MAX_BYTES, READ_TIMEOUT_NANOS, READ_TIMEOUT_SECONDS,
};

/// Feeds every piece of a body and then its end, as far as the writer wants it.
fn feed(shared: &mut Shared, writer: &StreamingWrite, pieces: &[&[u8]]) -> usize {
    let mut fed = 0;
    for piece in pieces {
        if writer.pump(shared, Arrival::Chunk(piece.to_vec())) == PumpStep::Stop {
            return fed;
        }
        fed += 1;
    }
    assert_eq!(writer.pump(shared, Arrival::Chunk(Vec::new())), PumpStep::Stop);
    fed
}

/// Reads until the stream says anything but bytes.
fn read_to_end(shared: &Shared, reader: &mut StreamingRead, room: usize) -> (Vec<u8>, ReadStep) {
    let mut all = Vec::new();
    loop {
        match reader.read(shared, room, 0) {
            ReadStep::Bytes(bytes) => all.extend(bytes),
            other => return (all, other),
        }
    }
}

fn read_exact(shared: &Shared, reader: &mut StreamingRead, room: usize) -> Vec<u8> {
    match reader.read(shared, room, 0) {
        ReadStep::Bytes(bytes) => bytes,
        _ => panic!("nothing to read"),
    }
}

#[test]
fn a_read_returns_what_has_arrived_so_far() {
    let (mut shared, mut reader, writer) = channel(Some(6));
    feed(&mut shared, &writer, &[b"abcdef"]);

    let (all, end) = read_to_end(&shared, &mut reader, 4);
    assert!(matches!(end, ReadStep::End));
    assert_eq!(all, b"abcdef");
    assert_eq!(reader.byte_len(&shared), Some(6));
    assert_eq!(reader.buffered(&shared), 6);
}

#[test]
fn a_read_past_the_write_head_waits_for_the_downloader() {
    let (mut shared, mut reader, writer) = channel(None);
    assert!(matches!(reader.read(&shared, 64, 0), ReadStep::Blocked(READ_TIMEOUT_NANOS)));
    writer.pump(&mut shared, Arrival::Chunk(b"first".to_vec()));
    let (mut all, head) = read_to_end(&shared, &mut reader, 64);
    assert!(matches!(head, ReadStep::Blocked(READ_TIMEOUT_NANOS)));
    assert_eq!(all, b"first");

    // The second half only arrives after the reader has had to wait.
    assert!(matches!(
        reader.read(&shared, 64, 30_000_000),
        ReadStep::Blocked(9_970_000_000)
    ));
    writer.pump(&mut shared, Arrival::Chunk(b"second".to_vec()));
    writer.pump(&mut shared, Arrival::Chunk(Vec::new()));
    let (rest, end) = read_to_end(&shared, &mut reader, 64);
    all.extend(rest);
    assert!(matches!(end, ReadStep::End));
    assert_eq!(all, b"firstsecond");
}

#[test]
fn seeking_backwards_rereads_buffered_bytes() {
    let (mut shared, mut reader, writer) = channel(Some(6));
    feed(&mut shared, &writer, &[b"abcdef"]);
    assert!(matches!(reader.wait_for(&shared, 6), Wait::Ready));

    assert_eq!(read_exact(&shared, &mut reader, 3), b"abc");

    // A decoder rewinds over the start while identifying the stream.
    assert_eq!(reader.seek(&shared, SeekFrom::Start(1)), Ok(1));
    assert_eq!(read_exact(&shared, &mut reader, 3), b"bcd");

    // And relative to the end, which needs the declared length.
    assert_eq!(reader.seek(&shared, SeekFrom::End(-2)), Ok(4));
    assert_eq!(read_exact(&shared, &mut reader, 2), b"ef");
}

#[test]
fn seeking_from_the_end_of_an_unsized_stream_is_refused_until_it_ends() {
    let (mut shared, mut reader, writer) = channel(None);
    assert!(reader.seek(&shared, SeekFrom::End(0)).is_err());

    feed(&mut shared, &writer, &[b"abcd"]);
    // Once the body has ended its length is known after all.
    assert_eq!(reader.seek(&shared, SeekFrom::End(0)), Ok(4));
}

#[test]
fn a_failed_download_surfaces_as_a_read_error() {
    let (mut shared, mut reader, writer) = channel(None);
    let step = writer.pump(&mut shared, Arrival::Failed("no carrier".to_owned()));
    assert_eq!(step, PumpStep::Stop);

    match reader.read(&shared, 16, 0) {
        ReadStep::Failed(error) => assert!(error.contains("no carrier"), "{error}"),
        _ => panic!("the read did not fail"),
    }
    match reader.wait_for(&shared, 1) {
        Wait::Failed(error) => assert_eq!(error, "no carrier"),
        _ => panic!("the wait did not fail"),
    }
}

#[test]
fn dropping_the_reader_stops_the_download() {
    let (mut shared, reader, writer) = channel(None);
    let step = writer.pump(&mut shared, Arrival::Chunk(vec![0; 16]));
    assert_eq!(step, PumpStep::Continue);

    reader.close(&mut shared);
    let step = writer.pump(&mut shared, Arrival::Chunk(vec![0; 16]));
    assert_eq!(step, PumpStep::Stop);
    assert_eq!(shared.bytes.len(), 16);
}

#[test]
fn waiting_for_more_than_the_body_holds_returns_when_it_ends() {
    let (mut shared, reader, writer) = channel(None);
    writer.pump(&mut shared, Arrival::Chunk(b"short".to_vec()));
    assert!(matches!(reader.wait_for(&shared, 1024), Wait::Blocked));
    assert!(matches!(reader.wait_for(&shared, 5), Wait::Ready));
    writer.pump(&mut shared, Arrival::Chunk(Vec::new()));
    assert!(matches!(reader.wait_for(&shared, 1024), Wait::Ready));
}

#[test]
fn a_stalled_download_ends_the_track_instead_of_blocking_the_audio_thread() {
    let (shared, mut reader, _writer) = channel(None);
    assert!(matches!(reader.read(&shared, 16, 0), ReadStep::Blocked(READ_TIMEOUT_NANOS)));
    assert_eq!(READ_TIMEOUT_SECONDS, 10);
    let waited = READ_TIMEOUT_SECONDS * 1_000_000_000;
    assert!(matches!(
        reader.read(&shared, 16, waited - 1),
        ReadStep::Blocked(1)
    ));
    assert!(matches!(reader.read(&shared, 16, waited), ReadStep::Stalled));
    assert_eq!(reader.position, 0);
}

#[test]
fn a_buffer_that_changes_without_a_byte_to_read_buys_no_time() {
    let (mut shared, mut reader, writer) = channel(None);
    assert_eq!(reader.seek(&shared, SeekFrom::Start(100)), Ok(100));
    let mut waited = 0;
    for _ in 0..4 {
        let left = match reader.read(&shared, 16, waited) {
            ReadStep::Blocked(left) => left,
            _ => panic!("the read did not wait"),
        };
        assert_eq!(waited + left, READ_TIMEOUT_NANOS);
        // Something arrives, but nothing that this read is after.
        writer.pump(&mut shared, Arrival::Chunk(vec![0; 16]));
        waited += 2_500_000_000;
    }
    assert!(matches!(reader.read(&shared, 16, waited), ReadStep::Stalled));
    assert_eq!(reader.position, 100);

    // A byte that has arrived after all is still handed over.
    writer.pump(&mut shared, Arrival::Chunk(vec![9; 40]));
    assert!(matches!(reader.read(&shared, 16, waited), ReadStep::Bytes(bytes) if bytes == [9; 4]));
}

#[test]
fn buffered_bytes_come_before_a_failure() {
    let (mut shared, mut reader, writer) = channel(None);
    writer.pump(&mut shared, Arrival::Chunk(b"ab".to_vec()));
    writer.pump(&mut shared, Arrival::Failed("reset".to_owned()));
    let (all, end) = read_to_end(&shared, &mut reader, 16);
    assert_eq!(all, b"ab");
    assert!(matches!(end, ReadStep::Failed(error) if error == "reset"));
}

#[test]
fn an_interruption_is_no_failure() {
    let (mut shared, _reader, writer) = channel(None);
    assert_eq!(
        writer.pump(&mut shared, Arrival::Interrupted),
        PumpStep::Continue
    );
    assert!(!shared.finished);
    assert_eq!(shared.failure, None);
}

#[test]
fn a_read_without_room_is_no_wait() {
    let (shared, mut reader, _writer) = channel(None);
    match reader.read(&shared, 0, 0) {
        ReadStep::Bytes(bytes) => assert!(bytes.is_empty()),
        _ => panic!("an empty read waited"),
    }
}

#[test]
fn the_first_failure_is_the_one_that_is_kept() {
    let (mut shared, _reader, writer) = channel(None);
    writer.pump(&mut shared, Arrival::Failed("first".to_owned()));
    writer.pump(&mut shared, Arrival::Failed("second".to_owned()));
    writer.close(&mut shared);
    assert_eq!(shared.failure.as_deref(), Some("first"));
}

#[test]
fn closing_the_writer_ends_the_body() {
    let (mut shared, mut reader, writer) = channel(Some(10));
    assert!(matches!(reader.read(&shared, 4, 0), ReadStep::Blocked(READ_TIMEOUT_NANOS)));
    writer.close(&mut shared);
    assert!(matches!(reader.read(&shared, 4, 0), ReadStep::End));
}

#[test]
fn a_track_that_would_pass_the_ceiling_fails() {
    let (mut shared, mut reader, writer) = channel(None);
    let step = writer.pump(&mut shared, Arrival::Chunk(vec![7; MAX_BYTES]));
    assert_eq!(step, PumpStep::Continue);
    let step = writer.pump(&mut shared, Arrival::Chunk(vec![7]));
    assert_eq!(step, PumpStep::Stop);
    assert_eq!(shared.bytes.len(), 96 * 1024 * 1024);
    assert_eq!(reader.seek(&shared, SeekFrom::End(0)), Ok(MAX_BYTES as u64));
    match reader.read(&shared, 1, 0) {
        ReadStep::Failed(error) => {
            assert_eq!(error, "the track is larger than 100663296 bytes")
        }
        _ => panic!("the read did not fail"),
    }
}

#[test]
fn the_cursor_stays_put_when_a_seek_is_refused() {
    let (mut shared, mut reader, writer) = channel(None);
    writer.pump(&mut shared, Arrival::Chunk(b"abcdef".to_vec()));
    assert_eq!(reader.seek(&shared, SeekFrom::Start(2)), Ok(2));
    assert_eq!(
        reader.seek(&shared, SeekFrom::Current(-3)),
        Err(SeekError::BeforeStart)
    );
    assert_eq!(
        reader.seek(&shared, SeekFrom::End(0)),
        Err(SeekError::UnknownLength)
    );
    assert_eq!(
        reader.seek(&shared, SeekFrom::Start(u64::MAX)),
        Err(SeekError::BeforeStart)
    );
    assert_eq!(reader.seek(&shared, SeekFrom::Current(1)), Ok(3));
    assert_eq!(read_exact(&shared, &mut reader, 2), b"de");
}

#[test]
fn seek_errors_say_what_is_wrong() {
    assert_eq!(
        SeekError::UnknownLength.message(),
        "cannot seek from the end of a stream of unknown length"
    );
    assert_eq!(
        SeekError::BeforeStart.message(),
        "cannot seek before the start of the stream"
    );
}

#[test]
fn interleaved_reads_and_arrivals_lose_nothing() {
    let (mut shared, mut reader, writer) = channel(None);
    let body: Vec<u8> = (0..200u8).collect();
    let mut got = Vec::new();
    for (turn, piece) in body.chunks(7).enumerate() {
        writer.pump(&mut shared, Arrival::Chunk(piece.to_vec()));
        if let ReadStep::Bytes(bytes) = reader.read(&shared, 1 + turn % 9, 0) {
            got.extend(bytes);
        }
    }
    let (rest, _) = read_to_end(&shared, &mut reader, 5);
    got.extend(rest);
    assert_eq!(got, body);
}
