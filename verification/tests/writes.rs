use file_writer::{
    file_writer_attach, file_writer_close, file_writer_set_buffer_size, file_writer_settle,
    file_writer_write_large, file_writer_write_raw, file_writer_write_string, FileWriter,
    FileWriterError, IoStep, Operation, Outcome, Transfer, LARGE_WRITE_THRESHOLD,
};

fn open_writer() -> FileWriter {
    let mut handle: Option<FileWriter> = None;
    assert_eq!(file_writer_attach(&mut handle, true), FileWriterError::Success);
    handle.expect("the writer was attached")
}

fn open_writer_with_room(capacity: usize) -> FileWriter {
    let mut writer = open_writer();
    let transfer = file_writer_set_buffer_size(Some(&mut writer), capacity);
    assert!(transfer.steps.is_empty());
    assert_eq!(
        file_writer_settle(Some(&mut writer), transfer, Outcome::Completed),
        FileWriterError::Success
    );
    assert_eq!(writer.capacity(), capacity);
    writer
}

fn carry_out(stream: &mut Vec<u8>, transfer: &Transfer, payload: &[u8]) -> Outcome {
    for step in &transfer.steps {
        match step {
            IoStep::Drain(bytes) => stream.extend_from_slice(bytes),
            IoStep::Payload(index) => {
                assert_eq!(*index, 0);
                stream.extend_from_slice(payload);
            }
            IoStep::Sync => {}
        }
    }
    Outcome::Completed
}

fn write_raw(stream: &mut Vec<u8>, writer: &mut FileWriter, payload: &[u8]) -> FileWriterError {
    let transfer = file_writer_write_raw(Some(&mut *writer), Some(payload), payload.len());
    let outcome = carry_out(stream, &transfer, payload);
    file_writer_settle(Some(writer), transfer, outcome)
}

fn close(stream: &mut Vec<u8>, writer: FileWriter) -> FileWriterError {
    let transfer = file_writer_close(Some(writer));
    let outcome = carry_out(stream, &transfer, &[]);
    file_writer_settle(None, transfer, outcome)
}

fn pattern(len: usize, seed: u8) -> Vec<u8> {
    let mut bytes: Vec<u8> = Vec::with_capacity(len);
    let mut next: u8 = seed;
    for _ in 0..len {
        bytes.push(next);
        next = next.wrapping_mul(31).wrapping_add(7);
    }
    bytes
}

#[test]
fn raw_writes_arrive_in_call_order() {
    let mut stream: Vec<u8> = Vec::new();
    let mut writer = open_writer();
    let sizes: [usize; 9] = [1, 100, 65535, 1, 65536, 70000, 0, 3, 200000];
    let mut expected: Vec<u8> = Vec::new();
    let mut seed: u8 = 1;
    for size in sizes {
        let payload = pattern(size, seed);
        seed = seed.wrapping_add(1);
        assert_eq!(write_raw(&mut stream, &mut writer, &payload), FileWriterError::Success);
        expected.extend_from_slice(&payload);
    }
    assert_eq!(close(&mut stream, writer), FileWriterError::Success);
    assert_eq!(stream, expected);
}

#[test]
fn raw_writes_arrive_in_call_order_through_a_small_buffer() {
    let mut stream: Vec<u8> = Vec::new();
    let mut writer = open_writer_with_room(8);
    let payloads: [&[u8]; 7] = [b"ab", b"cdefg", b"h", b"i", b"jklmnopq", b"rstuvwxyz0123", b"4"];
    for payload in payloads {
        assert_eq!(write_raw(&mut stream, &mut writer, payload), FileWriterError::Success);
    }
    assert_eq!(close(&mut stream, writer), FileWriterError::Success);
    assert_eq!(stream, b"abcdefghijklmnopqrstuvwxyz01234".to_vec());
}

#[test]
fn small_payload_waits_in_the_buffer() {
    let mut writer = open_writer_with_room(8);
    let transfer = file_writer_write_raw(Some(&mut writer), Some(b"abc"), 3);
    assert_eq!(
        transfer,
        Transfer { steps: vec![], operation: Operation::Write, verdict: FileWriterError::Success }
    );
    assert_eq!(writer.buffered(), b"abc");
}

#[test]
fn payload_may_fill_the_buffer_to_the_brim() {
    let mut writer = open_writer_with_room(8);
    let transfer = file_writer_write_raw(Some(&mut writer), Some(b"abc"), 3);
    assert!(transfer.steps.is_empty());
    let transfer = file_writer_write_raw(Some(&mut writer), Some(b"defgh"), 5);
    assert!(transfer.steps.is_empty());
    assert_eq!(transfer.verdict, FileWriterError::Success);
    assert_eq!(writer.buffered(), b"abcdefgh");
}

#[test]
fn payload_without_room_drains_the_buffer_first() {
    let mut writer = open_writer_with_room(8);
    let transfer = file_writer_write_raw(Some(&mut writer), Some(b"abc"), 3);
    assert!(transfer.steps.is_empty());
    let transfer = file_writer_write_raw(Some(&mut writer), Some(b"defghi"), 6);
    assert_eq!(transfer.steps, vec![IoStep::Drain(b"abc".to_vec())]);
    assert_eq!(transfer.operation, Operation::Write);
    assert_eq!(transfer.verdict, FileWriterError::Success);
    assert_eq!(writer.buffered(), b"defghi");
}

#[test]
fn payload_as_long_as_the_buffer_goes_straight_out() {
    let mut writer = open_writer_with_room(8);
    let transfer = file_writer_write_raw(Some(&mut writer), Some(b"abcdefgh"), 8);
    assert_eq!(transfer.steps, vec![IoStep::Payload(0)]);
    assert!(writer.buffered().is_empty());
    let transfer = file_writer_write_raw(Some(&mut writer), Some(b"xy"), 2);
    assert!(transfer.steps.is_empty());
    let transfer = file_writer_write_raw(Some(&mut writer), Some(b"abcdefghi"), 9);
    assert_eq!(transfer.steps, vec![IoStep::Drain(b"xy".to_vec()), IoStep::Payload(0)]);
    assert!(writer.buffered().is_empty());
}

#[test]
fn raw_write_takes_the_first_bytes_only() {
    let mut stream: Vec<u8> = Vec::new();
    let mut writer = open_writer_with_room(8);
    let transfer = file_writer_write_raw(Some(&mut writer), Some(b"abcdef"), 4);
    assert!(transfer.steps.is_empty());
    assert_eq!(writer.buffered(), b"abcd");
    assert_eq!(close(&mut stream, writer), FileWriterError::Success);
    assert_eq!(stream, b"abcd".to_vec());
}

#[test]
fn empty_write_succeeds_whatever_the_handle() {
    let empty =
        Transfer { steps: vec![], operation: Operation::Write, verdict: FileWriterError::Success };
    assert_eq!(file_writer_write_raw(None, None, 0), empty);
    assert_eq!(file_writer_write_raw(None, Some(b"abc"), 0), empty);
    assert_eq!(file_writer_write_large(None, None, 0), empty);
    let mut writer = open_writer_with_room(8);
    let transfer = file_writer_write_raw(Some(&mut writer), Some(b"abc"), 3);
    assert!(transfer.steps.is_empty());
    assert_eq!(file_writer_write_raw(Some(&mut writer), Some(b"xyz"), 0), empty);
    assert_eq!(file_writer_write_raw(Some(&mut writer), None, 0), empty);
    assert_eq!(file_writer_write_large(Some(&mut writer), Some(b"xyz"), 0), empty);
    assert_eq!(writer.buffered(), b"abc");
    assert_eq!(
        file_writer_settle(Some(&mut writer), empty, Outcome::Completed),
        FileWriterError::Success
    );
    assert_eq!(writer.buffered(), b"abc");
    assert!(writer.is_valid());
}

#[test]
fn unset_data_with_a_size_is_invalid() {
    let refused = Transfer {
        steps: vec![],
        operation: Operation::Write,
        verdict: FileWriterError::InvalidData,
    };
    assert_eq!(file_writer_write_raw(None, None, 5), refused);
    assert_eq!(file_writer_write_large(None, None, 5), refused);
    assert_eq!(file_writer_write_large(None, None, 2000000), refused);
    let mut writer = open_writer_with_room(8);
    let transfer = file_writer_write_raw(Some(&mut writer), Some(b"abc"), 3);
    assert!(transfer.steps.is_empty());
    assert_eq!(file_writer_write_raw(Some(&mut writer), None, 5), refused);
    assert_eq!(file_writer_write_large(Some(&mut writer), None, 2000000), refused);
    assert_eq!(writer.buffered(), b"abc");
    assert_eq!(
        file_writer_settle(Some(&mut writer), refused, Outcome::Completed),
        FileWriterError::InvalidData
    );
    assert_eq!(writer.buffered(), b"abc");
}

#[test]
fn unset_handle_is_invalid() {
    let refused = Transfer {
        steps: vec![],
        operation: Operation::Write,
        verdict: FileWriterError::InvalidHandle,
    };
    assert_eq!(file_writer_write_raw(None, Some(b"abc"), 3), refused);
    assert_eq!(file_writer_write_large(None, Some(b"abc"), 3), refused);
    assert_eq!(file_writer_write_string(None, Some(b"abc\0")), refused);
    assert_eq!(
        file_writer_settle(None, refused, Outcome::Completed),
        FileWriterError::InvalidHandle
    );
}

#[test]
fn string_write_stops_at_the_terminator() {
    let mut stream: Vec<u8> = Vec::new();
    let mut writer = open_writer();
    let transfer = file_writer_write_string(Some(&mut writer), Some(b"hello\0world"));
    assert!(transfer.steps.is_empty());
    assert_eq!(transfer.verdict, FileWriterError::Success);
    assert_eq!(writer.buffered(), b"hello");
    let transfer = file_writer_write_string(Some(&mut writer), Some(b", there"));
    assert!(transfer.steps.is_empty());
    assert_eq!(writer.buffered(), b"hello, there");
    assert_eq!(close(&mut stream, writer), FileWriterError::Success);
    assert_eq!(stream, b"hello, there".to_vec());
}

#[test]
fn string_write_takes_bytes_that_are_no_text() {
    let mut writer = open_writer();
    let transfer = file_writer_write_string(Some(&mut writer), Some(b"\xff\xfe\x01\0"));
    assert_eq!(transfer.verdict, FileWriterError::Success);
    assert_eq!(writer.buffered(), b"\xff\xfe\x01");
}

#[test]
fn empty_string_leaves_no_trace() {
    let mut writer = open_writer_with_room(4);
    let transfer = file_writer_write_raw(Some(&mut writer), Some(b"full"), 4);
    assert_eq!(transfer.steps, vec![IoStep::Payload(0)]);
    let transfer = file_writer_write_raw(Some(&mut writer), Some(b"abc"), 3);
    assert!(transfer.steps.is_empty());
    let transfer = file_writer_write_string(Some(&mut writer), Some(b"\0"));
    assert_eq!(
        transfer,
        Transfer { steps: vec![], operation: Operation::Write, verdict: FileWriterError::Success }
    );
    assert_eq!(writer.buffered(), b"abc");
}

#[test]
fn unset_string_is_invalid() {
    let mut writer = open_writer();
    let transfer = file_writer_write_string(Some(&mut writer), None);
    assert_eq!(
        transfer,
        Transfer {
            steps: vec![],
            operation: Operation::Write,
            verdict: FileWriterError::InvalidData
        }
    );
    assert_eq!(file_writer_write_string(None, None).verdict, FileWriterError::InvalidData);
    assert!(writer.buffered().is_empty());
}

#[test]
fn long_string_drains_the_buffer_like_a_raw_write() {
    let mut writer = open_writer_with_room(8);
    let transfer = file_writer_write_string(Some(&mut writer), Some(b"abcde\0"));
    assert!(transfer.steps.is_empty());
    let transfer = file_writer_write_string(Some(&mut writer), Some(b"fghij\0"));
    assert_eq!(transfer.steps, vec![IoStep::Drain(b"abcde".to_vec())]);
    assert_eq!(writer.buffered(), b"fghij");
}

#[test]
fn large_write_threshold_is_one_mebibyte() {
    assert_eq!(LARGE_WRITE_THRESHOLD, 1048576);
}

#[test]
fn large_write_past_the_threshold_bypasses_the_buffer() {
    let mut stream: Vec<u8> = Vec::new();
    let mut writer = open_writer();
    let earlier = pattern(1000, 3);
    assert_eq!(write_raw(&mut stream, &mut writer, &earlier), FileWriterError::Success);
    assert!(stream.is_empty());
    assert_eq!(writer.buffered(), &earlier[..]);

    let payload = pattern(1048577, 9);
    let transfer = file_writer_write_large(Some(&mut writer), Some(&payload), 1048577);
    assert_eq!(
        transfer.steps,
        vec![IoStep::Drain(earlier.clone()), IoStep::Sync, IoStep::Payload(0)]
    );
    assert_eq!(transfer.operation, Operation::Write);
    assert_eq!(transfer.verdict, FileWriterError::Success);
    assert!(writer.buffered().is_empty());
    let outcome = carry_out(&mut stream, &transfer, &payload);
    assert_eq!(file_writer_settle(Some(&mut writer), transfer, outcome), FileWriterError::Success);

    let mut expected = earlier.clone();
    expected.extend_from_slice(&payload);
    assert_eq!(stream, expected);
    assert_eq!(close(&mut stream, writer), FileWriterError::Success);
    assert_eq!(stream, expected);
}

#[test]
fn large_write_with_an_empty_buffer_has_nothing_to_drain() {
    let mut writer = open_writer();
    let payload = pattern(1048577, 1);
    let transfer = file_writer_write_large(Some(&mut writer), Some(&payload), 1048577);
    assert_eq!(transfer.steps, vec![IoStep::Sync, IoStep::Payload(0)]);
}

#[test]
fn large_write_at_the_threshold_is_a_raw_write() {
    let mut writer = open_writer();
    let earlier = pattern(10, 3);
    let transfer = file_writer_write_large(Some(&mut writer), Some(&earlier), 10);
    assert!(transfer.steps.is_empty());
    assert_eq!(writer.buffered(), &earlier[..]);
    let payload = pattern(1048576, 5);
    let transfer = file_writer_write_large(Some(&mut writer), Some(&payload), 1048576);
    assert_eq!(transfer.steps, vec![IoStep::Drain(earlier), IoStep::Payload(0)]);
    assert!(writer.buffered().is_empty());
}

#[test]
fn large_write_of_few_bytes_waits_in_the_buffer() {
    let mut stream: Vec<u8> = Vec::new();
    let mut writer = open_writer();
    let transfer = file_writer_write_large(Some(&mut writer), Some(b"abcdef"), 6);
    assert!(transfer.steps.is_empty());
    assert_eq!(writer.buffered(), b"abcdef");
    assert_eq!(close(&mut stream, writer), FileWriterError::Success);
    assert_eq!(stream, b"abcdef".to_vec());
}

#[test]
fn data_shorter_than_its_size_is_invalid() {
    let refused = Transfer {
        steps: vec![],
        operation: Operation::Write,
        verdict: FileWriterError::InvalidData,
    };
    let mut writer = open_writer_with_room(8);
    let transfer = file_writer_write_raw(Some(&mut writer), Some(b"abc"), 3);
    assert!(transfer.steps.is_empty());
    assert_eq!(file_writer_write_raw(Some(&mut writer), Some(b"xyz"), 4), refused);
    assert_eq!(file_writer_write_raw(Some(&mut writer), Some(b""), 1), refused);
    assert_eq!(file_writer_write_large(Some(&mut writer), Some(b"xyz"), 2000000), refused);
    assert_eq!(file_writer_write_raw(None, Some(b"xyz"), 4), refused);
    assert_eq!(writer.buffered(), b"abc");
    assert!(writer.is_valid());
}

#[test]
fn empty_string_succeeds_whatever_the_handle() {
    let empty =
        Transfer { steps: vec![], operation: Operation::Write, verdict: FileWriterError::Success };
    assert_eq!(file_writer_write_string(None, Some(b"\0")), empty);
    assert_eq!(file_writer_write_string(None, Some(b"")), empty);
    assert_eq!(file_writer_write_string(None, Some(b"\0abc")), empty);
    assert_eq!(file_writer_settle(None, empty, Outcome::Completed), FileWriterError::Success);

    let mut writer = open_writer_with_room(8);
    let transfer = file_writer_write_raw(Some(&mut writer), Some(b"abc"), 3);
    assert!(transfer.steps.is_empty());
    let transfer = file_writer_set_buffer_size(Some(&mut writer), 16);
    let status =
        file_writer_settle(Some(&mut writer), transfer, Outcome::Failed { step: 0, written: 0 });
    assert_eq!(status, FileWriterError::FileCloseError);
    assert!(!writer.is_valid());
    let transfer = file_writer_write_string(Some(&mut writer), Some(b"\0"));
    assert!(transfer.steps.is_empty());
    assert_eq!(transfer.verdict, FileWriterError::Success);
    assert_eq!(
        file_writer_settle(Some(&mut writer), transfer, Outcome::Completed),
        FileWriterError::Success
    );
    assert!(!writer.is_valid());
    assert!(writer.buffered().is_empty());
    let transfer = file_writer_write_string(Some(&mut writer), Some(b"x\0"));
    assert_eq!(transfer.verdict, FileWriterError::InvalidHandle);
}
