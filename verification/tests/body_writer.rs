use bytes::Bytes;
use conjure_runtime::body_writer::BodyPart;
use conjure_runtime::body_writer::BodyWriter;
use conjure_runtime::body_writer::WriteError;
use conjure_runtime::body_writer::FLUSH_THRESHOLD;
use conjure_runtime::progress::Progress;
use futures::channel::mpsc;
use std::task::Context;

fn drain(receiver: &mut mpsc::Receiver<BodyPart>) -> Vec<Option<Vec<u8>>> {
    let mut seen = Vec::new();
    while let Ok(part) = receiver.try_recv() {
        match part {
            BodyPart::Chunk(bytes) => seen.push(Some(bytes.to_vec())),
            BodyPart::Done => seen.push(None),
        }
    }
    seen
}

fn lengths(parts: &[Option<Vec<u8>>]) -> Vec<Option<usize>> {
    parts.iter().map(|p| p.as_ref().map(|b| b.len())).collect()
}

#[test]
fn ten_thousand_bytes_in_flushed_writes_give_three_chunks_and_the_marker() {
    let (sender, mut receiver) = mpsc::channel::<BodyPart>(8);
    let mut writer = BodyWriter::new(sender);
    let mut cx = Context::from_waker(futures::task::noop_waker_ref());
    let data: Vec<u8> = (0..10000u32).map(|i| (i % 251) as u8).collect();
    for piece in data.chunks(4096) {
        assert!(matches!(writer.poll_write(&mut cx, piece), Progress::Ready(Ok(n)) if n == piece.len()));
        assert_eq!(writer.buffered_len(), piece.len());
        assert!(matches!(writer.poll_flush(&mut cx), Progress::Ready(Ok(()))));
        assert_eq!(writer.buffered_len(), 0);
    }
    assert!(!writer.finished());
    assert!(matches!(writer.finish(&mut cx), Progress::Ready(Ok(()))));
    assert!(writer.finished());
    let parts = drain(&mut receiver);
    assert_eq!(lengths(&parts), vec![Some(4096), Some(4096), Some(1808), None]);
    let mut joined = Vec::new();
    for part in parts.iter().flatten() {
        joined.extend_from_slice(part);
    }
    assert_eq!(joined, data);
}

#[test]
fn ten_thousand_bytes_as_ready_chunks_give_three_chunks_and_the_marker() {
    let (sender, mut receiver) = mpsc::channel::<BodyPart>(8);
    let mut writer = BodyWriter::new(sender);
    let mut cx = Context::from_waker(futures::task::noop_waker_ref());
    let data = vec![5u8; 10000];
    for piece in data.chunks(4096) {
        let mut slot = Some(Bytes::copy_from_slice(piece));
        assert!(matches!(writer.write_bytes(&mut cx, &mut slot), Progress::Ready(Ok(()))));
        assert!(slot.is_none());
    }
    assert!(matches!(writer.finish(&mut cx), Progress::Ready(Ok(()))));
    assert_eq!(lengths(&drain(&mut receiver)), vec![Some(4096), Some(4096), Some(1808), None]);
}

#[test]
fn a_write_flushes_only_a_buffer_above_the_threshold() {
    assert_eq!(FLUSH_THRESHOLD, 4096);
    let (sender, mut receiver) = mpsc::channel::<BodyPart>(8);
    let mut writer = BodyWriter::new(sender);
    let mut cx = Context::from_waker(futures::task::noop_waker_ref());
    assert!(matches!(writer.poll_write(&mut cx, &[1u8; 4096]), Progress::Ready(Ok(4096))));
    assert!(matches!(writer.poll_write(&mut cx, &[2u8; 1]), Progress::Ready(Ok(1))));
    assert_eq!(writer.buffered_len(), 4097);
    assert!(drain(&mut receiver).is_empty());
    assert!(matches!(writer.poll_write(&mut cx, &[3u8; 10]), Progress::Ready(Ok(10))));
    assert_eq!(writer.buffered_len(), 10);
    assert_eq!(lengths(&drain(&mut receiver)), vec![Some(4097)]);
    assert!(matches!(writer.finish(&mut cx), Progress::Ready(Ok(()))));
    assert_eq!(drain(&mut receiver), vec![Some(vec![3u8; 10]), None]);
}

#[test]
fn small_writes_leave_as_one_chunk_in_the_order_written() {
    let (sender, mut receiver) = mpsc::channel::<BodyPart>(8);
    let mut writer = BodyWriter::new(sender);
    let mut cx = Context::from_waker(futures::task::noop_waker_ref());
    assert!(matches!(writer.poll_write(&mut cx, b"hello"), Progress::Ready(Ok(5))));
    assert!(matches!(writer.poll_write(&mut cx, b" "), Progress::Ready(Ok(1))));
    assert!(matches!(writer.poll_write(&mut cx, b"world"), Progress::Ready(Ok(5))));
    assert!(drain(&mut receiver).is_empty());
    let mut slot = Some(Bytes::from_static(b"!"));
    assert!(matches!(writer.write_bytes(&mut cx, &mut slot), Progress::Ready(Ok(()))));
    assert_eq!(
        drain(&mut receiver),
        vec![Some(b"hello world".to_vec()), Some(b"!".to_vec())]
    );
    assert!(matches!(writer.poll_shutdown(&mut cx), Progress::Ready(Ok(()))));
    assert!(matches!(writer.finish(&mut cx), Progress::Ready(Ok(()))));
    assert_eq!(drain(&mut receiver), vec![None]);
}

#[test]
fn flushing_an_empty_buffer_sends_nothing() {
    let (sender, mut receiver) = mpsc::channel::<BodyPart>(8);
    let mut writer = BodyWriter::new(sender);
    let mut cx = Context::from_waker(futures::task::noop_waker_ref());
    assert!(matches!(writer.poll_flush(&mut cx), Progress::Ready(Ok(()))));
    assert!(drain(&mut receiver).is_empty());
    assert!(matches!(writer.finish(&mut cx), Progress::Ready(Ok(()))));
    assert_eq!(drain(&mut receiver), vec![None]);
}

#[test]
fn a_finished_writer_refuses_writes_and_sends_one_marker() {
    let (sender, mut receiver) = mpsc::channel::<BodyPart>(8);
    let mut writer = BodyWriter::new(sender);
    let mut cx = Context::from_waker(futures::task::noop_waker_ref());
    assert!(matches!(writer.finish(&mut cx), Progress::Ready(Ok(()))));
    assert!(matches!(writer.finish(&mut cx), Progress::Ready(Ok(()))));
    assert!(matches!(
        writer.poll_write(&mut cx, b"late"),
        Progress::Ready(Err(WriteError::Finished))
    ));
    let mut slot = Some(Bytes::from_static(b"late"));
    assert!(matches!(
        writer.write_bytes(&mut cx, &mut slot),
        Progress::Ready(Err(WriteError::Finished))
    ));
    assert_eq!(slot, Some(Bytes::from_static(b"late")));
    assert_eq!(drain(&mut receiver), vec![None]);
}

#[test]
fn a_dropped_receiver_fails_the_producer() {
    let (sender, receiver) = mpsc::channel::<BodyPart>(8);
    let mut writer = BodyWriter::new(sender);
    let mut cx = Context::from_waker(futures::task::noop_waker_ref());
    assert!(matches!(writer.poll_write(&mut cx, b"data"), Progress::Ready(Ok(4))));
    drop(receiver);
    assert!(matches!(
        writer.poll_flush(&mut cx),
        Progress::Ready(Err(WriteError::Closed(_)))
    ));
    let mut slot = Some(Bytes::from_static(b"more"));
    assert!(matches!(
        writer.write_bytes(&mut cx, &mut slot),
        Progress::Ready(Err(WriteError::Closed(_)))
    ));
    assert!(matches!(
        writer.finish(&mut cx),
        Progress::Ready(Err(WriteError::Closed(_)))
    ));
}

#[test]
fn a_full_channel_makes_the_producer_wait() {
    let (sender, mut receiver) = mpsc::channel::<BodyPart>(0);
    let mut writer = BodyWriter::new(sender);
    let mut cx = Context::from_waker(futures::task::noop_waker_ref());
    let mut first = Some(Bytes::from_static(b"one"));
    assert!(matches!(writer.write_bytes(&mut cx, &mut first), Progress::Pending));
    assert!(first.is_none());
    let mut second = Some(Bytes::from_static(b"two"));
    assert!(matches!(writer.write_bytes(&mut cx, &mut second), Progress::Pending));
    assert_eq!(second, Some(Bytes::from_static(b"two")));
    assert_eq!(drain(&mut receiver), vec![Some(b"one".to_vec())]);
    assert!(matches!(writer.write_bytes(&mut cx, &mut second), Progress::Pending));
    assert!(second.is_none());
    assert_eq!(drain(&mut receiver), vec![Some(b"two".to_vec())]);
    assert!(matches!(writer.write_bytes(&mut cx, &mut second), Progress::Ready(Ok(()))));
}

#[test]
fn a_receiver_that_is_gone_counts_as_drained() {
    let (sender, receiver) = mpsc::channel::<BodyPart>(8);
    let mut writer = BodyWriter::new(sender);
    let mut cx = Context::from_waker(futures::task::noop_waker_ref());
    assert!(matches!(writer.finish(&mut cx), Progress::Ready(Ok(()))));
    drop(receiver);
    assert!(matches!(writer.finish(&mut cx), Progress::Ready(Ok(()))));
    let mut slot: Option<Bytes> = None;
    assert!(matches!(writer.write_bytes(&mut cx, &mut slot), Progress::Ready(Ok(()))));
    assert!(writer.finished());
}

#[test]
fn a_receiver_gone_before_the_end_fails_the_end() {
    let (sender, receiver) = mpsc::channel::<BodyPart>(8);
    let mut writer = BodyWriter::new(sender);
    let mut cx = Context::from_waker(futures::task::noop_waker_ref());
    drop(receiver);
    assert!(matches!(
        writer.finish(&mut cx),
        Progress::Ready(Err(WriteError::Closed(_)))
    ));
    assert!(!writer.finished());
    let mut slot = Some(Bytes::from_static(b"chunk"));
    assert!(matches!(
        writer.write_bytes(&mut cx, &mut slot),
        Progress::Ready(Err(WriteError::Closed(_)))
    ));
    assert_eq!(writer.buffered_len(), 0);
    assert!(!writer.finished());
}
