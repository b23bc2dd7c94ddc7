use futures::io::{AsyncWrite, AsyncWriteExt, Cursor};
use partial_io::{ErrorKind, PartialAsyncWrite, PartialOp, Polled};
use std::cell::Cell;
use std::io;
use std::pin::Pin;
use std::sync::atomic::{AtomicUsize, Ordering};
use std::sync::Arc;
use std::task::{Context, Poll, Wake, Waker};

fn to_std(kind: ErrorKind) -> io::ErrorKind {
    match kind {
        ErrorKind::NotFound => io::ErrorKind::NotFound,
        ErrorKind::PermissionDenied => io::ErrorKind::PermissionDenied,
        ErrorKind::ConnectionRefused => io::ErrorKind::ConnectionRefused,
        ErrorKind::ConnectionReset => io::ErrorKind::ConnectionReset,
        ErrorKind::HostUnreachable => io::ErrorKind::HostUnreachable,
        ErrorKind::NetworkUnreachable => io::ErrorKind::NetworkUnreachable,
        ErrorKind::ConnectionAborted => io::ErrorKind::ConnectionAborted,
        ErrorKind::NotConnected => io::ErrorKind::NotConnected,
        ErrorKind::AddrInUse => io::ErrorKind::AddrInUse,
        ErrorKind::AddrNotAvailable => io::ErrorKind::AddrNotAvailable,
        ErrorKind::NetworkDown => io::ErrorKind::NetworkDown,
        ErrorKind::BrokenPipe => io::ErrorKind::BrokenPipe,
        ErrorKind::AlreadyExists => io::ErrorKind::AlreadyExists,
        ErrorKind::WouldBlock => io::ErrorKind::WouldBlock,
        ErrorKind::NotADirectory => io::ErrorKind::NotADirectory,
        ErrorKind::IsADirectory => io::ErrorKind::IsADirectory,
        ErrorKind::DirectoryNotEmpty => io::ErrorKind::DirectoryNotEmpty,
        ErrorKind::ReadOnlyFilesystem => io::ErrorKind::ReadOnlyFilesystem,
        ErrorKind::StaleNetworkFileHandle => io::ErrorKind::StaleNetworkFileHandle,
        ErrorKind::InvalidInput => io::ErrorKind::InvalidInput,
        ErrorKind::InvalidData => io::ErrorKind::InvalidData,
        ErrorKind::TimedOut => io::ErrorKind::TimedOut,
        ErrorKind::WriteZero => io::ErrorKind::WriteZero,
        ErrorKind::StorageFull => io::ErrorKind::StorageFull,
        ErrorKind::NotSeekable => io::ErrorKind::NotSeekable,
        ErrorKind::QuotaExceeded => io::ErrorKind::QuotaExceeded,
        ErrorKind::FileTooLarge => io::ErrorKind::FileTooLarge,
        ErrorKind::ResourceBusy => io::ErrorKind::ResourceBusy,
        ErrorKind::ExecutableFileBusy => io::ErrorKind::ExecutableFileBusy,
        ErrorKind::Deadlock => io::ErrorKind::Deadlock,
        ErrorKind::CrossesDevices => io::ErrorKind::CrossesDevices,
        ErrorKind::TooManyLinks => io::ErrorKind::TooManyLinks,
        ErrorKind::InvalidFilename => io::ErrorKind::InvalidFilename,
        ErrorKind::ArgumentListTooLong => io::ErrorKind::ArgumentListTooLong,
        ErrorKind::Interrupted => io::ErrorKind::Interrupted,
        ErrorKind::Unsupported => io::ErrorKind::Unsupported,
        ErrorKind::UnexpectedEof => io::ErrorKind::UnexpectedEof,
        ErrorKind::OutOfMemory => io::ErrorKind::OutOfMemory,
        ErrorKind::Other => io::ErrorKind::Other,
    }
}

/// Counts how often the task was woken.
struct Wakes(AtomicUsize);

impl Wake for Wakes {
    fn wake(self: Arc<Self>) {
        self.0.fetch_add(1, Ordering::SeqCst);
    }
}

/// A poll-based writer around the adapter: it lends the adapter the calls
/// to make and turns the adapter's answer into that of a poll.
struct Driven(PartialAsyncWrite<Cursor<Vec<u8>>>);

impl Driven {
    fn new(ops: Vec<PartialOp>) -> Self {
        Driven(PartialAsyncWrite::new(Cursor::new(Vec::new()), ops))
    }

    fn written(&self) -> &[u8] {
        self.0.get_ref().get_ref()
    }
}

fn settle<T>(polled: Polled<Poll<io::Result<T>>>, what: &'static str) -> Poll<io::Result<T>> {
    match polled {
        Polled::Inner(answer) => answer,
        Polled::Failed(kind) => Poll::Ready(Err(io::Error::new(to_std(kind), what))),
        Polled::RetryScheduled => Poll::Pending,
    }
}

impl AsyncWrite for Driven {
    fn poll_write(
        self: Pin<&mut Self>,
        cx: &mut Context<'_>,
        buf: &[u8],
    ) -> Poll<io::Result<usize>> {
        let waker = cx.waker();
        let polled = self.get_mut().0.poll_write(
            buf,
            |inner, piece| Pin::new(inner).poll_write(cx, piece),
            || waker.wake_by_ref(),
        );
        settle(polled, "scripted failure of poll_write")
    }

    fn poll_flush(self: Pin<&mut Self>, cx: &mut Context<'_>) -> Poll<io::Result<()>> {
        let waker = cx.waker();
        let polled = self
            .get_mut()
            .0
            .poll_flush(|inner| Pin::new(inner).poll_flush(cx), || waker.wake_by_ref());
        settle(polled, "scripted failure of poll_flush")
    }

    fn poll_close(self: Pin<&mut Self>, cx: &mut Context<'_>) -> Poll<io::Result<()>> {
        let waker = cx.waker();
        let polled = self
            .get_mut()
            .0
            .poll_close(|inner| Pin::new(inner).poll_close(cx), || waker.wake_by_ref());
        settle(polled, "scripted failure of poll_close")
    }
}

/// A writer that keeps the pieces that it is handed.
fn keep(pieces: &mut Vec<Vec<u8>>, piece: &[u8]) -> usize {
    pieces.push(piece.to_vec());
    piece.len()
}

fn mark(pieces: &mut Vec<Vec<u8>>) -> usize {
    pieces.push(b"-".to_vec());
    pieces.len()
}

fn assert_send<T: Send>() {}

#[test]
fn the_adapter_can_move_between_threads() {
    assert_send::<PartialAsyncWrite<Vec<u8>>>();
    assert_send::<PartialAsyncWrite<Cursor<Vec<u8>>>>();
}

#[test]
fn the_adapter_hands_out_and_gives_back_its_writer() {
    let mut writer = PartialAsyncWrite::new(vec![1u8, 2], vec![PartialOp::Unlimited]);
    assert_eq!(writer.get_ref(), &vec![1u8, 2]);
    writer.get_mut().push(3);
    assert_eq!(writer.get_ref(), &vec![1u8, 2, 3]);
    assert_eq!(writer.into_inner(), vec![1u8, 2, 3]);
}

#[test]
fn the_adapter_comes_apart_into_writer_and_remaining_script() {
    let mut writer = PartialAsyncWrite::new(
        Vec::new(),
        vec![
            PartialOp::Error(ErrorKind::Interrupted),
            PartialOp::limited(2).unwrap(),
            PartialOp::Unlimited,
        ],
    );
    assert_eq!(writer.poll_write(b"hello", keep, || ()), Polled::Failed(ErrorKind::Interrupted));
    let (inner, left) = writer.into_parts();
    assert!(inner.is_empty());
    assert_eq!(left, vec![PartialOp::limited(2).unwrap(), PartialOp::Unlimited]);

    let mut dry = PartialAsyncWrite::new(Vec::new(), vec![PartialOp::Unlimited]);
    assert_eq!(dry.poll_flush(mark, || ()), Polled::Inner(1));
    assert_eq!(dry.poll_flush(mark, || ()), Polled::Inner(2));
    let (inner, left) = dry.into_parts();
    assert_eq!(inner.len(), 2);
    assert!(left.is_empty());
}

#[test]
fn a_limited_attempt_hands_the_writer_the_first_bytes_up_to_the_limit() {
    let mut writer = PartialAsyncWrite::new(
        Vec::new(),
        vec![
            PartialOp::limited(2).unwrap(),
            PartialOp::limited(9).unwrap(),
            PartialOp::limited(5).unwrap(),
            PartialOp::Unlimited,
        ],
    );
    assert_eq!(writer.poll_write(b"hello", keep, || ()), Polled::Inner(2));
    assert_eq!(writer.poll_write(b"hello", keep, || ()), Polled::Inner(5));
    assert_eq!(writer.poll_write(b"hello", keep, || ()), Polled::Inner(5));
    assert_eq!(writer.poll_write(b"hello", keep, || ()), Polled::Inner(5));
    assert_eq!(writer.poll_write(b"hello", keep, || ()), Polled::Inner(5));
    let expected: Vec<&[u8]> = vec![b"he", b"hello", b"hello", b"hello", b"hello"];
    assert_eq!(writer.get_ref(), &expected);
}

#[test]
fn a_scripted_failure_does_not_reach_the_writer() {
    let mut writer = PartialAsyncWrite::new(
        Vec::new(),
        vec![
            PartialOp::Error(ErrorKind::WouldBlock),
            PartialOp::Error(ErrorKind::InvalidData),
            PartialOp::Error(ErrorKind::WouldBlock),
            PartialOp::Error(ErrorKind::Interrupted),
        ],
    );
    assert_eq!(writer.poll_write(b"hello", keep, || ()), Polled::RetryScheduled);
    assert_eq!(writer.poll_write(b"hello", keep, || ()), Polled::Failed(ErrorKind::InvalidData));
    assert_eq!(writer.poll_flush(mark, || ()), Polled::RetryScheduled);
    assert_eq!(writer.poll_close(mark, || ()), Polled::Failed(ErrorKind::Interrupted));
    assert!(writer.get_ref().is_empty());
    assert_eq!(writer.poll_write(b"hello", keep, || ()), Polled::Inner(5));
    assert_eq!(writer.get_ref(), &vec![b"hello".to_vec()]);
}

#[test]
fn the_adapter_wakes_its_caller_on_a_stall_and_only_then() {
    let wakes = Cell::new(0);
    let wake = || wakes.set(wakes.get() + 1);
    let mut writer = PartialAsyncWrite::new(
        Vec::new(),
        vec![
            PartialOp::limited(2).unwrap(),
            PartialOp::Error(ErrorKind::WouldBlock),
            PartialOp::Error(ErrorKind::Interrupted),
            PartialOp::Error(ErrorKind::WouldBlock),
            PartialOp::Error(ErrorKind::WouldBlock),
            PartialOp::Error(ErrorKind::WouldBlock),
        ],
    );
    assert_eq!(writer.poll_write(b"hello", keep, wake), Polled::Inner(2));
    assert_eq!(wakes.get(), 0);
    assert_eq!(writer.poll_write(b"hello", keep, wake), Polled::RetryScheduled);
    assert_eq!(wakes.get(), 1);
    assert_eq!(writer.poll_write(b"hello", keep, wake), Polled::Failed(ErrorKind::Interrupted));
    assert_eq!(wakes.get(), 1);
    assert_eq!(writer.poll_flush(mark, wake), Polled::RetryScheduled);
    assert_eq!(wakes.get(), 2);
    assert_eq!(writer.poll_close(mark, wake), Polled::RetryScheduled);
    assert_eq!(wakes.get(), 3);
    assert_eq!(writer.poll_shutdown(mark, wake), Polled::RetryScheduled);
    assert_eq!(wakes.get(), 4);
    assert_eq!(writer.poll_write(b"hello", keep, wake), Polled::Inner(5));
    assert_eq!(wakes.get(), 4);
    let expected: Vec<&[u8]> = vec![b"he", b"hello"];
    assert_eq!(writer.get_ref(), &expected);
}

#[test]
fn touching_the_writer_does_not_touch_the_script() {
    let mut writer = PartialAsyncWrite::new(
        Vec::new(),
        vec![PartialOp::limited(2).unwrap(), PartialOp::Error(ErrorKind::InvalidData)],
    );
    writer.get_mut().push(b"before".to_vec());
    assert_eq!(writer.poll_write(b"hello", keep, || ()), Polled::Inner(2));
    let _ = writer.get_ref();
    writer.get_mut().clear();
    assert_eq!(writer.poll_write(b"hello", keep, || ()), Polled::Failed(ErrorKind::InvalidData));
    assert!(writer.get_ref().is_empty());
}

#[test]
fn set_ops_replaces_the_script_and_keeps_the_writer() {
    let mut writer = PartialAsyncWrite::new(
        vec![b"before".to_vec()],
        vec![PartialOp::Error(ErrorKind::InvalidData), PartialOp::Error(ErrorKind::InvalidData)],
    );
    assert_eq!(writer.poll_write(b"hello", keep, || ()), Polled::Failed(ErrorKind::InvalidData));
    let polled = writer.set_ops(vec![PartialOp::limited(3).unwrap()]).poll_write(b"hello", keep, || ());
    assert_eq!(polled, Polled::Inner(3));
    assert_eq!(writer.poll_write(b"hello", keep, || ()), Polled::Inner(5));
    let expected: Vec<&[u8]> = vec![b"before", b"hel", b"hello"];
    assert_eq!(writer.get_ref(), &expected);
}

#[test]
fn flush_close_and_shutdown_follow_the_script_without_a_limit() {
    let mut writer = PartialAsyncWrite::new(
        Vec::new(),
        vec![
            PartialOp::limited(1).unwrap(),
            PartialOp::Error(ErrorKind::WouldBlock),
            PartialOp::Error(ErrorKind::NotConnected),
            PartialOp::limited(1).unwrap(),
            PartialOp::Error(ErrorKind::WouldBlock),
            PartialOp::Unlimited,
            PartialOp::Error(ErrorKind::BrokenPipe),
        ],
    );
    assert_eq!(writer.poll_flush(mark, || ()), Polled::Inner(1));
    assert_eq!(writer.poll_flush(mark, || ()), Polled::RetryScheduled);
    assert_eq!(writer.poll_close(mark, || ()), Polled::Failed(ErrorKind::NotConnected));
    assert_eq!(writer.poll_close(mark, || ()), Polled::Inner(2));
    assert_eq!(writer.poll_shutdown(mark, || ()), Polled::RetryScheduled);
    assert_eq!(writer.poll_shutdown(mark, || ()), Polled::Inner(3));
    assert_eq!(writer.poll_shutdown(mark, || ()), Polled::Failed(ErrorKind::BrokenPipe));
    assert_eq!(writer.poll_flush(mark, || ()), Polled::Inner(4));
    assert_eq!(writer.poll_close(mark, || ()), Polled::Inner(5));
    assert_eq!(writer.poll_shutdown(mark, || ()), Polled::Inner(6));
}

#[test]
fn the_answer_of_the_writer_comes_back_unchanged() {
    let mut writer = PartialAsyncWrite::new(0u32, vec![PartialOp::limited(4).unwrap()]);
    let pending: Polled<Poll<io::Result<usize>>> =
        writer.poll_write(b"hello", |_, _| Poll::Pending, || ());
    assert!(matches!(pending, Polled::Inner(Poll::Pending)));
    let failed: Polled<io::Result<usize>> = writer.poll_write(
        b"hello",
        |_, _| Err(io::Error::new(io::ErrorKind::WouldBlock, "from the writer")),
        || (),
    );
    match failed {
        Polled::Inner(Err(error)) => assert_eq!(error.kind(), io::ErrorKind::WouldBlock),
        _ => panic!("the writer's own failure was not handed back"),
    }
    let counted = writer.poll_flush(
        |inner| {
            *inner += 1;
            *inner
        },
        || (),
    );
    assert_eq!(counted, Polled::Inner(1));
    assert_eq!(writer.into_inner(), 1);
}

#[test]
fn a_stalled_write_is_retried_and_then_goes_through_in_pieces() {
    let wakes = Arc::new(Wakes(AtomicUsize::new(0)));
    let waker = Waker::from(wakes.clone());
    let mut cx = Context::from_waker(&waker);
    let mut writer = Driven::new(vec![
        PartialOp::Error(ErrorKind::WouldBlock),
        PartialOp::limited(2).unwrap(),
        PartialOp::Error(ErrorKind::InvalidData),
        PartialOp::Unlimited,
    ]);
    let data = [1u8, 2, 3, 4];

    let first = Pin::new(&mut writer).poll_write(&mut cx, &data);
    assert!(first.is_pending());
    assert_eq!(wakes.0.load(Ordering::SeqCst), 1);
    assert_eq!(writer.written(), &[] as &[u8]);

    let second = Pin::new(&mut writer).poll_write(&mut cx, &data);
    assert!(matches!(second, Poll::Ready(Ok(2))));
    assert_eq!(writer.written(), &[1, 2]);

    let third = Pin::new(&mut writer).poll_write(&mut cx, &data[2..]);
    match third {
        Poll::Ready(Err(error)) => assert_eq!(error.kind(), io::ErrorKind::InvalidData),
        other => panic!("the third attempt was {:?}", other),
    }
    assert_eq!(writer.written(), &[1, 2]);

    let fourth = Pin::new(&mut writer).poll_write(&mut cx, &data[2..]);
    assert!(matches!(fourth, Poll::Ready(Ok(2))));
    assert_eq!(writer.written(), &[1, 2, 3, 4]);
    assert_eq!(wakes.0.load(Ordering::SeqCst), 1);
}

#[test]
fn an_executor_sees_a_stall_as_a_short_delay() {
    let mut writer = Driven::new(vec![
        PartialOp::Error(ErrorKind::WouldBlock),
        PartialOp::limited(2).unwrap(),
        PartialOp::Error(ErrorKind::InvalidData),
        PartialOp::Unlimited,
    ]);
    let data = vec![1u8, 2, 3, 4];

    assert_eq!(futures::executor::block_on(writer.write(&data)).unwrap(), 2);
    assert_eq!(writer.written(), &[1, 2]);

    let failed = futures::executor::block_on(writer.write(&data[2..]));
    assert_eq!(failed.unwrap_err().kind(), io::ErrorKind::InvalidData);

    assert_eq!(futures::executor::block_on(writer.write(&data[2..])).unwrap(), 2);
    assert_eq!(writer.written(), &[1, 2, 3, 4]);
}

#[test]
fn stalls_in_a_row_are_all_waited_out() {
    let mut writer = Driven::new(vec![
        PartialOp::Error(ErrorKind::WouldBlock),
        PartialOp::Error(ErrorKind::WouldBlock),
        PartialOp::Error(ErrorKind::WouldBlock),
        PartialOp::limited(1).unwrap(),
        PartialOp::Error(ErrorKind::WouldBlock),
        PartialOp::limited(3).unwrap(),
        PartialOp::Error(ErrorKind::WouldBlock),
    ]);
    futures::executor::block_on(writer.write_all(b"partial")).unwrap();
    futures::executor::block_on(writer.flush()).unwrap();
    futures::executor::block_on(writer.close()).unwrap();
    assert_eq!(writer.written(), b"partial");
}

#[test]
fn a_failed_flush_or_close_is_reported_once() {
    let mut writer = Driven::new(vec![
        PartialOp::Error(ErrorKind::TimedOut),
        PartialOp::Error(ErrorKind::ConnectionReset),
    ]);
    let flushed = futures::executor::block_on(writer.flush());
    assert_eq!(flushed.unwrap_err().kind(), io::ErrorKind::TimedOut);
    let closed = futures::executor::block_on(writer.close());
    assert_eq!(closed.unwrap_err().kind(), io::ErrorKind::ConnectionReset);
    futures::executor::block_on(writer.flush()).unwrap();
    futures::executor::block_on(writer.close()).unwrap();
}
