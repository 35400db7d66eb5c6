use defmt_file::logger::Logger;
use defmt_file::sink::{surface, Error, IoError, Sink};

/// A sink that keeps what it is given until it is told to fail.
struct Shaky {
    name: u8,
    bytes: Vec<u8>,
    failing: bool,
}

impl Shaky {
    fn new(name: u8) -> Shaky {
        Shaky { name, bytes: Vec::new(), failing: false }
    }

    fn broken(name: u8) -> Shaky {
        Shaky { name, bytes: Vec::new(), failing: true }
    }
}

impl Sink for Shaky {
    fn write(&mut self, bytes: &[u8]) -> Result<(), IoError> {
        if self.failing {
            return Err(IoError);
        }
        self.bytes.extend_from_slice(bytes);
        Ok(())
    }

    fn flush(&mut self) -> Result<(), IoError> {
        if self.failing {
            Err(IoError)
        } else {
            Ok(())
        }
    }
}

#[test]
fn a_new_logger_is_at_rest_without_a_sink() {
    let logger: Logger<Shaky> = Logger::new();
    assert!(!logger.in_progress());
    assert!(logger.sink().is_none());
}

#[test]
fn a_second_acquire_has_to_wait() {
    let mut logger: Logger<Shaky> = Logger::new();
    let token = logger.acquire().unwrap();
    assert!(logger.in_progress());
    assert!(logger.acquire().is_none());
    assert!(logger.acquire().is_none());
    assert!(logger.in_progress());
    assert_eq!(logger.release(token), Ok(()));
    assert!(!logger.in_progress());
    let next = logger.acquire();
    assert!(next.is_some());
    assert!(logger.in_progress());
}

#[test]
fn before_a_sink_is_attached_everything_is_dropped() {
    let mut logger: Logger<Shaky> = Logger::new();
    let token = logger.acquire().unwrap();
    assert_eq!(token.opened(), Ok(()));
    assert_eq!(logger.write(&token, &[0x01, 0x02]), Ok(()));
    assert_eq!(logger.flush(), Ok(()));
    assert_eq!(logger.release(token), Ok(()));
    assert!(logger.sink().is_none());
    assert_eq!(logger.init(Ok(Shaky::new(1))), Some(Ok(())));
    assert!(logger.sink().unwrap().bytes.is_empty());
    let token = logger.acquire().unwrap();
    assert_eq!(logger.write(&token, &[0x03]), Ok(()));
    assert_eq!(logger.release(token), Ok(()));
    assert_eq!(logger.sink().unwrap().bytes, vec![0x03, 0x7e, 0x00]);
}

#[test]
fn a_failed_release_still_ends_the_frame() {
    let mut logger: Logger<Shaky> = Logger::new();
    assert_eq!(logger.init(Ok(Shaky::new(1))), Some(Ok(())));
    let token = logger.acquire().unwrap();
    assert_eq!(logger.write(&token, &[0x01]), Ok(()));
    assert_eq!(logger.init(Ok(Shaky::broken(2))), None);
    assert_eq!(logger.sink().unwrap().name, 1);
    assert_eq!(logger.release(token), Ok(()));
    assert_eq!(logger.init(Ok(Shaky::broken(2))), Some(Ok(())));
    let token = logger.acquire().unwrap();
    assert_eq!(logger.release(token), Err(Error::IoFailure));
    assert!(!logger.in_progress());
    let other = logger.acquire();
    assert!(other.is_some());
    assert!(logger.in_progress());
}

#[test]
fn a_failed_write_is_reported_and_the_frame_goes_on() {
    let mut logger: Logger<Shaky> = Logger::new();
    assert_eq!(logger.init(Ok(Shaky::broken(1))), Some(Ok(())));
    let token = logger.acquire().unwrap();
    assert_eq!(token.opened(), Err(Error::IoFailure));
    assert!(logger.in_progress());
    assert_eq!(logger.write(&token, &[0x01]), Err(Error::IoFailure));
    assert_eq!(logger.write(&token, &[]), Ok(()));
    assert!(logger.in_progress());
    assert!(logger.acquire().is_none());
    assert_eq!(logger.flush(), Err(Error::IoFailure));
    assert!(logger.in_progress());
    assert_eq!(logger.release(token), Err(Error::IoFailure));
    assert!(!logger.in_progress());
    assert!(logger.sink().unwrap().bytes.is_empty());
}

#[test]
fn a_target_that_cannot_be_opened_leaves_the_sink_as_it_was() {
    let mut logger: Logger<Shaky> = Logger::new();
    assert_eq!(logger.init(Err(IoError)), Some(Err(Error::SinkUnavailable)));
    assert!(logger.sink().is_none());
    assert_eq!(logger.init(Ok(Shaky::new(7))), Some(Ok(())));
    assert_eq!(logger.init(Err(IoError)), Some(Err(Error::SinkUnavailable)));
    assert_eq!(logger.sink().unwrap().name, 7);
    assert_eq!(logger.init(Ok(Shaky::new(8))), Some(Ok(())));
    assert_eq!(logger.sink().unwrap().name, 8);
}

#[test]
fn attaching_waits_for_the_frame_in_flight() {
    let mut logger: Logger<Shaky> = Logger::new();
    assert_eq!(logger.init(Ok(Shaky::new(1))), Some(Ok(())));
    let token = logger.acquire().unwrap();
    assert_eq!(logger.init(Ok(Shaky::new(2))), None);
    assert_eq!(logger.init(Err(IoError)), None);
    assert_eq!(logger.sink().unwrap().name, 1);
    assert!(logger.in_progress());
    assert_eq!(logger.write(&token, &[0x05]), Ok(()));
    assert_eq!(logger.release(token), Ok(()));
    assert_eq!(logger.sink().unwrap().bytes, vec![0x00, 0x05, 0x7e, 0x00]);
    assert_eq!(logger.init(Ok(Shaky::new(2))), Some(Ok(())));
    assert!(!logger.in_progress());
    assert_eq!(logger.sink().unwrap().name, 2);
    assert!(logger.sink().unwrap().bytes.is_empty());
}

#[test]
fn flushing_without_a_sink_is_no_error() {
    let mut logger: Logger<Shaky> = Logger::new();
    assert_eq!(logger.flush(), Ok(()));
    assert!(!logger.in_progress());
}

#[test]
fn a_sink_failure_surfaces_as_an_io_failure() {
    assert_eq!(surface(Ok(())), Ok(()));
    assert_eq!(surface(Err(IoError)), Err(Error::IoFailure));
}
