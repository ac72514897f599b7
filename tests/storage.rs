use flipperzero::storage::{
    Error, OpenOptions, Seek, SeekFrom, Write, FSAM_READ, FSAM_WRITE, FSOM_CREATE_ALWAYS,
    FSOM_OPEN_APPEND, FSOM_OPEN_EXISTING, STREAM_OFFSET_FROM_CURRENT, STREAM_OFFSET_FROM_END,
    STREAM_OFFSET_FROM_START,
};

#[test]
fn error_codes_round_trip() {
    let all = [
        Error::NoError,
        Error::NotReady,
        Error::Exists,
        Error::NotExists,
        Error::InvalidParameter,
        Error::Denied,
        Error::InvalidName,
        Error::Internal,
        Error::NotImplemented,
        Error::AlreadyOpen,
    ];
    for (code, e) in all.iter().enumerate() {
        assert_eq!(e.to_sys(), code as u8);
        assert_eq!(Error::from_sys(code as u8), *e);
    }
}

#[test]
fn seek_positions_name_origin_and_offset() {
    assert_eq!(SeekFrom::Start(5).to_sys(), (STREAM_OFFSET_FROM_START, 5));
    assert_eq!(SeekFrom::End(-3).to_sys(), (STREAM_OFFSET_FROM_END, -3));
    assert_eq!(SeekFrom::Current(0).to_sys(), (STREAM_OFFSET_FROM_CURRENT, 0));
    assert_eq!(STREAM_OFFSET_FROM_START, 1);
    assert_eq!(STREAM_OFFSET_FROM_END, 2);
}

#[test]
fn open_options_start_empty() {
    let o = OpenOptions::new();
    assert_eq!(o.access_mode(), 0);
    assert_eq!(o.open_mode(), 0);
}

#[test]
fn open_options_set_and_clear_bits() {
    let o = OpenOptions::new().read(true).write(true);
    assert_eq!(o.access_mode(), FSAM_READ | FSAM_WRITE);
    assert_eq!(o.access_mode(), 3);
    let o = o.read(false);
    assert_eq!(o.access_mode(), FSAM_WRITE);
    let o = o.open_existing(true).open_append(true).create_always(true);
    assert_eq!(o.open_mode(), FSOM_OPEN_EXISTING | FSOM_OPEN_APPEND | FSOM_CREATE_ALWAYS);
    assert_eq!(o.open_mode(), 21);
    let o = o.open_append(false).open_always(true).create_new(true);
    assert_eq!(o.open_mode(), 1 | 2 | 8 | 16);
    let o = o.create_always(false).open_existing(false).open_always(false).create_new(false);
    assert_eq!(o.open_mode(), 0);
    assert_eq!(o.access_mode(), FSAM_WRITE);
}

struct Chunked {
    written: Vec<u8>,
    chunk: usize,
    fail_after: Option<usize>,
}

impl Write for Chunked {
    fn write(&mut self, buf: &[u8]) -> Result<usize, Error> {
        if let Some(limit) = self.fail_after {
            if self.written.len() >= limit {
                return Err(Error::Denied);
            }
        }
        let n = buf.len().min(self.chunk);
        self.written.extend_from_slice(&buf[..n]);
        Ok(n)
    }

    fn flush(&mut self) -> Result<(), Error> {
        Ok(())
    }
}

#[test]
fn write_all_writes_everything_in_pieces() {
    let mut w = Chunked { written: Vec::new(), chunk: 3, fail_after: None };
    assert_eq!(w.write_all(b"hello world"), Ok(()));
    assert_eq!(w.written, b"hello world".to_vec());
}

#[test]
fn write_all_reports_write_error() {
    let mut w = Chunked { written: Vec::new(), chunk: 2, fail_after: Some(4) };
    assert_eq!(w.write_all(b"abcdefgh"), Err(Error::Denied));
    assert_eq!(w.written, b"abcd".to_vec());
}

#[test]
fn write_all_fails_without_progress() {
    let mut w = Chunked { written: Vec::new(), chunk: 0, fail_after: None };
    assert_eq!(w.write_all(b"x"), Err(Error::Internal));
    assert_eq!(w.write_all(b""), Ok(()));
}

struct Cursor {
    pos: usize,
    len: usize,
    seeks: usize,
}

impl Seek for Cursor {
    fn seek(&mut self, pos: SeekFrom) -> Result<usize, Error> {
        self.seeks += 1;
        let target = match pos {
            SeekFrom::Start(n) => n as i64,
            SeekFrom::End(n) => self.len as i64 + n as i64,
            SeekFrom::Current(n) => self.pos as i64 + n as i64,
        };
        if target < 0 {
            return Err(Error::InvalidParameter);
        }
        self.pos = target as usize;
        Ok(self.pos)
    }
}

#[test]
fn stream_len_keeps_position() {
    let mut c = Cursor { pos: 4, len: 10, seeks: 0 };
    assert_eq!(c.stream_len(), Ok(10));
    assert_eq!(c.pos, 4);
    assert_eq!(c.seeks, 3);
    assert_eq!(c.stream_position(), Ok(4));
}

#[test]
fn stream_len_at_end_seeks_twice() {
    let mut c = Cursor { pos: 10, len: 10, seeks: 0 };
    assert_eq!(c.stream_len(), Ok(10));
    assert_eq!(c.seeks, 2);
    assert_eq!(c.rewind(), Ok(()));
    assert_eq!(c.pos, 0);
}
