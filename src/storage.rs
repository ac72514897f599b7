use vstd::prelude::*;

verus! {

/// Filesystem status code: success.
pub const FSE_OK: u8 = 0;
/// Filesystem status code: the storage is not ready.
pub const FSE_NOT_READY: u8 = 1;
/// Filesystem status code: the entry already exists.
pub const FSE_EXIST: u8 = 2;
/// Filesystem status code: the entry does not exist.
pub const FSE_NOT_EXIST: u8 = 3;
/// Filesystem status code: a parameter was rejected.
pub const FSE_INVALID_PARAMETER: u8 = 4;
/// Filesystem status code: access was denied.
pub const FSE_DENIED: u8 = 5;
/// Filesystem status code: the name is not valid.
pub const FSE_INVALID_NAME: u8 = 6;
/// Filesystem status code: an internal failure.
pub const FSE_INTERNAL: u8 = 7;
/// Filesystem status code: the operation is not implemented.
pub const FSE_NOT_IMPLEMENTED: u8 = 8;
/// Filesystem status code: the file is already open.
pub const FSE_ALREADY_OPEN: u8 = 9;

/// Access mode bit: read.
pub const FSAM_READ: u8 = 1;
/// Access mode bit: write.
pub const FSAM_WRITE: u8 = 2;

/// Open mode bit: open a file, failing if it does not exist.
pub const FSOM_OPEN_EXISTING: u8 = 1;
/// Open mode bit: open a file, creating it if it does not exist.
pub const FSOM_OPEN_ALWAYS: u8 = 2;
/// Open mode bit: open or create a file and move to its end.
pub const FSOM_OPEN_APPEND: u8 = 4;
/// Open mode bit: create a file, failing if it exists.
pub const FSOM_CREATE_NEW: u8 = 8;
/// Open mode bit: create a file, truncating it if it exists.
pub const FSOM_CREATE_ALWAYS: u8 = 16;

/// Stream offset origin: the current position.
pub const STREAM_OFFSET_FROM_CURRENT: u8 = 0;
/// Stream offset origin: the start of the stream.
pub const STREAM_OFFSET_FROM_START: u8 = 1;
/// Stream offset origin: the end of the stream.
pub const STREAM_OFFSET_FROM_END: u8 = 2;

/// Stream and file system related error type
#[derive(Debug, Clone, Copy, PartialEq, Eq, Structural)]
pub enum Error {
    NoError,
    NotReady,
    Exists,
    NotExists,
    InvalidParameter,
    Denied,
    InvalidName,
    Internal,
    NotImplemented,
    AlreadyOpen,
}

/// The filesystem status code of each error.
pub open spec fn fs_code(e: Error) -> u8 {
    match e {
        Error::NoError => FSE_OK,
        Error::NotReady => FSE_NOT_READY,
        Error::Exists => FSE_EXIST,
        Error::NotExists => FSE_NOT_EXIST,
        Error::InvalidParameter => FSE_INVALID_PARAMETER,
        Error::Denied => FSE_DENIED,
        Error::InvalidName => FSE_INVALID_NAME,
        Error::Internal => FSE_INTERNAL,
        Error::NotImplemented => FSE_NOT_IMPLEMENTED,
        Error::AlreadyOpen => FSE_ALREADY_OPEN,
    }
}

/// The codes that name an error.
pub open spec fn is_fs_code(code: u8) -> bool {
    code <= FSE_ALREADY_OPEN
}

impl Error {
    /// The filesystem status code for this error.
    pub fn to_sys(&self) -> (r: u8)
        ensures
            r == fs_code(*self),
            is_fs_code(r),
    {
        match self {
            Self::NoError => FSE_OK,
            Self::NotReady => FSE_NOT_READY,
            Self::Exists => FSE_EXIST,
            Self::NotExists => FSE_NOT_EXIST,
            Self::InvalidParameter => FSE_INVALID_PARAMETER,
            Self::Denied => FSE_DENIED,
            Self::InvalidName => FSE_INVALID_NAME,
            Self::Internal => FSE_INTERNAL,
            Self::NotImplemented => FSE_NOT_IMPLEMENTED,
            Self::AlreadyOpen => FSE_ALREADY_OPEN,
        }
    }

    /// The error that a filesystem status code names.
    pub fn from_sys(err: u8) -> (r: Self)
        requires
            is_fs_code(err),
        ensures
            fs_code(r) == err,
    {
        match err {
            FSE_OK => Self::NoError,
            FSE_NOT_READY => Self::NotReady,
            FSE_EXIST => Self::Exists,
            FSE_NOT_EXIST => Self::NotExists,
            FSE_INVALID_PARAMETER => Self::InvalidParameter,
            FSE_DENIED => Self::Denied,
            FSE_INVALID_NAME => Self::InvalidName,
            FSE_INTERNAL => Self::Internal,
            FSE_NOT_IMPLEMENTED => Self::NotImplemented,
            _ => Self::AlreadyOpen,
        }
    }
}

/// Converting an error to its code and back gives the same error, and a
/// code converted to an error and back gives the same code.
pub proof fn lemma_fs_code_round_trip(e: Error, code: u8)
    requires
        is_fs_code(code),
    ensures
        is_fs_code(fs_code(e)),
        forall|r: Error| fs_code(r) == fs_code(e) ==> r == e,
        exists|r: Error| fs_code(r) == code,
{
    let witness = if code == FSE_OK {
        Error::NoError
    } else if code == FSE_NOT_READY {
        Error::NotReady
    } else if code == FSE_EXIST {
        Error::Exists
    } else if code == FSE_NOT_EXIST {
        Error::NotExists
    } else if code == FSE_INVALID_PARAMETER {
        Error::InvalidParameter
    } else if code == FSE_DENIED {
        Error::Denied
    } else if code == FSE_INVALID_NAME {
        Error::InvalidName
    } else if code == FSE_INTERNAL {
        Error::Internal
    } else if code == FSE_NOT_IMPLEMENTED {
        Error::NotImplemented
    } else {
        Error::AlreadyOpen
    };
    assert(fs_code(witness) == code);
}

/// Enumeration of possible methods to seek within an I/O object.
///
/// It is used by the Seek trait.
pub enum SeekFrom {
    Start(i32),
    End(i32),
    Current(i32),
}

impl SeekFrom {
    /// The stream offset origin and the offset that this position names.
    pub fn to_sys(&self) -> (r: (u8, i32))
        ensures
            r == (match *self {
                SeekFrom::Start(n) => (STREAM_OFFSET_FROM_START, n),
                SeekFrom::End(n) => (STREAM_OFFSET_FROM_END, n),
                SeekFrom::Current(n) => (STREAM_OFFSET_FROM_CURRENT, n),
            }),
    {
        match self {
            SeekFrom::Start(n) => (STREAM_OFFSET_FROM_START, *n),
            SeekFrom::End(n) => (STREAM_OFFSET_FROM_END, *n),
            SeekFrom::Current(n) => (STREAM_OFFSET_FROM_CURRENT, *n),
        }
    }
}

/// `new` has exactly the bits of `old`, but for `flag`, which is set in `new`
/// when `set` holds and clear otherwise.
pub open spec fn flag_updated(old_bits: u8, new_bits: u8, flag: u8, set: bool) -> bool {
    &&& new_bits & flag == (if set { flag } else { 0u8 })
    &&& new_bits & !flag == old_bits & !flag
}

/// Setting or clearing the bits of `flag` leaves every other bit alone.
proof fn lemma_update_flag(bits: u8, flag: u8, set: bool)
    ensures
        flag_updated(bits, if set { bits | flag } else { bits & !flag }, flag, set),
{
    if set {
        assert((bits | flag) & flag == flag && (bits | flag) & !flag == bits & !flag)
            by (bit_vector);
    } else {
        assert((bits & !flag) & flag == 0u8 && (bits & !flag) & !flag == bits & !flag)
            by (bit_vector);
    }
}

/// `bits` with `flag` set when `set` holds, cleared otherwise.
fn update_flag(bits: u8, flag: u8, set: bool) -> (r: u8)
    ensures
        flag_updated(bits, r, flag, set),
{
    proof {
        lemma_update_flag(bits, flag, set);
    }
    if set {
        bits | flag
    } else {
        bits & !flag
    }
}

/// Options that say how a file is opened: an access mode and an open mode,
/// each a set of bits.
#[derive(Debug, Clone, Copy)]
pub struct OpenOptions {
    access_mode: u8,
    open_mode: u8,
}

impl View for OpenOptions {
    /// The access mode bits and the open mode bits.
    type V = (u8, u8);

    closed spec fn view(&self) -> (u8, u8) {
        (self.access_mode, self.open_mode)
    }
}

impl Default for OpenOptions {
    fn default() -> (r: Self)
        ensures
            r@ == (0u8, 0u8),
    {
        OpenOptions::from_parts(0, 0)
    }
}

impl OpenOptions {
    /// Options with no access and no open mode bits.
    pub fn new() -> (r: Self)
        ensures
            r@ == (0u8, 0u8),
    {
        OpenOptions::from_parts(0, 0)
    }

    /// Options with the given access mode and open mode bits.
    pub fn from_parts(access_mode: u8, open_mode: u8) -> (r: Self)
        ensures
            r@ == (access_mode, open_mode),
    {
        OpenOptions { access_mode, open_mode }
    }

    /// The access mode bits.
    pub fn access_mode(&self) -> (r: u8)
        ensures
            r == self@.0,
    {
        self.access_mode
    }

    /// The open mode bits.
    pub fn open_mode(&self) -> (r: u8)
        ensures
            r == self@.1,
    {
        self.open_mode
    }

    /// Read access
    pub fn read(self, set: bool) -> (r: Self)
        ensures
            flag_updated(self@.0, r@.0, FSAM_READ, set),
            r@.1 == self@.1,
    {
        OpenOptions::from_parts(update_flag(self.access_mode, FSAM_READ, set), self.open_mode)
    }

    /// Write access
    pub fn write(self, set: bool) -> (r: Self)
        ensures
            flag_updated(self@.0, r@.0, FSAM_WRITE, set),
            r@.1 == self@.1,
    {
        OpenOptions::from_parts(update_flag(self.access_mode, FSAM_WRITE, set), self.open_mode)
    }

    /// Open file, fail if file doesn't exist
    pub fn open_existing(self, set: bool) -> (r: Self)
        ensures
            r@.0 == self@.0,
            flag_updated(self@.1, r@.1, FSOM_OPEN_EXISTING, set),
    {
        OpenOptions::from_parts(
            self.access_mode,
            update_flag(self.open_mode, FSOM_OPEN_EXISTING, set),
        )
    }

    /// Open file. Create new file if not exist
    pub fn open_always(self, set: bool) -> (r: Self)
        ensures
            r@.0 == self@.0,
            flag_updated(self@.1, r@.1, FSOM_OPEN_ALWAYS, set),
    {
        OpenOptions::from_parts(self.access_mode, update_flag(self.open_mode, FSOM_OPEN_ALWAYS, set))
    }

    /// Open file. Create new file if not exist. Set R/W pointer to EOF
    pub fn open_append(self, set: bool) -> (r: Self)
        ensures
            r@.0 == self@.0,
            flag_updated(self@.1, r@.1, FSOM_OPEN_APPEND, set),
    {
        OpenOptions::from_parts(self.access_mode, update_flag(self.open_mode, FSOM_OPEN_APPEND, set))
    }

    /// Creates a new file. Fails if the file is exist
    pub fn create_new(self, set: bool) -> (r: Self)
        ensures
            r@.0 == self@.0,
            flag_updated(self@.1, r@.1, FSOM_CREATE_NEW, set),
    {
        OpenOptions::from_parts(self.access_mode, update_flag(self.open_mode, FSOM_CREATE_NEW, set))
    }

    /// Creates a new file. If file exist, truncate to zero size
    pub fn create_always(self, set: bool) -> (r: Self)
        ensures
            r@.0 == self@.0,
            flag_updated(self@.1, r@.1, FSOM_CREATE_ALWAYS, set),
    {
        OpenOptions::from_parts(
            self.access_mode,
            update_flag(self.open_mode, FSOM_CREATE_ALWAYS, set),
        )
    }
}

/// Trait comparable to `std::Read` for the Flipper stream API
pub trait Read {
    /// Reads into `buf`, returning how many bytes were read.
    fn read(&mut self, buf: &mut [u8]) -> Result<usize, Error>;
}

/// Trait comparable to `std::Seek` for the Flipper stream API
pub trait Seek {
    /// Moves to `pos`, returning the new position from the start.
    fn seek(&mut self, pos: SeekFrom) -> Result<usize, Error>;

    /// Moves to the start of the stream.
    fn rewind(&mut self) -> Result<(), Error> {
        self.seek(SeekFrom::Start(0))?;
        Ok(())
    }

    /// The length of the stream; the position is left where it was.
    fn stream_len(&mut self) -> Result<usize, Error> {
        let old_pos = self.stream_position()?;
        let len = self.seek(SeekFrom::End(0))?;

        // Avoid seeking a third time when we were already at the end of the
        // stream. The branch is usually way cheaper than a seek operation.
        if old_pos != len {
            self.seek(SeekFrom::Start(old_pos as i32))?;
        }
        Ok(len)
    }

    /// The current position from the start.
    fn stream_position(&mut self) -> Result<usize, Error> {
        self.seek(SeekFrom::Current(0))
    }
}

/// Trait comparable to `std::Write` for the Flipper stream API
pub trait Write {
    /// Writes from `buf`, returning how many of its bytes were written.
    fn write(&mut self, buf: &[u8]) -> (r: Result<usize, Error>)
        ensures
            r matches Ok(n) ==> n <= buf@.len(),
    ;

    /// Flushes buffered data to storage.
    fn flush(&mut self) -> Result<(), Error>;

    /// Writes the whole of `buf`, calling `write` until nothing is left.
    ///
    /// Fails with the first error that `write` reports, and with
    /// `Error::Internal` when `write` makes no progress.
    fn write_all(&mut self, buf: &[u8]) -> Result<(), Error> {
        let mut rest: &[u8] = buf;
        while rest.len() > 0
            decreases rest@.len(),
        {
            match self.write(rest) {
                Ok(0) => {
                    return Err(Error::Internal);
                },
                Ok(n) => {
                    rest = rest.split_at(n).1;
                },
                Err(e) => {
                    return Err(e);
                },
            }
        }
        Ok(())
    }
}

} // verus!
