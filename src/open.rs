//! The flags a file is opened with, from the options asked for.
use vstd::prelude::*;

verus! {

/// How a file is to be opened.
#[derive(Clone, Copy, Debug, PartialEq, Eq, Structural)]
pub struct OpenOptions {
    pub read: bool,
    pub write: bool,
    pub append: bool,
    pub truncate: bool,
    pub create: bool,
    pub create_new: bool,
}

/// The `open(2)` flag bits of the target.
#[derive(Clone, Copy, Debug, PartialEq, Eq, Structural)]
pub struct OpenFlagBits {
    pub rdonly: i32,
    pub wronly: i32,
    pub rdwr: i32,
    pub append: i32,
    pub trunc: i32,
    pub creat: i32,
    pub excl: i32,
}

/// Relies on libc's `O_RDONLY`, `O_WRONLY`, `O_RDWR`, `O_APPEND`, `O_TRUNC`,
/// `O_CREAT` and `O_EXCL`. The access modes are 0, 1 and 2 on every Linux
/// target; the other values differ between targets.
#[verifier::external_body]
fn libc_open_flag_bits() -> (r: OpenFlagBits)
    ensures
        r.rdonly == 0,
        r.wronly == 1,
        r.rdwr == 2,
{
    OpenFlagBits {
        rdonly: libc::O_RDONLY,
        wronly: libc::O_WRONLY,
        rdwr: libc::O_RDWR,
        append: libc::O_APPEND,
        trunc: libc::O_TRUNC,
        creat: libc::O_CREAT,
        excl: libc::O_EXCL,
    }
}

/// The flags for `o`: the access mode, then append, truncate, create (asked
/// by `create` or `create_new`) and exclusive creation (by `create_new`).
pub open spec fn open_flags_spec(o: OpenOptions, b: OpenFlagBits) -> i32 {
    let access = if o.read && !o.write {
        b.rdonly
    } else if !o.read && o.write {
        b.wronly
    } else if o.read && o.write {
        b.rdwr
    } else {
        0
    };
    let f1 = if o.append { access | b.append } else { access };
    let f2 = if o.truncate { f1 | b.trunc } else { f1 };
    let f3 = if o.create || o.create_new { f2 | b.creat } else { f2 };
    if o.create_new { f3 | b.excl } else { f3 }
}

/// The flags for `o`, given the target's flag bits.
pub fn open_flags_with(o: &OpenOptions, b: &OpenFlagBits) -> (r: i32)
    ensures
        r == open_flags_spec(*o, *b),
{
    let mut flags = if o.read && !o.write {
        b.rdonly
    } else if !o.read && o.write {
        b.wronly
    } else if o.read && o.write {
        b.rdwr
    } else {
        0
    };
    if o.append {
        flags = flags | b.append;
    }
    if o.truncate {
        flags = flags | b.trunc;
    }
    if o.create || o.create_new {
        flags = flags | b.creat;
    }
    if o.create_new {
        flags = flags | b.excl;
    }
    flags
}

impl OpenOptions {
    /// Options that ask for nothing.
    pub fn new() -> (r: OpenOptions)
        ensures
            !r.read && !r.write && !r.append && !r.truncate && !r.create && !r.create_new,
    {
        OpenOptions { read: false, write: false, append: false, truncate: false, create: false, create_new: false }
    }

    /// Asks for read access.
    pub fn read(self, v: bool) -> (r: OpenOptions)
        ensures
            r == (OpenOptions { read: v, ..self }),
    {
        OpenOptions { read: v, ..self }
    }

    /// Asks for write access.
    pub fn write(self, v: bool) -> (r: OpenOptions)
        ensures
            r == (OpenOptions { write: v, ..self }),
    {
        OpenOptions { write: v, ..self }
    }

    /// Asks for writes to go to the end of the file.
    pub fn append(self, v: bool) -> (r: OpenOptions)
        ensures
            r == (OpenOptions { append: v, ..self }),
    {
        OpenOptions { append: v, ..self }
    }

    /// Asks for the file to be truncated to length 0.
    pub fn truncate(self, v: bool) -> (r: OpenOptions)
        ensures
            r == (OpenOptions { truncate: v, ..self }),
    {
        OpenOptions { truncate: v, ..self }
    }

    /// Asks for the file to be created if it does not exist.
    pub fn create(self, v: bool) -> (r: OpenOptions)
        ensures
            r == (OpenOptions { create: v, ..self }),
    {
        OpenOptions { create: v, ..self }
    }

    /// Asks for a new file, failing if it exists.
    pub fn create_new(self, v: bool) -> (r: OpenOptions)
        ensures
            r == (OpenOptions { create_new: v, ..self }),
    {
        OpenOptions { create_new: v, ..self }
    }

    /// The `open(2)` flags for these options on this target.
    pub fn flags(&self) -> (r: i32)
        ensures
            exists|b: OpenFlagBits|
                b.rdonly == 0 && b.wronly == 1 && b.rdwr == 2 && r == #[trigger] open_flags_spec(*self, b),
    {
        let b = libc_open_flag_bits();
        open_flags_with(self, &b)
    }
}

} // verus!
