//! Loaded maps: their fixed metadata, the checks every access makes before the
//! kernel is asked, and how the kernel's answer becomes the caller's result.
use vstd::prelude::*;

use crate::error::{errno_status, is_not_found, Error, Result, ENOENT};
use crate::key_iter::MapKeyIter;
use crate::map_type::MapType;

verus! {

/// The decimal digits, by value.
pub open spec fn decimal_digits() -> Seq<char> {
    seq!['0', '1', '2', '3', '4', '5', '6', '7', '8', '9']
}

/// `n` written in decimal, without leading zeros.
pub open spec fn decimal(n: nat) -> Seq<char>
    decreases n,
{
    if n < 10 {
        seq![decimal_digits()[n as int]]
    } else {
        decimal(n / 10).push(decimal_digits()[(n % 10) as int])
    }
}

/// The text of the error for a buffer of `got` bytes where `want` are needed;
/// `what` names the buffer: "`what` `got` != `want`".
pub open spec fn size_mismatch_text(what: Seq<char>, got: nat, want: nat) -> Seq<char> {
    what + seq![' '] + decimal(got) + seq![' ', '!', '=', ' '] + decimal(want)
}

/// Relies on std's `format!`: `{}` renders a `&str` as it is and an unsigned
/// integer in decimal without leading zeros.
#[verifier::external_body]
fn size_mismatch(what: &str, got: usize, want: u32) -> (r: String)
    ensures
        r@ == size_mismatch_text(what@, got as nat, want as nat),
{
    format!("{} {} != {}", what, got, want)
}

/// `r` is the error for a key of `got` bytes on a map whose keys have `want`.
pub open spec fn is_key_size_error<T>(r: Result<T>, got: nat, want: nat) -> bool {
    r matches Err(Error::InvalidInput(s)) && s@ == size_mismatch_text("key_size"@, got, want)
}

/// `r` is the error for a value of `got` bytes on a map whose values have `want`.
pub open spec fn is_value_size_error<T>(r: Result<T>, got: nat, want: nat) -> bool {
    r matches Err(Error::InvalidInput(s)) && s@ == size_mismatch_text("value_size"@, got, want)
}

/// The view of a lookup's result: the value's bytes, if any, or the error.
pub open spec fn lookup_view(r: Result<Option<Vec<u8>>>) -> core::result::Result<
    Option<Seq<u8>>,
    Error,
> {
    match r {
        Ok(Some(v)) => Ok(Some(v@)),
        Ok(None) => Ok(None),
        Err(e) => Err(e),
    }
}

/// The result of a lookup, or of a lookup-and-delete, whose kernel call returned
/// `ret` and left `errno` in the thread's errno, having written `value` on success.
/// A missing key is an expected outcome, not an error.
pub open spec fn lookup_outcome(ret: i32, errno: i32, value: Seq<u8>) -> core::result::Result<
    Option<Seq<u8>>,
    Error,
> {
    if ret == 0 {
        Ok(Some(value))
    } else if errno == ENOENT {
        Ok(None)
    } else {
        Err(Error::System(errno))
    }
}

/// Turns the kernel's answer to a lookup, or to a lookup-and-delete, into the
/// caller's result: `value` holds what the kernel wrote when `ret` is zero.
pub fn lookup_result(ret: i32, errno: i32, value: Vec<u8>) -> (r: Result<Option<Vec<u8>>>)
    ensures
        lookup_view(r) == lookup_outcome(ret, errno, value@),
{
    if ret == 0 {
        Ok(Some(value))
    } else if is_not_found(errno) {
        Ok(None)
    } else {
        Err(Error::System(errno))
    }
}

/// A missing key is no error for a lookup but is one for a deletion: when the
/// kernel fails both calls with `ENOENT`, the lookup gives `None` and the
/// deletion gives the system error `ENOENT`.
pub proof fn lemma_absent_key_lookup_none_delete_error(ret: i32, value: Seq<u8>)
    requires
        ret != 0,
    ensures
        lookup_outcome(ret, ENOENT, value) == Ok::<Option<Seq<u8>>, Error>(None),
        errno_status(ret, ENOENT) == Err::<(), Error>(Error::System(ENOENT)),
{
}

/// Read-only access to a loaded map's metadata, and the checks that guard every
/// access to its contents.
pub trait MapOps {
    spec fn spec_fd(&self) -> i32;

    spec fn spec_name(&self) -> Seq<char>;

    spec fn spec_map_type(&self) -> MapType;

    spec fn spec_key_size(&self) -> u32;

    spec fn spec_value_size(&self) -> u32;

    /// File descriptor.
    fn fd(&self) -> (r: i32)
        ensures
            r == self.spec_fd(),
    ;

    /// Map name.
    fn name(&self) -> (r: &str)
        ensures
            r@ == self.spec_name(),
    ;

    /// Map type; `Unknown` for a kind this library does not know.
    fn map_type(&self) -> (r: MapType)
        ensures
            r == self.spec_map_type(),
    ;

    /// Key size in bytes.
    fn key_size(&self) -> (r: u32)
        ensures
            r == self.spec_key_size(),
    ;

    /// Value size in bytes.
    fn value_size(&self) -> (r: u32)
        ensures
            r == self.spec_value_size(),
    ;

    /// A zeroed buffer of `value_size` bytes, for the kernel to write a value
    /// into: what a successful lookup or lookup-and-delete returns has that size.
    fn value_buffer(&self) -> (r: Vec<u8>)
        ensures
            r@ == Seq::new(self.spec_value_size() as nat, |_i: int| 0u8),
    {
        let r = vec![0u8; self.value_size() as usize];
        proof {
            assert(r@ =~= Seq::new(self.spec_value_size() as nat, |_i: int| 0u8));
        }
        r
    }

    /// The check that precedes a lookup, a deletion or a lookup-and-delete:
    /// `key` must have exactly `key_size` bytes.
    fn check_key(&self, key: &[u8]) -> (r: Result<()>)
        ensures
            r is Ok <==> key@.len() == self.spec_key_size(),
            r is Err ==> is_key_size_error(r, key@.len(), self.spec_key_size() as nat),
    {
        let want = self.key_size();
        if key.len() != want as usize {
            return Err(Error::InvalidInput(size_mismatch("key_size", key.len(), want)));
        }
        Ok(())
    }

    /// The check that precedes an update: `key` must have exactly `key_size`
    /// bytes, then `value` exactly `value_size` bytes.
    fn check_update(&self, key: &[u8], value: &[u8]) -> (r: Result<()>)
        ensures
            r is Ok <==> (key@.len() == self.spec_key_size() && value@.len()
                == self.spec_value_size()),
            key@.len() != self.spec_key_size() ==> is_key_size_error(
                r,
                key@.len(),
                self.spec_key_size() as nat,
            ),
            key@.len() == self.spec_key_size() && value@.len() != self.spec_value_size()
                ==> is_value_size_error(r, value@.len(), self.spec_value_size() as nat),
    {
        self.check_key(key)?;
        let want = self.value_size();
        if value.len() != want as usize {
            return Err(Error::InvalidInput(size_mismatch("value_size", value.len(), want)));
        }
        Ok(())
    }
}

} // verus!

verus! {

/// A created map: the kernel's file descriptor and the metadata read at load time.
pub struct BpfMap {
    fd: i32,
    name: String,
    ty: u32,
    key_size: u32,
    value_size: u32,
}

impl BpfMap {
    /// A handle on the map behind `fd`, whose kernel type value is `ty`.
    pub fn new(fd: i32, name: String, ty: u32, key_size: u32, value_size: u32) -> (r: BpfMap)
        ensures
            r.spec_fd() == fd,
            r.spec_name() == name@,
            r.spec_map_type() == MapType::from_code(ty),
            r.spec_key_size() == key_size,
            r.spec_value_size() == value_size,
    {
        BpfMap { fd, name, ty, key_size, value_size }
    }

    /// Iterator over the keys of this map, from the first the kernel gives.
    ///
    /// If the map is updated or entries are deleted during iteration, keys may
    /// be skipped or repeated, or iteration may restart from the beginning.
    pub fn keys(&self) -> (r: MapKeyIter<'_>)
        ensures
            r.spec_prev() is None,
            r.spec_buffer().len() == self.spec_key_size(),
            r.spec_map() == *self,
    {
        MapKeyIter::new(self, self.key_size)
    }
}

impl MapOps for BpfMap {
    closed spec fn spec_fd(&self) -> i32 {
        self.fd
    }

    closed spec fn spec_name(&self) -> Seq<char> {
        self.name@
    }

    closed spec fn spec_map_type(&self) -> MapType {
        MapType::from_code(self.ty)
    }

    closed spec fn spec_key_size(&self) -> u32 {
        self.key_size
    }

    closed spec fn spec_value_size(&self) -> u32 {
        self.value_size
    }

    fn fd(&self) -> (r: i32) {
        self.fd
    }

    fn name(&self) -> (r: &str) {
        self.name.as_str()
    }

    fn map_type(&self) -> (r: MapType) {
        MapType::from_raw(self.ty)
    }

    fn key_size(&self) -> (r: u32) {
        self.key_size
    }

    fn value_size(&self) -> (r: u32) {
        self.value_size
    }
}

/// A map reached through its path in the BPF filesystem: it owns its file
/// descriptor, which whoever drops it must close.
pub struct PinnedMap {
    fd: i32,
    name: String,
    ty: u32,
    key_size: u32,
    value_size: u32,
}

impl PinnedMap {
    /// A handle on the pinned map behind `fd`, named after its file, with the
    /// type and sizes the kernel reported for it.
    pub fn new(fd: i32, name: String, ty: u32, key_size: u32, value_size: u32) -> (r: PinnedMap)
        ensures
            r.spec_fd() == fd,
            r.spec_name() == name@,
            r.spec_map_type() == MapType::from_code(ty),
            r.spec_key_size() == key_size,
            r.spec_value_size() == value_size,
    {
        PinnedMap { fd, name, ty, key_size, value_size }
    }

    /// Decides the outcome of opening a pin: `opened` is the kernel's answer
    /// to the open (the file descriptor it handed out), which comes first; then
    /// the pin must be a regular file (`is_file`), its file name must be valid
    /// unicode (`file_name`), and the kernel's record on the map (`info`: type,
    /// key size, value size) must have been read. The first condition that
    /// fails decides the error; `info` is not looked at when the open failed.
    pub fn try_new(
        opened: Result<i32>,
        is_file: bool,
        file_name: Option<String>,
        info: Result<(u32, u32, u32)>,
    ) -> (r: Result<PinnedMap>)
        ensures
            opened is Err ==> r == Err::<PinnedMap, Error>(opened->Err_0),
            opened is Ok && !is_file ==> (r matches Err(Error::InvalidInput(s)) && s@
                == "Expecting a file!"@),
            opened is Ok && is_file && file_name is None ==> (r matches Err(
                Error::InvalidInput(s),
            ) && s@ == "Filename cannot be represented as a String!"@),
            opened is Ok && is_file && file_name is Some && info is Err ==> r == Err::<
                PinnedMap,
                Error,
            >(info->Err_0),
            opened is Ok && is_file && file_name is Some && info is Ok ==> (r matches Ok(m)
                && m.spec_fd() == opened->Ok_0 && m.spec_name() == file_name->Some_0@
                && m.spec_map_type() == MapType::from_code(info->Ok_0.0) && m.spec_key_size()
                == info->Ok_0.1 && m.spec_value_size() == info->Ok_0.2),
    {
        let fd = match opened {
            Ok(fd) => fd,
            Err(e) => {
                return Err(e);
            },
        };
        if !is_file {
            return Err(Error::InvalidInput(String::from_str("Expecting a file!")));
        }
        let name = match file_name {
            Some(n) => n,
            None => {
                return Err(
                    Error::InvalidInput(
                        String::from_str("Filename cannot be represented as a String!"),
                    ),
                );
            },
        };
        match info {
            Ok((ty, key_size, value_size)) => Ok(PinnedMap::new(fd, name, ty, key_size, value_size)),
            Err(e) => Err(e),
        }
    }
}

impl MapOps for PinnedMap {
    closed spec fn spec_fd(&self) -> i32 {
        self.fd
    }

    closed spec fn spec_name(&self) -> Seq<char> {
        self.name@
    }

    closed spec fn spec_map_type(&self) -> MapType {
        MapType::from_code(self.ty)
    }

    closed spec fn spec_key_size(&self) -> u32 {
        self.key_size
    }

    closed spec fn spec_value_size(&self) -> u32 {
        self.value_size
    }

    fn fd(&self) -> (r: i32) {
        self.fd
    }

    fn name(&self) -> (r: &str) {
        self.name.as_str()
    }

    fn map_type(&self) -> (r: MapType) {
        MapType::from_raw(self.ty)
    }

    fn key_size(&self) -> (r: u32) {
        self.key_size
    }

    fn value_size(&self) -> (r: u32) {
        self.value_size
    }
}

} // verus!
