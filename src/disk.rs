//! Block-device adapter: a host-resident disk image seen as a random-access
//! disk of fixed-size blocks.
//!
//! Construction is an exchange with the host: `JsDiskImage::open` encodes
//! the path, `on_open` judges the handle that `disk_open` returned, and
//! `on_size` judges the size that `disk_size` reported. Each returns the
//! next host call to make or the outcome.

use crate::host::{has_nul, host_name, joined, zeroed};
use vstd::prelude::*;
use vstd::string::StringSliceAdditionalSpecFns;

verus! {

/// The block size of SCSI-style disks, in bytes.
pub const DISK_BLOCKSIZE: usize = 512;

/// An adapter over a host disk handle.
pub struct JsDiskImage {
    disk_id: i32,
    size_bytes: usize,
    path: String,
}

/// What the adapter holds: the handle (negative once released), the byte
/// length and the path.
pub struct DiskModel {
    pub disk_id: i32,
    pub size: nat,
    pub path: Seq<char>,
}

impl View for JsDiskImage {
    type V = DiskModel;

    closed spec fn view(&self) -> DiskModel {
        DiskModel { disk_id: self.disk_id, size: self.size_bytes as nat, path: self.path@ }
    }
}

/// The next step of constructing an adapter.
pub enum DiskOpenAction {
    /// Call `disk_open` with this NUL-terminated name.
    Open(Vec<u8>),
    /// Call `disk_size` on the handle.
    QuerySize(i32),
    /// Construction failed and no handle is held.
    Fail(String),
    /// Call `disk_close` on the handle: construction failed with the message.
    CloseAndFail(i32, String),
    /// The adapter is ready.
    Ready(JsDiskImage),
}

pub enum DiskOpenStep {
    Open(Seq<u8>),
    QuerySize(i32),
    Fail(Seq<char>),
    CloseAndFail(i32, Seq<char>),
    Ready(DiskModel),
}

impl View for DiskOpenAction {
    type V = DiskOpenStep;

    open spec fn view(&self) -> DiskOpenStep {
        match self {
            DiskOpenAction::Open(b) => DiskOpenStep::Open(b@),
            DiskOpenAction::QuerySize(id) => DiskOpenStep::QuerySize(*id),
            DiskOpenAction::Fail(m) => DiskOpenStep::Fail(m@),
            DiskOpenAction::CloseAndFail(id, m) => DiskOpenStep::CloseAndFail(*id, m@),
            DiskOpenAction::Ready(d) => DiskOpenStep::Ready(d@),
        }
    }
}

pub open spec fn nul_message() -> Seq<char> {
    "Disk name contains an embedded null byte"@
}

pub open spec fn not_found_message(path: Seq<char>) -> Seq<char> {
    "Disk not found: "@ + path
}

pub open spec fn misaligned_message(path: Seq<char>) -> Seq<char> {
    "Cannot load disk image "@ + path + ": not multiple of 512"@
}

/// The first step: ask the host to open the encoded path.
pub open spec fn open_step(path: &str) -> DiskOpenStep {
    if has_nul(path.spec_bytes()) {
        DiskOpenStep::Fail(nul_message())
    } else {
        DiskOpenStep::Open(path.spec_bytes().push(0))
    }
}

/// The step after `disk_open` answered `disk_id`.
pub open spec fn after_open(path: Seq<char>, disk_id: i32) -> DiskOpenStep {
    if disk_id < 0 {
        DiskOpenStep::Fail(not_found_message(path))
    } else {
        DiskOpenStep::QuerySize(disk_id)
    }
}

/// The step after `disk_size` reported `size` bytes for an open handle.
pub open spec fn after_size(path: Seq<char>, disk_id: i32, size: nat) -> DiskOpenStep {
    if size % 512 != 0 {
        DiskOpenStep::CloseAndFail(disk_id, misaligned_message(path))
    } else {
        DiskOpenStep::Ready(DiskModel { disk_id, size, path })
    }
}

/// How many handles a construction step closes.
pub open spec fn step_closes(s: DiskOpenStep) -> nat {
    if s is CloseAndFail {
        1
    } else {
        0
    }
}

/// How many handles `n` successive releases of an adapter close.
pub open spec fn release_closes(d: DiskModel, n: nat) -> nat
    decreases n,
{
    if n == 0 {
        0
    } else {
        (if d.disk_id >= 0 {
            1nat
        } else {
            0nat
        }) + release_closes(DiskModel { disk_id: -1i32, ..d }, (n - 1) as nat)
    }
}

impl JsDiskImage {
    /// Starts construction from a path: the name to hand `disk_open`, or a
    /// failure where the path holds a NUL byte (no host call is made then).
    pub fn open(path: &str) -> (r: DiskOpenAction)
        ensures
            r@ == open_step(path),
    {
        match host_name(path) {
            Some(name) => DiskOpenAction::Open(name),
            None => DiskOpenAction::Fail(
                String::from_str("Disk name contains an embedded null byte"),
            ),
        }
    }

    /// Judges the handle that `disk_open` returned.
    pub fn on_open(path: &str, disk_id: i32) -> (r: DiskOpenAction)
        ensures
            r@ == after_open(path@, disk_id),
    {
        if disk_id < 0 {
            DiskOpenAction::Fail(joined("Disk not found: ", path))
        } else {
            DiskOpenAction::QuerySize(disk_id)
        }
    }

    /// Judges the size that `disk_size` reported for the open handle: an
    /// adapter where it is a whole number of blocks; otherwise the handle
    /// is to be closed and construction fails.
    pub fn on_size(path: String, disk_id: i32, size_bytes: usize) -> (r: DiskOpenAction)
        requires
            disk_id >= 0,
        ensures
            r@ == after_size(path@, disk_id, size_bytes as nat),
    {
        if size_bytes % DISK_BLOCKSIZE != 0 {
            let head = joined("Cannot load disk image ", path.as_str());
            let msg = joined(head.as_str(), ": not multiple of 512");
            DiskOpenAction::CloseAndFail(disk_id, msg)
        } else {
            DiskOpenAction::Ready(JsDiskImage { disk_id, size_bytes, path })
        }
    }

    /// The image's length in bytes.
    pub fn byte_len(&self) -> (r: usize)
        ensures
            r as nat == self@.size,
    {
        self.size_bytes
    }

    /// The host handle, negative once released.
    pub fn disk_id(&self) -> (r: i32)
        ensures
            r == self@.disk_id,
    {
        self.disk_id
    }

    /// The buffer for reading `length` bytes at `offset`: exactly `length`
    /// zero bytes, which `disk_read` on this handle overwrites in place.
    /// Bytes that the host leaves unread stay zero.
    pub fn read_bytes(&self, offset: usize, length: usize) -> (r: Vec<u8>)
        ensures
            r@ == Seq::new(length as nat, |i: int| 0u8),
    {
        zeroed(length)
    }

    /// The byte count that `disk_write` on this handle is given for `data`.
    pub fn write_bytes(&self, offset: usize, data: &[u8]) -> (r: usize)
        ensures
            r == data@.len(),
    {
        data.len()
    }

    /// The adapter keeps no copy of the image in memory.
    pub fn media_bytes(&self) -> (r: Option<&[u8]>)
        ensures
            r is None,
    {
        None
    }

    /// The path that the adapter was opened with.
    pub fn image_path(&self) -> (r: Option<&str>)
        ensures
            r matches Some(p) && p@ == self@.path,
    {
        Some(self.path.as_str())
    }

    /// Gives up the handle: the handle to pass to `disk_close`, if the
    /// adapter still held one. Afterwards it holds none, so a second release
    /// closes nothing.
    pub fn release(&mut self) -> (r: Option<i32>)
        ensures
            r == (if old(self)@.disk_id >= 0 {
                Some(old(self)@.disk_id)
            } else {
                None::<i32>
            }),
            final(self)@ == (DiskModel { disk_id: -1i32, ..old(self)@ }),
    {
        if self.disk_id >= 0 {
            let id = self.disk_id;
            self.disk_id = -1;
            Some(id)
        } else {
            self.disk_id = -1;
            None
        }
    }
}

/// A disk whose size is not a whole number of blocks is refused, with a
/// message that says so, and its handle is closed exactly once.
pub proof fn lemma_misaligned_refused(path: Seq<char>, disk_id: i32, size: nat)
    requires
        disk_id >= 0,
        size % 512 != 0,
    ensures
        after_size(path, disk_id, size) == DiskOpenStep::CloseAndFail(
            disk_id,
            misaligned_message(path),
        ),
        step_closes(after_size(path, disk_id, size)) == 1,
        misaligned_message(path).subrange(
            misaligned_message(path).len() - 19,
            misaligned_message(path).len() as int,
        ) == "not multiple of 512"@,
{
    reveal_strlit("not multiple of 512");
    reveal_strlit(": not multiple of 512");
    let m = misaligned_message(path);
    assert(m.subrange(m.len() - 19, m.len() as int) =~= "not multiple of 512"@);
}

/// Every handle that `disk_open` grants is closed exactly once: by the
/// failed construction itself, or else by the first of any number of
/// releases of the adapter that was built on it.
pub proof fn lemma_handle_closed_once(path: Seq<char>, disk_id: i32, size: nat, releases: nat)
    requires
        disk_id >= 0,
        releases >= 1,
    ensures
        after_open(path, disk_id) == DiskOpenStep::QuerySize(disk_id),
        step_closes(after_size(path, disk_id, size)) + match after_size(path, disk_id, size) {
            DiskOpenStep::Ready(d) => release_closes(d, releases),
            _ => 0,
        } == 1,
{
    if size % 512 == 0 {
        let d = DiskModel { disk_id, size, path };
        lemma_released_closes_nothing(DiskModel { disk_id: -1i32, ..d }, (releases - 1) as nat);
    }
}

/// Releasing an adapter that holds no handle closes nothing, however often.
pub proof fn lemma_released_closes_nothing(d: DiskModel, n: nat)
    requires
        d.disk_id < 0,
    ensures
        release_closes(d, n) == 0,
    decreases n,
{
    if n > 0 {
        lemma_released_closes_nothing(DiskModel { disk_id: -1i32, ..d }, (n - 1) as nat);
    }
}

} // verus!
