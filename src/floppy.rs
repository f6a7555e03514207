//! Floppy loader: reads a whole host-resident image in one go, for the
//! format parser to decode.
//!
//! The steps mirror the disk adapter's, but the handle is never kept: once
//! the size is known the image is read (if it is not empty) and the handle
//! closed before the bytes are parsed.

use crate::host::{has_nul, host_name, joined, zeroed};
use vstd::prelude::*;
use vstd::string::StringSliceAdditionalSpecFns;

verus! {

/// The next step of loading a floppy image.
pub enum FloppyAction {
    /// Call `disk_open` with this NUL-terminated name.
    Open(Vec<u8>),
    /// Call `disk_size` on the handle.
    QuerySize(i32),
    /// Loading failed and no handle is held.
    Fail(String),
}

pub enum FloppyStep {
    Open(Seq<u8>),
    QuerySize(i32),
    Fail(Seq<char>),
}

impl View for FloppyAction {
    type V = FloppyStep;

    open spec fn view(&self) -> FloppyStep {
        match self {
            FloppyAction::Open(b) => FloppyStep::Open(b@),
            FloppyAction::QuerySize(id) => FloppyStep::QuerySize(*id),
            FloppyAction::Fail(m) => FloppyStep::Fail(m@),
        }
    }
}

/// The whole-image read that follows the size query. The embedding program
/// calls `disk_read` into `buffer` when `read` is set, then `disk_close` on
/// the handle in every case, and hands `buffer` to the parser.
pub struct FloppyRead {
    pub disk_id: i32,
    pub buffer: Vec<u8>,
    pub read: bool,
}

pub open spec fn floppy_nul_message() -> Seq<char> {
    "Floppy name contains an embedded null byte"@
}

pub open spec fn floppy_not_found_message(name: Seq<char>) -> Seq<char> {
    "Floppy not found: "@ + name
}

pub open spec fn floppy_load_message(name: Seq<char>, err: Seq<char>) -> Seq<char> {
    "Cannot load floppy image "@ + name + ": "@ + err
}

/// Starts loading: the name to hand `disk_open`, or a failure where the
/// name holds a NUL byte (no host call is made then).
pub fn load_floppy_image(name: &str) -> (r: FloppyAction)
    ensures
        r@ == if has_nul(name.spec_bytes()) {
            FloppyStep::Fail(floppy_nul_message())
        } else {
            FloppyStep::Open(name.spec_bytes().push(0))
        },
{
    match host_name(name) {
        Some(b) => FloppyAction::Open(b),
        None => FloppyAction::Fail(String::from_str("Floppy name contains an embedded null byte")),
    }
}

/// Judges the handle that `disk_open` returned.
pub fn floppy_on_open(name: &str, disk_id: i32) -> (r: FloppyAction)
    ensures
        r@ == if disk_id < 0 {
            FloppyStep::Fail(floppy_not_found_message(name@))
        } else {
            FloppyStep::QuerySize(disk_id)
        },
{
    if disk_id < 0 {
        FloppyAction::Fail(joined("Floppy not found: ", name))
    } else {
        FloppyAction::QuerySize(disk_id)
    }
}

/// The read of the whole image once `disk_size` reported `size_bytes`: a
/// zeroed buffer of that size, read into only where it is not empty.
pub fn floppy_on_size(disk_id: i32, size_bytes: usize) -> (r: FloppyRead)
    ensures
        r.disk_id == disk_id,
        r.buffer@ == Seq::new(size_bytes as nat, |i: int| 0u8),
        r.read == (size_bytes > 0),
{
    FloppyRead { disk_id, buffer: zeroed(size_bytes), read: size_bytes > 0 }
}

/// The error for an image that the parser refused with message `err`.
pub fn floppy_load_error(name: &str, err: &str) -> (r: String)
    ensures
        r@ == floppy_load_message(name@, err@),
{
    let head = joined("Cannot load floppy image ", name);
    let head = joined(head.as_str(), ": ");
    joined(head.as_str(), err)
}

} // verus!
