//! Values exchanged with the host's disk imports.

use vstd::prelude::*;
use vstd::string::StringExecFns;
use vstd::string::StringSliceAdditionalSpecFns;

verus! {

pub open spec fn has_nul(b: Seq<u8>) -> bool {
    exists|i: int| 0 <= i < b.len() && b[i] == 0
}

/// Encodes a name as the NUL-terminated byte string that `disk_open` takes,
/// or `None` where the name holds a NUL byte of its own.
pub fn host_name(name: &str) -> (r: Option<Vec<u8>>)
    ensures
        r is None <==> has_nul(name.spec_bytes()),
        r matches Some(b) ==> b@ == name.spec_bytes().push(0),
{
    let bytes = name.as_bytes();
    let mut out: Vec<u8> = Vec::new();
    let mut i: usize = 0;
    while i < bytes.len()
        invariant
            i <= bytes@.len(),
            bytes@ == name.spec_bytes(),
            out@ == bytes@.subrange(0, i as int),
            forall|j: int| 0 <= j < i ==> bytes@[j] != 0,
        decreases bytes@.len() - i,
    {
        if bytes[i] == 0 {
            return None;
        }
        out.push(bytes[i]);
        i = i + 1;
    }
    assert(out@ == bytes@);
    out.push(0);
    Some(out)
}

/// A zero-filled buffer of `length` bytes, which the host fills in place.
pub fn zeroed(length: usize) -> (r: Vec<u8>)
    ensures
        r@ == Seq::new(length as nat, |i: int| 0u8),
{
    let mut out: Vec<u8> = Vec::new();
    let mut i: usize = 0;
    while i < length
        invariant
            i <= length,
            out@ == Seq::new(i as nat, |j: int| 0u8),
        decreases length - i,
    {
        out.push(0);
        i = i + 1;
        assert(out@ =~= Seq::new(i as nat, |j: int| 0u8));
    }
    out
}

/// A string made of two parts.
pub fn joined(a: &str, b: &str) -> (r: String)
    ensures
        r@ == a@ + b@,
{
    let mut s = String::from_str(a);
    s.append(b);
    s
}

} // verus!
