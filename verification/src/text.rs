//! Strings: comparing names, and reading NUL-terminated strings out of a
//! program's linear memory.
use vstd::prelude::*;
use vstd::string::StringSliceAdditionalSpecFns;
use vstd::utf8::{decode_utf8, valid_utf8};

verus! {

/// Whether two strings hold the same characters.
pub fn str_eq(a: &str, b: &str) -> (r: bool)
    ensures
        r == (a@ == b@),
{
    let x = a.as_bytes();
    let y = b.as_bytes();
    proof {
        vstd::utf8::encode_utf8_decode_utf8(a@);
        vstd::utf8::encode_utf8_decode_utf8(b@);
    }
    if x.len() != y.len() {
        return false;
    }
    let mut i: usize = 0;
    while i < x.len()
        invariant
            x@ == a.spec_bytes(),
            y@ == b.spec_bytes(),
            x@.len() == y@.len(),
            i <= x@.len(),
            forall|j: int| 0 <= j < i ==> x@[j] == y@[j],
        decreases x@.len() - i,
    {
        if x[i] != y[i] {
            return false;
        }
        i += 1;
    }
    assert(x@ =~= y@);
    true
}

/// `end` ends the NUL-terminated string that starts at `start`: it holds the
/// first zero byte at or after `start`.
pub open spec fn terminates_at(memory: Seq<u8>, start: int, end: int) -> bool {
    &&& start <= end < memory.len()
    &&& memory[end] == 0
    &&& forall|k: int| start <= k < end ==> memory[k] != 0
}

/// The bytes of the NUL-terminated string that starts at `start`, without
/// the terminator; `None` when memory ends before a zero byte.
pub open spec fn c_string_bytes(memory: Seq<u8>, start: int) -> Option<Seq<u8>> {
    if exists|end: int| terminates_at(memory, start, end) {
        let end = choose|end: int| terminates_at(memory, start, end);
        Some(memory.subrange(start, end))
    } else {
        None
    }
}

/// The text of the NUL-terminated string that starts at `start`; `None`
/// when there is no terminator or the bytes are not UTF-8.
pub open spec fn c_string_text(memory: Seq<u8>, start: int) -> Option<Seq<char>> {
    match c_string_bytes(memory, start) {
        Some(bytes) => if valid_utf8(bytes) {
            Some(decode_utf8(bytes))
        } else {
            None
        },
        None => None,
    }
}

/// A scan for the terminator, with 32-bit addresses, would run past the
/// last address: memory extends beyond 32-bit addresses and holds no zero
/// byte from `start` up to the last address.
pub open spec fn scan_overruns_addresses(memory: Seq<u8>, start: int) -> bool {
    &&& memory.len() > u32::MAX
    &&& forall|k: int| start <= k <= u32::MAX ==> memory[k] != 0
}

/// `std::string::String::from_utf8`: the string whose UTF-8 encoding is
/// `bytes`, or `None` when `bytes` is not valid UTF-8. Trusted: std
/// documents that it fails exactly on input that is not UTF-8, and a
/// `String` holds the characters its bytes encode.
#[verifier::external_body]
fn string_from_utf8(bytes: Vec<u8>) -> (r: Option<String>)
    ensures
        r is Some <==> valid_utf8(bytes@),
        r matches Some(s) ==> s@ == decode_utf8(bytes@),
{
    String::from_utf8(bytes).ok()
}

/// Reads the NUL-terminated UTF-8 string that starts at address `start` of
/// a program's linear memory. `None` when memory ends before a zero byte
/// or the bytes are not UTF-8.
pub fn read_c_string(memory: &[u8], start: u32) -> (r: Option<String>)
    requires
        !scan_overruns_addresses(memory@, start as int),
    ensures
        match r {
            Some(s) => c_string_text(memory@, start as int) == Some(s@),
            None => c_string_text(memory@, start as int) is None,
        },
{
    let len = memory.len();
    let first = start as usize;
    if first >= len {
        return None;
    }
    let mut end: usize = first;
    while end < len && memory[end] != 0
        invariant
            len == memory@.len(),
            first == start,
            first <= end <= len,
            forall|k: int| first <= k < end ==> memory@[k] != 0,
        decreases len - end,
    {
        end += 1;
    }
    if end == len {
        assert forall|e: int| !terminates_at(memory@, start as int, e) by {
            if terminates_at(memory@, start as int, e) {
                assert(memory@[e] != 0);
            }
        }
        return None;
    }
    assert(terminates_at(memory@, start as int, end as int));
    assert forall|e: int| terminates_at(memory@, start as int, e) implies e == end by {
        if e < end {
            assert(memory@[e] != 0);
        } else if e > end {
            assert(memory@[end as int] != 0);
        }
    }
    let mut bytes: Vec<u8> = Vec::new();
    let mut i: usize = first;
    while i < end
        invariant
            first <= i <= end < len,
            len == memory@.len(),
            bytes@ == memory@.subrange(first as int, i as int),
        decreases end - i,
    {
        bytes.push(memory[i]);
        i += 1;
    }
    string_from_utf8(bytes)
}

} // verus!
