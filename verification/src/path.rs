//! Path names as the codec sees them: byte strings that may or may not be
//! text, that are joined below a directory and handed over NUL-terminated.

use crate::error::{LibArchiveError, LibArchiveResult};
use vstd::prelude::*;
use vstd::utf8::{decode_utf8, valid_utf8};

verus! {

/// The text of a byte string that may be absent: none where there are no
/// bytes at all or where they are not UTF-8.
pub open spec fn decoded_text(data: Option<Seq<u8>>) -> Option<Seq<char>> {
    match data {
        Some(bytes) => if valid_utf8(bytes) {
            Some(decode_utf8(bytes))
        } else {
            None
        },
        None => None,
    }
}

/// `std::str::from_utf8`, with the text copied into a `String`: the call
/// succeeds exactly on well-formed UTF-8, and the text is then what the
/// bytes decode to.
#[verifier::external_body]
fn utf8_to_string(bytes: &[u8]) -> (text: Option<String>)
    ensures
        text is Some <==> valid_utf8(bytes@),
        text matches Some(s) ==> s@ == decode_utf8(bytes@),
{
    match std::str::from_utf8(bytes) {
        Ok(s) => Some(s.to_owned()),
        Err(_) => None,
    }
}

/// Decodes the bytes of a C string, if there is one.
pub fn convert_c_char_to_string(data: Option<&[u8]>) -> (text: Option<String>)
    ensures
        (match text {
            Some(s) => Some(s@),
            None => None,
        }) == decoded_text(
            match data {
                Some(bytes) => Some(bytes@),
                None => None,
            },
        ),
{
    match data {
        None => None,
        Some(bytes) => utf8_to_string(bytes),
    }
}

/// The name of an entry, from the bytes the codec stored for it. An entry
/// without a name, or with one that is not text, has no usable name.
pub fn get_pathname_from_entry(pathname: Option<&[u8]>) -> (name: LibArchiveResult<String>)
    ensures
        match decoded_text(
            match pathname {
                Some(bytes) => Some(bytes@),
                None => None,
            },
        ) {
            Some(text) => name matches Ok(s) && s@ == text,
            None => name == Err::<String, LibArchiveError>(
                LibArchiveError::FailedGetPathNameFromEntry,
            ),
        },
{
    match convert_c_char_to_string(pathname) {
        Some(name) => Ok(name),
        None => Err(LibArchiveError::FailedGetPathNameFromEntry),
    }
}

/// Appends a copy of `src` to `dst`.
pub fn append_bytes(dst: &mut Vec<u8>, src: &[u8])
    ensures
        final(dst)@ == old(dst)@ + src@,
{
    let mut i: usize = 0;
    while i < src.len()
        invariant
            i <= src@.len(),
            dst@ == old(dst)@ + src@.subrange(0, i as int),
        decreases src@.len() - i,
    {
        dst.push(src[i]);
        i = i + 1;
        assert(dst@ =~= old(dst)@ + src@.subrange(0, i as int));
    }
    assert(src@.subrange(0, i as int) =~= src@);
}

/// The byte that separates the components of a path.
pub const SEPARATOR: u8 = 0x2f;

/// Where an entry named `name` goes below the directory `dir`. A name that
/// starts at the root stands for itself; so does any name when there is no
/// directory. Otherwise the name follows the directory, with one separator
/// between them unless the directory already ends in one. Nothing is
/// removed from the name: `..` components stay as they are.
pub open spec fn joined(dir: Seq<u8>, name: Seq<u8>) -> Seq<u8> {
    if name.len() > 0 && name[0] == SEPARATOR {
        name
    } else if dir.len() == 0 {
        name
    } else if dir[dir.len() - 1] == SEPARATOR {
        dir + name
    } else {
        dir + seq![SEPARATOR] + name
    }
}

/// Joins the name of an entry to the directory it is extracted to.
pub fn join_destination(dir: &[u8], name: &[u8]) -> (path: Vec<u8>)
    ensures
        path@ == joined(dir@, name@),
{
    let mut path: Vec<u8> = Vec::new();
    if name.len() > 0 && name[0] == SEPARATOR {
        append_bytes(&mut path, name);
        assert(path@ =~= name@);
    } else if dir.len() == 0 {
        append_bytes(&mut path, name);
        assert(path@ =~= name@);
    } else if dir[dir.len() - 1] == SEPARATOR {
        append_bytes(&mut path, dir);
        append_bytes(&mut path, name);
        assert(path@ =~= dir@ + name@);
    } else {
        append_bytes(&mut path, dir);
        path.push(SEPARATOR);
        append_bytes(&mut path, name);
        assert(path@ =~= dir@ + seq![SEPARATOR] + name@);
    }
    path
}

/// A byte string as the codec takes it, closed by a NUL byte. A string that
/// holds a NUL byte itself cannot be handed over.
pub open spec fn terminated(bytes: Seq<u8>) -> Option<Seq<u8>> {
    if bytes.contains(0u8) {
        None
    } else {
        Some(bytes + seq![0u8])
    }
}

/// Closes a byte string with a NUL byte, unless it holds one already.
pub fn nul_terminated(bytes: &[u8]) -> (out: Option<Vec<u8>>)
    ensures
        (match out {
            Some(v) => Some(v@),
            None => None,
        }) == terminated(bytes@),
{
    let mut out: Vec<u8> = Vec::new();
    let mut i: usize = 0;
    while i < bytes.len()
        invariant
            i <= bytes@.len(),
            out@ == bytes@.subrange(0, i as int),
            forall|j: int| 0 <= j < i ==> bytes@[j] != 0u8,
        decreases bytes@.len() - i,
    {
        if bytes[i] == 0 {
            assert(bytes@.contains(0u8));
            return None;
        }
        out.push(bytes[i]);
        i = i + 1;
        assert(out@ =~= bytes@.subrange(0, i as int));
    }
    assert(bytes@.subrange(0, i as int) =~= bytes@);
    assert(!bytes@.contains(0u8));
    out.push(0);
    Some(out)
}

} // verus!
