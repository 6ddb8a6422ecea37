//! Small byte- and mode-level helpers shared by the connection code.

use vstd::prelude::*;

use crate::error::Error;
use crate::error::NixError;

verus! {

/// Index of the first zero byte of `data`, if it holds one.
pub fn get_first_null_position(data: &[u8]) -> (position: Option<usize>)
    ensures
        match position {
            Some(i) => {
                &&& i < data@.len()
                &&& data@[i as int] == 0
                &&& forall|j: int| 0 <= j < i ==> data@[j] != 0
            },
            None => forall|j: int| 0 <= j < data@.len() ==> data@[j] != 0,
        },
{
    let mut i: usize = 0;
    while i < data.len()
        invariant
            i <= data@.len(),
            forall|j: int| 0 <= j < i ==> data@[j] != 0,
        decreases data@.len() - i,
    {
        if data[i] == 0 {
            return Some(i);
        }
        i += 1;
    }
    None
}

/// Number of bytes that pad `size` up to the next multiple of eight.
pub open spec fn padding_size(size: nat) -> nat {
    ((8 - size % 8) % 8) as nat
}

/// Padding that brings a directory entry of `dir_entry_size` bytes to a
/// 64-bit boundary.
pub fn get_padding_size(dir_entry_size: usize) -> (padding: usize)
    requires
        dir_entry_size + 7 <= usize::MAX,
    ensures
        padding == padding_size(dir_entry_size as nat),
        padding < 8,
        (dir_entry_size + padding) % 8 == 0,
{
    let rounded: usize = dir_entry_size + 7;
    let entry_size: usize = rounded & !7usize;
    assert(rounded & !7usize == rounded - rounded % 8) by (bit_vector);
    entry_size - dir_entry_size
}

/// Mode word for a file whose kind contributes the bits `kind`.
pub open spec fn mode_of(kind: u32, perm: u16) -> u32 {
    kind | (perm as u32)
}

/// Permission bits left when the bits of `kind` are taken out of `mode`.
pub open spec fn perm_of(kind: u32, mode: u32) -> u16 {
    ((mode ^ kind) & 0xffff) as u16
}

/// Returns the mode for a given file kind and permission. `kind` is the
/// kind's share of the mode word.
pub fn mode_from_kind_and_perm(kind: u32, perm: u16) -> (mode: u32)
    ensures
        mode == mode_of(kind, perm),
{
    kind | perm as u32
}

/// Returns the permission for a given file kind and mode. `kind` is the
/// kind's share of the mode word.
pub fn perm_from_mode_and_kind(kind: u32, mode: u32) -> (perm: u16)
    ensures
        perm == perm_of(kind, mode),
{
    let bits: u32 = mode ^ kind;
    assert(bits as u16 == ((bits & 0xffff) as u16)) by (bit_vector);
    #[verifier::truncate]
    (bits as u16)
}

/// Building a mode from a kind and a permission and taking the kind out
/// again gives the permission back, as long as the two share no bit.
pub proof fn lemma_perm_survives_mode(kind: u32, perm: u16)
    requires
        kind & (perm as u32) == 0,
    ensures
        perm_of(kind, mode_of(kind, perm)) == perm,
{
    assert((((kind | (perm as u32)) ^ kind) & 0xffff) as u16 == perm) by (bit_vector)
        requires
            kind & (perm as u32) == 0,
    ;
}

/// The failure of a system-call binding, as this crate reports it.
pub open spec fn io_error_of(err: NixError) -> Error {
    match err {
        NixError::Sys(errno) => Error::Os(errno),
        NixError::UnsupportedOperation => Error::Unsupported,
        NixError::InvalidPath | NixError::InvalidUtf8 => Error::InvalidInput,
    }
}

/// Turns the failure of a system-call binding into this crate's error: an
/// error number stays an error number, an argument the binding could not
/// pass on is invalid input, and a missing operation is unsupported.
pub fn io_error_from_nix_error(err: NixError) -> (error: Error)
    ensures
        error == io_error_of(err),
{
    match err {
        NixError::Sys(errno) => Error::Os(errno),
        NixError::UnsupportedOperation => Error::Unsupported,
        NixError::InvalidPath | NixError::InvalidUtf8 => Error::InvalidInput,
    }
}

/// Runs a closure on a value and hands the value back.
pub trait Apply: Sized {
    fn apply<F>(self, f: F) -> (applied: Self) where F: FnOnce(&mut Self)
        requires
            forall|r: &mut Self| *r == self ==> f.requires((r,)),
        ensures
            exists|r: &mut Self| *r == self && *final(r) == applied && f.ensures((r,), ()),
    {
        let mut this = self;
        f(&mut this);
        this
    }
}

impl<T> Apply for T {
}

} // verus!
