//! The scalar types of the foreign interface declarations, and the argument
//! records of the dispatch interface.

use vstd::prelude::*;

verus! {

pub type BOOL = u32;

pub type DWORD = u32;

pub type LONG = i32;

pub type ULONG = u32;

pub type WORD = u16;

pub type LCID = DWORD;

pub type DISPID = LONG;

pub type MEMBERID = DISPID;

pub type OLECHAR = u16;

/// The address of a foreign object, or of anything else on the foreign side.
/// Zero is the null address.
pub type ComPtr = usize;

/// The arguments of one call through the dispatch interface: where the
/// argument values and the identifiers of the named ones lie, and how many
/// there are of each.
#[allow(non_snake_case)]
#[derive(Clone, Copy, Debug, PartialEq, Eq, Structural)]
pub struct DISPPARAMS {
    pub rgvarg: ComPtr,
    pub rgdispidNamedArgs: ComPtr,
    pub cArgs: u32,
    pub cNamedArgs: u32,
}

/// A value of the dispatch interface. Its content is the foreign side's
/// business; this library only names it.
#[derive(Clone, Copy, Debug, PartialEq, Eq, Structural)]
pub struct VARIANT;

/// The record in which a dispatch call reports an exception. Its content is
/// the foreign side's business; this library only names it.
#[derive(Clone, Copy, Debug, PartialEq, Eq, Structural)]
pub struct EXCEPINFO;

} // verus!
