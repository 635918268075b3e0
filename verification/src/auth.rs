//! The authorisation record that is handed to the native library when a
//! connection is opened with explicit credentials.

use vstd::prelude::*;

verus! {

/// The lengths of an authorisation's name and data, in the width that the
/// native library takes them.
#[derive(Debug, Clone, Copy, PartialEq, Eq)]
pub struct AuthInfo {
    /// Length of the authorisation protocol's name.
    pub namelen: i32,
    /// Length of the authorisation data.
    pub datalen: i32,
}

/// Whether a length fits the native library's width.
pub open spec fn fits_native(len: nat) -> bool {
    len <= i32::MAX
}

/// The authorisation record for the given name and data. `None` where one of
/// them is longer than the native library can be told.
pub fn auth_info(auth_name: &[u8], auth_data: &[u8]) -> (info: Option<AuthInfo>)
    ensures
        info is Some <==> fits_native(auth_name@.len()) && fits_native(auth_data@.len()),
        info matches Some(i) ==> i.namelen == auth_name@.len() && i.datalen == auth_data@.len(),
{
    let namelen = auth_name.len();
    let datalen = auth_data.len();
    if namelen > i32::MAX as usize || datalen > i32::MAX as usize {
        return None;
    }
    Some(AuthInfo { namelen: namelen as i32, datalen: datalen as i32 })
}

} // verus!
