//! Where a node's identity comes from: a random identifier, the host name
//! and the local address, each read once at startup.
use vstd::prelude::*;

verus! {

/// A lowercase hexadecimal digit.
pub open spec fn is_lower_hex(c: char) -> bool {
    ('0' <= c && c <= '9') || ('a' <= c && c <= 'f')
}

/// The hyphenated form of a UUID: 32 lowercase hex digits in groups of
/// 8, 4, 4, 4 and 12, separated by `-`.
pub open spec fn is_hyphenated_uuid(s: Seq<char>) -> bool {
    &&& s.len() == 36
    &&& forall|i: int|
        0 <= i < 36 ==> if i == 8 || i == 13 || i == 18 || i == 23 {
            s[i] == '-'
        } else {
            is_lower_hex(#[trigger] s[i])
        }
}

/// Relies on `uuid::Uuid::new_v4` and the `Display` of `Uuid`: a random
/// identifier, written in its hyphenated lowercase form.
#[verifier::external_body]
pub(crate) fn random_device_id() -> (r: String)
    ensures
        is_hyphenated_uuid(r@),
{
    uuid::Uuid::new_v4().to_string()
}

/// Relies on `hostname::get`: this machine's name (lossily decoded), or
/// `None` where the system does not give one.
#[verifier::external_body]
pub(crate) fn host_name() -> (r: Option<String>) {
    match hostname::get() {
        Ok(h) => Some(h.to_string_lossy().to_string()),
        Err(_) => None,
    }
}

/// Relies on `local_ip_address::local_ip`: the address of this machine's
/// main interface, written out, or `None` where none is found.
#[verifier::external_body]
pub(crate) fn local_ip_text() -> (r: Option<String>) {
    match local_ip_address::local_ip() {
        Ok(ip) => Some(ip.to_string()),
        Err(_) => None,
    }
}

} // verus!
