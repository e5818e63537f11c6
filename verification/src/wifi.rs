//! The decision kernel of the WiFi station setup.
//!
//! Connecting goes: check the configured credentials, scan, pick the
//! channel of the access point that broadcasts the configured SSID, then
//! hand everything to the network stack.  The checking and the picking are
//! decided here; scanning and connecting stay with the caller.

use vstd::prelude::*;

verus! {

/// What the setup reads from one scanned access point.
#[derive(Debug)]
pub struct AccessPoint {
    pub ssid: String,
    pub channel: u8,
}

/// A credential the configuration left empty.
#[derive(Clone, Copy, Debug, PartialEq, Eq, Structural)]
pub enum WifiError {
    MissingSsid,
    MissingPassword,
}

/// Rejects empty credentials before any connection attempt: an empty SSID
/// first, then an empty password.
pub fn validate_credentials(ssid: &str, password: &str) -> (r: Result<(), WifiError>)
    ensures
        match r {
            Ok(_) => ssid@.len() > 0 && password@.len() > 0,
            Err(e) => (e == WifiError::MissingSsid && ssid@.len() == 0) || (e
                == WifiError::MissingPassword && ssid@.len() > 0 && password@.len() == 0),
        },
{
    if ssid.is_empty() {
        Err(WifiError::MissingSsid)
    } else if password.is_empty() {
        Err(WifiError::MissingPassword)
    } else {
        Ok(())
    }
}

/// The channel of the first scanned access point whose SSID is `target`,
/// or `None` when no scanned access point broadcasts it.
pub fn select_channel(target: &String, aps: &Vec<AccessPoint>) -> (r: Option<u8>)
    ensures
        match r {
            Some(ch) => exists|i: int|
                #![auto]
                0 <= i < aps@.len() && aps@[i].ssid@ == target@ && ch == aps@[i].channel && (forall|
                    k: int,
                |
                    0 <= k < i ==> aps@[k].ssid@ != target@),
            None => forall|i: int| #![auto] 0 <= i < aps@.len() ==> aps@[i].ssid@ != target@,
        },
{
    let mut i: usize = 0;
    while i < aps.len()
        invariant
            i <= aps@.len(),
            forall|k: int| #![auto] 0 <= k < i ==> aps@[k].ssid@ != target@,
        decreases aps@.len() - i,
    {
        if aps[i].ssid == *target {
            return Some(aps[i].channel);
        }
        i = i + 1;
    }
    None
}

} // verus!
