//! Decisions of the HTTP services that do not depend on I/O: admin API-key
//! access, readiness, and the status that a health probe answers with.

use vstd::prelude::*;

use crate::text::str_eq;

verus! {

/// The outcome of checking a request's `x-api-key` header.
#[derive(Clone, Copy, Debug, PartialEq, Eq, Structural)]
pub enum AdminAccess {
    /// No admin keys are configured: the admin API is unavailable (500).
    NotConfigured,
    /// The key is missing or not one of the configured keys (401).
    Denied,
    /// The key is one of the configured keys: the request goes on.
    Granted,
}

pub open spec fn admin_access_of(keys: Seq<String>, provided: Option<Seq<char>>) -> AdminAccess {
    if keys.len() == 0 {
        AdminAccess::NotConfigured
    } else {
        match provided {
            Some(k) => if exists|i: int| 0 <= i < keys.len() && (#[trigger] keys[i])@ == k {
                AdminAccess::Granted
            } else {
                AdminAccess::Denied
            },
            None => AdminAccess::Denied,
        }
    }
}

impl AdminAccess {
    /// The HTTP status that the middleware answers with, when it answers itself.
    pub fn status(&self) -> (r: Option<u16>)
        ensures
            r == match *self {
                AdminAccess::NotConfigured => Some(500u16),
                AdminAccess::Denied => Some(401u16),
                AdminAccess::Granted => None,
            },
    {
        match self {
            AdminAccess::NotConfigured => Some(500),
            AdminAccess::Denied => Some(401),
            AdminAccess::Granted => None,
        }
    }
}

/// API key authentication for admin routes: decides on the configured keys and
/// the request's `x-api-key` header value (`None` when absent or unreadable).
pub fn admin_access(admin_keys: &Vec<String>, provided: Option<&str>) -> (r: AdminAccess)
    ensures
        r == admin_access_of(
            admin_keys@,
            match provided {
                Some(k) => Some(k@),
                None => None,
            },
        ),
{
    if admin_keys.len() == 0 {
        return AdminAccess::NotConfigured;
    }
    let key = match provided {
        Some(k) => k,
        None => return AdminAccess::Denied,
    };
    let mut i: usize = 0;
    while i < admin_keys.len()
        invariant
            i <= admin_keys@.len(),
            admin_keys@.len() > 0,
            provided == Some(key),
            forall|j: int| 0 <= j < i ==> (#[trigger] admin_keys@[j])@ != key@,
        decreases admin_keys@.len() - i,
    {
        if str_eq(admin_keys[i].as_str(), key) {
            assert((admin_keys@[i as int])@ == key@);
            return AdminAccess::Granted;
        }
        i = i + 1;
    }
    AdminAccess::Denied
}

/// The gateway is ready when its database answers and a webhook secret is set.
pub fn gateway_ready(database_ok: bool, github_webhook_secret: &str) -> (r: bool)
    ensures
        r == (database_ok && github_webhook_secret@.len() != 0),
{
    database_ok && github_webhook_secret.unicode_len() != 0
}

/// The API is ready when its database answers and admin keys are configured.
pub fn api_ready(database_ok: bool, admin_keys: &Vec<String>) -> (r: bool)
    ensures
        r == (database_ok && admin_keys@.len() != 0),
{
    database_ok && admin_keys.len() != 0
}

/// The status of a health or readiness probe: 200 when up, 503 otherwise.
pub fn probe_status(up: bool) -> (r: u16)
    ensures
        r == if up {
            200u16
        } else {
            503u16
        },
{
    if up {
        200
    } else {
        503
    }
}

} // verus!
