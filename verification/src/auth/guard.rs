//! Who may do what: every request is authenticated by the session
//! authority, and managing is for admins.

use vstd::prelude::*;
use crate::auth::headers::{get_claims_from_headers, resolve, AuthHeaders, AuthHeadersModel};
use crate::model::refusal_view;
use crate::auth::models::{Claims, ClaimsModel};
use crate::ident::{parse_id, uuid_value};

verus! {

/// The claims of a request that comes from an admin. A request from
/// someone else is forbidden with status 403; one that is not
/// authenticated is refused as the session authority refuses it.
pub open spec fn admin_of(headers: AuthHeadersModel, secret: Option<Seq<char>>, now: u64) -> Result<
    ClaimsModel,
    (u16, Seq<char>),
> {
    match resolve(headers, secret, now) {
        Err(e) => Err(e),
        Ok(claims) => if claims.is_admin {
            Ok(claims)
        } else {
            Err((403, "Admin access required"@))
        },
    }
}

/// The identifier of the principal of a request. Claims whose subject is
/// no identifier are refused with status 401.
pub open spec fn principal_of(headers: AuthHeadersModel, secret: Option<Seq<char>>, now: u64) -> Result<
    u128,
    (u16, Seq<char>),
> {
    match resolve(headers, secret, now) {
        Err(e) => Err(e),
        Ok(claims) => match uuid_value(claims.sub) {
            Some(id) => Ok(id),
            None => Err((401, "Invalid user ID"@)),
        },
    }
}

/// The claims of a request that may scan at a venue: it comes from staff,
/// that is from an admin. A request that is not authenticated is refused
/// with status 401, whatever is wrong with it; one from someone else is
/// forbidden with status 403.
pub open spec fn scan_actor(headers: AuthHeadersModel, secret: Option<Seq<char>>, now: u64) -> Result<
    ClaimsModel,
    (u16, Seq<char>),
> {
    match resolve(headers, secret, now) {
        Err(_) => Err((401, "Unauthorized"@)),
        Ok(claims) => if claims.is_admin {
            Ok(claims)
        } else {
            Err((403, "Admin access required"@))
        },
    }
}

/// Admits a scan only from staff.
pub fn authorize_scan(headers: &AuthHeaders, secret: Option<&str>, now: u64) -> (r: Result<
    Claims,
    (u16, String),
>)
    ensures
        refusal_view(r) == scan_actor(headers.deep_view(), secret.deep_view(), now),
{
    match get_claims_from_headers(headers, secret, now) {
        Err(_) => Err((401, String::from_str("Unauthorized"))),
        Ok(claims) => if claims.is_admin {
            Ok(claims)
        } else {
            Err((403, String::from_str("Admin access required")))
        },
    }
}

/// Admits a request only from an admin.
pub fn require_admin(headers: &AuthHeaders, secret: Option<&str>, now: u64) -> (r: Result<
    Claims,
    (u16, String),
>)
    ensures
        refusal_view(r) == admin_of(headers.deep_view(), secret.deep_view(), now),
{
    match get_claims_from_headers(headers, secret, now) {
        Err(e) => Err(e),
        Ok(claims) => if claims.is_admin {
            Ok(claims)
        } else {
            Err((403, String::from_str("Admin access required")))
        },
    }
}

/// Admits a request from any authenticated principal and names it.
pub fn require_principal(headers: &AuthHeaders, secret: Option<&str>, now: u64) -> (r: Result<
    u128,
    (u16, String),
>)
    ensures
        (match r {
            Ok(id) => Ok(id),
            Err((status, message)) => Err((status, message@)),
        }) == principal_of(headers.deep_view(), secret.deep_view(), now),
{
    match get_claims_from_headers(headers, secret, now) {
        Err(e) => Err(e),
        Ok(claims) => match parse_id(claims.sub.as_str()) {
            Some(id) => Ok(id),
            None => Err((401, String::from_str("Invalid user ID"))),
        },
    }
}

/// Whether activities of every status are listed for a request: only for
/// an admin. Everyone else sees what is published.
pub fn sees_all_activities(headers: &AuthHeaders, secret: Option<&str>, now: u64) -> (r: bool)
    ensures
        r == (match resolve(headers.deep_view(), secret.deep_view(), now) {
            Ok(claims) => claims.is_admin,
            Err(_) => false,
        }),
{
    match get_claims_from_headers(headers, secret, now) {
        Ok(claims) => claims.is_admin,
        Err(_) => false,
    }
}

} // verus!
