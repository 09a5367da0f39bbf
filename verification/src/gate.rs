//! The authentication gate: the per-request decision the auth middleware
//! makes.
//!
//! Excluded (method, path) pairs pass through untouched, credential or no
//! credential.  Everything else needs a bearer token that validates; a
//! missing or invalid one is rejected with the 401 envelope, and the
//! wrapped handler is never reached.

use vstd::prelude::*;
use crate::errors::HttpError;
use crate::errors::HttpErrorView;
use crate::exclusion::ExcludedPaths;
use crate::exclusion::HttpMethod;
use crate::identity::claims_of;
use crate::identity::spec_token_verdict;
use crate::identity::validate_token;
use crate::text::spec_split;
use crate::text::split_on;

verus! {

/// The resolved identity attached to authenticated requests.
pub struct AuthUser(pub String);

impl Clone for AuthUser {
    fn clone(&self) -> (res: Self)
        ensures
            res.0@ == self.0@,
    {
        AuthUser(self.0.clone())
    }
}

/// The token carried by a credential header: what stands after the first
/// space, up to the next one — the scheme word is not inspected.
pub open spec fn spec_bearer_token(h: Seq<char>) -> Option<Seq<char>> {
    let parts = spec_split(h, ' ');
    if parts.len() >= 2 {
        Some(parts[1])
    } else {
        None
    }
}

/// Extracts the token from a credential header value.
pub fn bearer_token(header: &str) -> (r: Option<String>)
    ensures
        match r {
            Some(t) => spec_bearer_token(header@) == Some(t@),
            None => spec_bearer_token(header@) is None,
        },
{
    let parts = split_on(header, ' ');
    if parts.len() >= 2 {
        let t = parts[1].clone();
        proof {
            assert(parts@.map_values(|p: String| p@)[1] == parts@[1]@);
        }
        Some(t)
    } else {
        None
    }
}

/// The subject a request's credential resolves to: the header must be
/// present, carry a token, and the token must validate at time `now`.
pub open spec fn spec_authorize(
    header: Option<Seq<char>>,
    secret: Seq<char>,
    now: int,
) -> Option<Seq<char>> {
    match header {
        Some(h) => match spec_bearer_token(h) {
            Some(t) => spec_token_verdict(claims_of(t, secret), now),
            None => None,
        },
        None => None,
    }
}

/// Resolves a request's credential header to a subject id; any failure —
/// absent header, absent token, invalid token — is the one `Unauthorized`
/// answer, with no detail of which check failed.
pub fn authorize_user(header: Option<&str>, secret: &str, now: u64) -> (r: Result<String, String>)
    ensures
        match r {
            Ok(s) => Some(s@) == spec_authorize(
                match header {
                    Some(h) => Some(h@),
                    None => None,
                },
                secret@,
                now as int,
            ),
            Err(e) => e@ == "Unauthorized"@ && spec_authorize(
                match header {
                    Some(h) => Some(h@),
                    None => None,
                },
                secret@,
                now as int,
            ) is None,
        },
{
    let h = match header {
        Some(h) => h,
        None => {
            return Err("Unauthorized".to_owned());
        },
    };
    let token = match bearer_token(h) {
        Some(t) => t,
        None => {
            return Err("Unauthorized".to_owned());
        },
    };
    match validate_token(token.as_str(), secret, now) {
        Ok(s) => Ok(s),
        Err(_) => Err("Unauthorized".to_owned()),
    }
}

/// How the middleware disposes of an inbound request.
pub enum GateDecision {
    /// Hand the request to the wrapped handler, with the resolved identity
    /// attached when authentication ran.
    Forward(Option<AuthUser>),
    /// Short-circuit: the wrapped handler is never invoked, this error is
    /// the response.
    Reject(HttpError),
}

/// The authentication gate middleware's configuration: the exclusion table
/// is its only state, shared immutably across in-flight requests.
pub struct AuthLayer {
    pub excluded_paths: ExcludedPaths,
}

impl Default for ExcludedPaths {
    /// An empty table: nothing is excluded.
    fn default() -> (r: ExcludedPaths)
        ensures
            forall|m: HttpMethod| (#[trigger] r.spec_templates(m)).len() == 0,
    {
        let r = ExcludedPaths {
            post: Vec::new(),
            get: Vec::new(),
            put: Vec::new(),
            patch: Vec::new(),
            delete: Vec::new(),
        };
        proof {
            assert forall|m: HttpMethod| (#[trigger] r.spec_templates(m)).len() == 0 by {}
        }
        r
    }
}

impl AuthLayer {
    /// A gate that excludes nothing.
    pub fn new() -> (r: AuthLayer)
        ensures
            forall|m: HttpMethod| (#[trigger] r.excluded_paths.spec_templates(m)).len() == 0,
    {
        AuthLayer { excluded_paths: ExcludedPaths::default() }
    }

    /// Replaces the exclusion table.
    pub fn except(self, excluded_paths: ExcludedPaths) -> (r: AuthLayer)
        ensures
            r.excluded_paths == excluded_paths,
    {
        AuthLayer { excluded_paths, ..self }
    }

    /// Decides an inbound request's fate.
    ///
    /// An excluded (method, path) pair is forwarded untouched whatever
    /// credential it carries.  A non-excluded request is forwarded with its
    /// resolved identity when its credential validates, and otherwise
    /// rejected with the 401 envelope.
    pub fn decide(
        &self,
        method: HttpMethod,
        path: &str,
        auth_header: Option<&str>,
        secret: &str,
        now: u64,
    ) -> (r: GateDecision)
        ensures
            self.excluded_paths.spec_excluded(method, path@) ==> r matches GateDecision::Forward(
                None,
            ),
            !self.excluded_paths.spec_excluded(method, path@) ==> match spec_authorize(
                match auth_header {
                    Some(h) => Some(h@),
                    None => None,
                },
                secret@,
                now as int,
            ) {
                Some(sub) => r matches GateDecision::Forward(Some(u)) && u.0@ == sub,
                None => r matches GateDecision::Reject(e) && e@ == (HttpErrorView {
                    status: 401,
                    message: "Unauthorized"@,
                    errors: None,
                }),
            },
    {
        if self.excluded_paths.is_excluded(method, path) {
            return GateDecision::Forward(None);
        }
        match authorize_user(auth_header, secret, now) {
            Ok(user_id) => GateDecision::Forward(Some(AuthUser(user_id))),
            Err(e) => GateDecision::Reject(HttpError::unauthorized(e)),
        }
    }
}

} // verus!
