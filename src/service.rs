use vstd::prelude::*;

use crate::clock::{now_timestamp, CLOCK_LIMIT};
use crate::decimal::{decimal, i64_to_decimal, parse_i64, parsed_i64};
use crate::error::AuthError;
use crate::jwt::{
    generate_token_at, jwt_claims, token_verdict, validate_token_at, Claims, TokenFault,
    MAX_TOKEN_LIFETIME,
};
use crate::decimal::lemma_decimal_round_trip;
use crate::model::{lemma_role_name_round_trip, role_name, Role, Session, User};
use crate::password::{hash_password, verify_outcome, verify_password};
use crate::text::{owned, str_equal};

verus! {

/// The credential and session authority. It holds the signing secret and the
/// token lifetime; the caller runs the store queries between the steps of each
/// operation and hands their results back.
pub struct AuthService {
    jwt_secret: String,
    token_expiry_seconds: i64,
}

impl AuthService {
    #[verifier::type_invariant]
    spec fn lifetime_in_range(self) -> bool {
        -MAX_TOKEN_LIFETIME <= self.token_expiry_seconds <= MAX_TOKEN_LIFETIME
    }

    /// The signing secret.
    pub closed spec fn secret(self) -> Seq<char> {
        self.jwt_secret@
    }

    /// The lifetime of issued tokens, in seconds.
    pub closed spec fn lifetime(self) -> int {
        self.token_expiry_seconds as int
    }

    /// A service that signs with `jwt_secret` and issues tokens that live
    /// `token_expiry_seconds` seconds.
    pub fn new(jwt_secret: String, token_expiry_seconds: i64) -> (r: AuthService)
        requires
            -MAX_TOKEN_LIFETIME <= token_expiry_seconds <= MAX_TOKEN_LIFETIME,
        ensures
            r.secret() == jwt_secret@,
            r.lifetime() == token_expiry_seconds,
    {
        AuthService { jwt_secret, token_expiry_seconds }
    }

    /// The signing secret.
    pub fn jwt_secret(&self) -> (r: &str)
        ensures
            r@ == self.secret(),
    {
        self.jwt_secret.as_str()
    }

    /// The lifetime of issued tokens, in seconds.
    pub fn token_expiry_seconds(&self) -> (r: i64)
        ensures
            r == self.lifetime(),
            -MAX_TOKEN_LIFETIME <= r <= MAX_TOKEN_LIFETIME,
    {
        proof {
            use_type_invariant(self);
        }
        self.token_expiry_seconds
    }

    /// What the first step of signup returns, given what the lookup of the
    /// email in the store returned; the password is `password_bytes` bytes long.
    pub open spec fn signup_agrees(
        email: Seq<char>,
        password: Seq<char>,
        password_bytes: int,
        role: Role,
        existing: Result<Option<User>, String>,
        r: Result<User, AuthError>,
    ) -> bool {
        match existing {
            Err(m) => r == Err::<User, AuthError>(AuthError::DatabaseError(m)),
            Ok(Some(_)) => r == Err::<User, AuthError>(AuthError::UserAlreadyExists),
            Ok(None) => (password_bytes <= 0xFFFF_FFFF ==> r is Ok) && match r {
                Ok(u) => u.id is None && u.email@ == email && u.role == role && verify_outcome(
                    password,
                    u.password_hash@,
                ) == Ok::<bool, AuthError>(true) && u.created_at == u.updated_at,
                Err(e) => e is HashingError,
            },
        }
    }

    /// First step of signup with the given role. `existing` is what the store
    /// returned for the email. An unknown email gives the record to insert, with
    /// the password hashed under a fresh salt.
    pub fn signup_with_role(
        &self,
        email: &str,
        password: &str,
        role: Role,
        existing: Result<Option<User>, String>,
    ) -> (r: Result<User, AuthError>)
        ensures
            Self::signup_agrees(email@, password@, password.len() as int, role, existing, r),
    {
        match existing {
            Err(m) => Err(AuthError::DatabaseError(m)),
            Ok(Some(_)) => Err(AuthError::UserAlreadyExists),
            Ok(None) => {
                let password_hash = hash_password(password)?;
                Ok(User::new_with_role(owned(email), password_hash, role))
            },
        }
    }

    /// First step of signup with the default role.
    pub fn signup(&self, email: &str, password: &str, existing: Result<Option<User>, String>) -> (r:
        Result<User, AuthError>)
        ensures
            Self::signup_agrees(email@, password@, password.len() as int, Role::User, existing, r),
    {
        self.signup_with_role(email, password, Role::User, existing)
    }

    /// Last step of signup: `inserted` is the row that the store returned for the
    /// insert. Success needs a row that carries its store-assigned id.
    pub fn complete_signup(inserted: Result<Option<User>, String>) -> (r: Result<User, AuthError>)
        ensures
            inserted matches Err(m) ==> r == Err::<User, AuthError>(AuthError::DatabaseError(m)),
            inserted matches Ok(None) ==> r matches Err(AuthError::DatabaseError(_)),
            inserted matches Ok(Some(u)) ==> if u.id is Some {
                r == Ok::<User, AuthError>(u)
            } else {
                r matches Err(AuthError::DatabaseError(_))
            },
    {
        match inserted {
            Err(m) => Err(AuthError::DatabaseError(m)),
            Ok(None) => Err(AuthError::DatabaseError(owned("the insert returned no row"))),
            Ok(Some(u)) => {
                if u.id.is_some() {
                    Ok(u)
                } else {
                    Err(AuthError::DatabaseError(owned("the inserted row carries no id")))
                }
            },
        }
    }

    /// What login returns at time `now`, given what the lookup of the email in
    /// the store returned.
    pub open spec fn login_agrees(
        self,
        email: Seq<char>,
        password: Seq<char>,
        found: Result<Option<User>, String>,
        now: int,
        r: Result<(String, User, Session), AuthError>,
    ) -> bool {
        match found {
            Err(m) => r == Err::<(String, User, Session), AuthError>(AuthError::DatabaseError(m)),
            Ok(None) => r == Err::<(String, User, Session), AuthError>(AuthError::InvalidPassword),
            Ok(Some(u)) => if u.email@ != email {
                r == Err::<(String, User, Session), AuthError>(AuthError::InvalidPassword)
            } else {
                match verify_outcome(password, u.password_hash@) {
                    Err(e) => r == Err::<(String, User, Session), AuthError>(e),
                    Ok(false) => r == Err::<(String, User, Session), AuthError>(
                        AuthError::InvalidPassword,
                    ),
                    Ok(true) => match u.id {
                        None => r matches Err(AuthError::TokenGenerationError(_)),
                        Some(id) => r matches Ok((t, user, s)) && t@.len() > 0 && user == u
                            && jwt_claims(t@, self.secret()) == Some(
                            (decimal(id as int), role_name(u.role), now, now + self.lifetime()),
                        ) && s.id is None && s.user_id == id && s.token@ == t@ && s.expires_at
                            == now + self.lifetime() && s.created_at == now,
                    },
                }
            },
        }
    }

    /// Login at time `now`: `found` is what the store returned for the email.
    /// Gives the signed token, the user, and the session record to write; that
    /// write is best effort and its failure does not undo the login.
    pub fn login_at(&self, email: &str, password: &str, found: Result<Option<User>, String>, now: i64) -> (r:
        Result<(String, User, Session), AuthError>)
        requires
            0 <= now < CLOCK_LIMIT,
        ensures
            self.login_agrees(email@, password@, found, now as int, r),
    {
        proof {
            use_type_invariant(self);
        }
        let user = match found {
            Err(m) => return Err(AuthError::DatabaseError(m)),
            Ok(None) => return Err(AuthError::InvalidPassword),
            Ok(Some(u)) => u,
        };
        if !str_equal(user.email.as_str(), email) {
            return Err(AuthError::InvalidPassword);
        }
        let matches = verify_password(password, user.password_hash.as_str())?;
        if !matches {
            return Err(AuthError::InvalidPassword);
        }
        let id = match user.id {
            Some(id) => id,
            None => return Err(AuthError::TokenGenerationError(owned("the user has no id"))),
        };
        let subject = i64_to_decimal(id);
        let token = generate_token_at(
            subject.as_str(),
            user.role,
            self.jwt_secret.as_str(),
            now,
            self.token_expiry_seconds,
        )?;
        let session = Session {
            id: None,
            user_id: id,
            token: token.clone(),
            expires_at: now + self.token_expiry_seconds,
            created_at: now,
        };
        Ok((token, user, session))
    }

    /// Login at the clock's current time; see `login_at`.
    pub fn login(&self, email: &str, password: &str, found: Result<Option<User>, String>) -> (r:
        Result<(String, User, Session), AuthError>)
        ensures
            exists|now: int|
                0 <= now < CLOCK_LIMIT && #[trigger] self.login_agrees(
                    email@,
                    password@,
                    found,
                    now,
                    r,
                ),
    {
        let now = now_timestamp();
        self.login_at(email, password, found, now)
    }

    /// What the first step of validation returns for `token` at time `now`.
    pub open spec fn validate_agrees(self, token: Seq<char>, now: int, r: Result<(i64, Claims), AuthError>) -> bool {
        match token_verdict(token, self.secret(), now) {
            Err(TokenFault::Invalid) => r matches Err(AuthError::TokenValidationError(_)),
            Err(TokenFault::Expired) => r == Err::<(i64, Claims), AuthError>(AuthError::TokenExpired),
            Ok((sub, role, iat, exp)) => match parsed_i64(sub) {
                None => r == Err::<(i64, Claims), AuthError>(AuthError::InvalidToken),
                Some(id) => r matches Ok((i, c)) && i == id && c.sub@ == sub && c.role == role
                    && c.iat == iat && c.exp == exp,
            },
        }
    }

    /// First step of validation at time `now`: checks the signature, the role
    /// name and the expiry, and reads the user id that the caller must look up.
    pub fn validate_at(&self, token: &str, now: i64) -> (r: Result<(i64, Claims), AuthError>)
        ensures
            self.validate_agrees(token@, now as int, r),
    {
        let claims = validate_token_at(token, self.jwt_secret.as_str(), now)?;
        match parse_i64(claims.sub.as_str()) {
            None => Err(AuthError::InvalidToken),
            Some(id) => Ok((id, claims)),
        }
    }

    /// First step of validation at the clock's current time; see `validate_at`.
    pub fn validate(&self, token: &str) -> (r: Result<(i64, Claims), AuthError>)
        ensures
            exists|now: int| 0 <= now < CLOCK_LIMIT && #[trigger] self.validate_agrees(token@, now, r),
    {
        let now = now_timestamp();
        self.validate_at(token, now)
    }

    /// What the last step of validation returns, given the user id and claims of
    /// the first step and what the store returned for that id.
    pub open spec fn live_check_agrees(
        user_id: i64,
        claims: Claims,
        live: Result<Option<User>, String>,
        r: Result<User, AuthError>,
    ) -> bool {
        match live {
            Err(m) => r == Err::<User, AuthError>(AuthError::DatabaseError(m)),
            Ok(None) => r == Err::<User, AuthError>(AuthError::InvalidToken),
            Ok(Some(u)) => if u.id != Some(user_id) {
                r == Err::<User, AuthError>(AuthError::InvalidToken)
            } else if u.role != claims.role {
                r == Err::<User, AuthError>(AuthError::RoleChanged)
            } else {
                r == Ok::<User, AuthError>(u)
            },
        }
    }

    /// Last step of validation: `live` is the current record of the user that the
    /// token names. A role that differs from the one in the token is refused.
    pub fn validate_with_claims(&self, user_id: i64, claims: &Claims, live: Result<Option<User>, String>) -> (r:
        Result<User, AuthError>)
        ensures
            Self::live_check_agrees(user_id, *claims, live, r),
    {
        match live {
            Err(m) => Err(AuthError::DatabaseError(m)),
            Ok(None) => Err(AuthError::InvalidToken),
            Ok(Some(u)) => {
                let same_id = match u.id {
                    Some(i) => i == user_id,
                    None => false,
                };
                if !same_id {
                    Err(AuthError::InvalidToken)
                } else if u.role != claims.role {
                    Err(AuthError::RoleChanged)
                } else {
                    Ok(u)
                }
            },
        }
    }

    /// Whether the store needs the default service account, given how many
    /// service accounts it holds.
    pub fn needs_default_service_account(service_accounts: i64) -> (r: bool)
        ensures
            r == (service_accounts == 0),
    {
        service_accounts == 0
    }

    /// Logout: `deleted` is what the store returned for removing the session
    /// rows of the token. The token itself stays valid until it expires.
    pub fn logout(&self, deleted: Result<u64, String>) -> (r: Result<(), AuthError>)
        ensures
            deleted matches Err(m) ==> r == Err::<(), AuthError>(AuthError::DatabaseError(m)),
            deleted is Ok ==> r is Ok,
    {
        match deleted {
            Err(m) => Err(AuthError::DatabaseError(m)),
            Ok(_) => Ok(()),
        }
    }

    /// Housekeeping of the session ledger: `deleted` is what the store returned
    /// for removing the sessions that expired before now.
    pub fn cleanup_expired_sessions(&self, deleted: Result<u64, String>) -> (r: Result<u64, AuthError>)
        ensures
            deleted matches Err(m) ==> r == Err::<u64, AuthError>(AuthError::DatabaseError(m)),
            deleted matches Ok(n) ==> r == Ok::<u64, AuthError>(n),
    {
        match deleted {
            Err(m) => Err(AuthError::DatabaseError(m)),
            Ok(n) => Ok(n),
        }
    }
}

/// Signing up and then logging in with the same email and password succeeds
/// with a non-empty token. While the token lives, it validates to the stored
/// account, which has that email and the default role.
pub proof fn lemma_signup_then_login(
    svc: AuthService,
    email: Seq<char>,
    password: Seq<char>,
    password_bytes: int,
    created: User,
    stored: User,
    now: int,
    later: int,
    login: Result<(String, User, Session), AuthError>,
    first: Result<(i64, Claims), AuthError>,
    last: Result<User, AuthError>,
)
    requires
        AuthService::signup_agrees(email, password, password_bytes, Role::User, Ok(None), Ok(created)),
        stored.id is Some,
        stored.email@ == created.email@,
        stored.password_hash@ == created.password_hash@,
        stored.role == created.role,
        svc.login_agrees(email, password, Ok(Some(stored)), now, login),
        now <= later <= now + svc.lifetime(),
    ensures
        login matches Ok((t, u, s)) && t@.len() > 0,
        login matches Ok((t, u, s)) ==> {
            &&& u == stored
            &&& u.email@ == email
            &&& u.role == Role::User
            &&& svc.validate_agrees(t@, later, first) ==> {
                &&& first matches Ok((id, c))
                &&& stored.id == Some(id)
                &&& c.role == Role::User
                &&& AuthService::live_check_agrees(id, c, Ok(Some(stored)), last) ==> last == Ok::<
                    User,
                    AuthError,
                >(stored)
            }
        },
{
    lemma_role_name_round_trip(Role::User);
    let id = stored.id->0;
    lemma_decimal_round_trip(id);
}

/// A token whose role differs from the current role of the user it names is
/// refused with `RoleChanged`, even before it expires.
pub proof fn lemma_role_change_refused(
    svc: AuthService,
    token: Seq<char>,
    now: int,
    id: i64,
    role: Role,
    iat: int,
    exp: int,
    live: User,
    first: Result<(i64, Claims), AuthError>,
    last: Result<User, AuthError>,
)
    requires
        jwt_claims(token, svc.secret()) == Some((decimal(id as int), role_name(role), iat, exp)),
        now <= exp,
        live.id == Some(id),
        live.role != role,
        svc.validate_agrees(token, now, first),
    ensures
        first matches Ok((i, c)) && i == id && c.role == role && (AuthService::live_check_agrees(
            i,
            c,
            Ok(Some(live)),
            last,
        ) ==> last == Err::<User, AuthError>(AuthError::RoleChanged)),
{
    lemma_role_name_round_trip(role);
    lemma_decimal_round_trip(id);
}

/// A token past its expiry time is refused, whatever its signature: validation
/// succeeds only on a token that decodes under the secret and has not expired.
pub proof fn lemma_expired_token_refused(
    svc: AuthService,
    token: Seq<char>,
    now: int,
    first: Result<(i64, Claims), AuthError>,
)
    requires
        svc.validate_agrees(token, now, first),
    ensures
        first is Ok ==> (jwt_claims(token, svc.secret()) matches Some(c) && now <= c.3),
        (jwt_claims(token, svc.secret()) matches Some(c) && now > c.3) ==> first is Err,
{
}

} // verus!
