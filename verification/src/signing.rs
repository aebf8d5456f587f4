use vstd::prelude::*;

use crate::errors::APIError;
use crate::json::{string_literal, write_number, write_string_literal};
use crate::numbers::{decimal, format_u64, parse_u64, parsed_u64};
use crate::text::{to_lowercase, lowercase};

verus! {

/// The user data that a token carries.
#[allow(non_snake_case)]
#[derive(Debug)]
pub struct User {
    pub USER_ID: Option<String>,
    pub USER_NAME: Option<String>,
    pub USER_EMAIL: Option<String>,
    pub LOGIN_DURATION: Option<String>,
}

/// The body of a login request.
#[derive(Debug)]
pub struct LoginParams {
    pub p_username: String,
    pub p_password: String,
}

/// The stored account row that a login is checked against.
#[derive(Debug)]
pub struct StoredCredentials {
    pub username: String,
    pub password_hash: String,
    pub fullname: String,
    pub email: String,
    pub login_duration: String,
}

/// The claims signed into a token: who the user is, and when the token was
/// issued and expires, in seconds since the Unix epoch.
#[derive(Debug)]
pub struct Claims {
    pub id: String,
    pub name: String,
    pub email: String,
    pub iat: u64,
    pub exp: u64,
}

impl User {
    /// A token user with no data.
    pub fn new() -> (r: User)
        ensures
            r.USER_ID is None,
            r.USER_NAME is None,
            r.USER_EMAIL is None,
            r.LOGIN_DURATION is None,
    {
        User { USER_ID: None, USER_NAME: None, USER_EMAIL: None, LOGIN_DURATION: None }
    }

    /// Whether every field that a token needs is present.
    pub fn is_complete(&self) -> (r: bool)
        ensures
            r == (self.USER_ID is Some && self.USER_NAME is Some && self.USER_EMAIL is Some
                && self.LOGIN_DURATION is Some),
    {
        self.USER_ID.is_some() && self.USER_NAME.is_some() && self.USER_EMAIL.is_some()
            && self.LOGIN_DURATION.is_some()
    }
}

/// The seconds that a login duration of `hours` covers.
pub open spec fn lifetime_seconds(hours: u64) -> int {
    hours * 3600
}

impl Claims {
    /// The claims of a token issued at `iat` for `duration` hours.
    pub fn issued_at(id: String, name: String, email: String, duration: u64, iat: u64) -> (r: Claims)
        requires
            iat + lifetime_seconds(duration) <= u64::MAX,
        ensures
            r.id == id,
            r.name == name,
            r.email == email,
            r.iat == iat,
            r.exp == iat + lifetime_seconds(duration),
    {
        let exp = iat + duration * 3600;
        Claims { id, name, email, iat, exp }
    }

    /// The claims of a token issued at the clock reading `now`, in seconds
    /// since the epoch, for `duration` hours: `None` when there is no reading
    /// or the expiry does not fit in 64 bits.
    pub fn issued_at_reading(id: String, name: String, email: String, duration: u64, now: Option<u64>) -> (r: Option<Claims>)
        ensures
            match now {
                None => r is None,
                Some(iat) => if iat + lifetime_seconds(duration) <= u64::MAX {
                    r matches Some(c) && c.id == id && c.name == name && c.email == email && c.iat == iat
                        && c.exp == iat + lifetime_seconds(duration)
                } else {
                    r is None
                },
            },
    {
        match now {
            None => None,
            Some(iat) => {
                if duration > (u64::MAX - iat) / 3600 {
                    assert(iat + duration * 3600 > u64::MAX) by (nonlinear_arith)
                        requires
                            duration > (u64::MAX - iat) / 3600,
                            iat <= u64::MAX,
                    ;
                    None
                } else {
                    assert(iat + duration * 3600 <= u64::MAX) by (nonlinear_arith)
                        requires
                            duration <= (u64::MAX - iat) / 3600,
                    ;
                    Some(Claims::issued_at(id, name, email, duration, iat))
                }
            },
        }
    }

    /// The claims of a token issued now for `duration` hours; `None` when the
    /// clock cannot be read or the expiry does not fit in 64 bits.
    pub fn new(id: String, name: String, email: String, duration: u64) -> (r: Option<Claims>)
        ensures
            r matches Some(c) ==> c.id == id && c.name == name && c.email == email && c.exp
                == c.iat + lifetime_seconds(duration),
    {
        let now = seconds_since_epoch(&system_time_now());
        Claims::issued_at_reading(id, name, email, duration, now)
    }
}

/// The JSON document of the claims, with the members in the order id, name,
/// email, iat, exp and no whitespace.
pub open spec fn claims_json(id: Seq<char>, name: Seq<char>, email: Seq<char>, iat: u64, exp: u64) -> Seq<char> {
    "{\"id\":"@ + string_literal(id) + ",\"name\":"@ + string_literal(name) + ",\"email\":"@
        + string_literal(email) + ",\"iat\":"@ + decimal(iat as nat) + ",\"exp\":"@ + decimal(
        exp as nat,
    ) + "}"@
}

/// The JSON document that is signed into the token of `c`.
pub fn claims_payload(c: &Claims) -> (r: String)
    ensures
        r@ == claims_json(c.id@, c.name@, c.email@, c.iat, c.exp),
{
    let mut out = String::from_str("{\"id\":");
    write_string_literal(&mut out, c.id.as_str());
    out.append(",\"name\":");
    write_string_literal(&mut out, c.name.as_str());
    out.append(",\"email\":");
    write_string_literal(&mut out, c.email.as_str());
    out.append(",\"iat\":");
    write_number(&mut out, c.iat);
    out.append(",\"exp\":");
    write_number(&mut out, c.exp);
    out.append("}");
    assert(out@ =~= claims_json(c.id@, c.name@, c.email@, c.iat, c.exp));
    out
}

/// The token that signing the JSON claims `payload` with the HMAC secret
/// `secret` gives (`None` when signing fails).
pub uninterp spec fn jwt_signed(payload: Seq<char>, secret: Seq<char>) -> Option<Seq<char>>;

/// The claims `id`, `name`, `email`, `iat` and `exp` that `jsonwebtoken::decode`
/// reads from `token` with the key `DecodingKey::from_secret(secret)` under
/// the default validation, leaving aside its one clock-dependent step, the
/// check of `exp` against the current time: `None` when the token is
/// malformed, its algorithm or signature does not match, it has no numeric
/// `exp`, or one of these claims is missing or of another type.
pub uninterp spec fn jwt_claims(token: Seq<char>, secret: Seq<char>) -> Option<(Seq<char>, Seq<char>, Seq<char>, u64, u64)>;

/// The claims as the decoder reads them: id, name, email, issue and expiry.
pub open spec fn claims_tuple(c: Claims) -> (Seq<char>, Seq<char>, Seq<char>, u64, u64) {
    (c.id@, c.name@, c.email@, c.iat, c.exp)
}

/// `jsonwebtoken::encode` with the default header (HS256) and the key
/// `EncodingKey::from_secret(secret)`, on the claims whose JSON text is
/// `payload`. The token is a function of the payload and the secret, named
/// here; its bytes are not stated. A claims document (valid JSON, so that
/// `RawValue::from_string` takes it, and HMAC signing cannot fail) is always
/// signed, and `jsonwebtoken::decode` with the same secret reads back from the
/// token the claims that were written: the header names HS256, the signature
/// is the one it checks, and `exp` is the only claim the default validation
/// requires.
#[verifier::external_body]
fn jwt_sign(payload: &str, secret: &str) -> (r: Option<String>)
    ensures
        r is Some == jwt_signed(payload@, secret@) is Some,
        r matches Some(t) ==> jwt_signed(payload@, secret@) == Some(t@),
        r is Some || !(exists|id: Seq<char>, name: Seq<char>, email: Seq<char>, iat: u64, exp: u64|
            payload@ == #[trigger] claims_json(id, name, email, iat, exp)),
        r matches Some(t) ==> forall|id: Seq<char>, name: Seq<char>, email: Seq<char>, iat: u64, exp: u64|
            payload@ == #[trigger] claims_json(id, name, email, iat, exp) ==> jwt_claims(t@, secret@)
                == Some((id, name, email, iat, exp)),
{
    let raw = serde_json::value::RawValue::from_string(payload.to_string()).ok()?;
    let key = jsonwebtoken::EncodingKey::from_secret(secret.as_bytes());
    jsonwebtoken::encode(&jsonwebtoken::Header::default(), &raw, &key).ok()
}

/// `jsonwebtoken::decode` with the key `DecodingKey::from_secret(secret)` and
/// the default validation (HS256, an `exp` claim required and checked against
/// the clock with 60 s of leeway), reading the claims `id`, `name`, `email`,
/// `iat` and `exp`. Claims that come back are those that `jwt_claims` names,
/// and a token that `jwt_claims` refuses gives none; whether a readable token
/// is still accepted depends on the clock, and is not stated.
#[verifier::external_body]
fn jwt_decode(token: &str, secret: &str) -> (r: Option<Claims>)
    ensures
        r matches Some(c) ==> jwt_claims(token@, secret@) == Some(claims_tuple(c)),
        jwt_claims(token@, secret@) is None ==> r is None,
{
    let key = jsonwebtoken::DecodingKey::from_secret(secret.as_bytes());
    let validation = jsonwebtoken::Validation::default();
    let data = jsonwebtoken::decode::<serde_json::Map<String, serde_json::Value>>(token, &key, &validation).ok()?;
    let c = data.claims;
    Some(Claims {
        id: c.get("id")?.as_str()?.to_string(),
        name: c.get("name")?.as_str()?.to_string(),
        email: c.get("email")?.as_str()?.to_string(),
        iat: c.get("iat")?.as_u64()?,
        exp: c.get("exp")?.as_u64()?,
    })
}

#[verifier::external_type_specification]
#[verifier::external_body]
pub struct ExSystemTime(std::time::SystemTime);

/// `SystemTime::now`: the clock's current reading.
#[verifier::external_body]
fn system_time_now() -> (r: std::time::SystemTime) {
    std::time::SystemTime::now()
}

/// `SystemTime::duration_since(UNIX_EPOCH)` in whole seconds; `None` for a
/// time before the epoch.
#[verifier::external_body]
fn seconds_since_epoch(t: &std::time::SystemTime) -> (r: Option<u64>) {
    t.duration_since(std::time::UNIX_EPOCH).ok().map(|d| d.as_secs())
}

/// The token for the claims `c`: their JSON document signed with `secret`,
/// which always succeeds and decodes back to the same claims.
pub fn sign_claims(c: &Claims, secret: &str) -> (r: Result<String, APIError>)
    ensures
        r is Ok == jwt_signed(claims_json(c.id@, c.name@, c.email@, c.iat, c.exp), secret@) is Some,
        r matches Ok(t) ==> jwt_signed(claims_json(c.id@, c.name@, c.email@, c.iat, c.exp), secret@) == Some(t@),
        (r matches Ok(t) && jwt_claims(t@, secret@) == Some(claims_tuple(*c))),
{
    let payload = claims_payload(c);
    match jwt_sign(payload.as_str(), secret) {
        Some(t) => Ok(t),
        None => Err(APIError::InternalServerError),
    }
}

/// Whether the token user lacks a field that a token needs.
pub open spec fn incomplete(u: User) -> bool {
    u.USER_ID is None || u.USER_NAME is None || u.USER_EMAIL is None || u.LOGIN_DURATION is None
}

/// Whether `token` decodes, with `secret`, to claims of the id, name and
/// email given, which expire `hours` hours after they were issued.
pub open spec fn issued_claims(token: Seq<char>, secret: Seq<char>, id: Seq<char>, name: Seq<char>, email: Seq<char>, hours: u64) -> bool {
    jwt_claims(token, secret) matches Some(c) && c.0 == id && c.1 == name && c.2 == email && c.4
        == c.3 + lifetime_seconds(hours)
}

/// Whether `token` decodes, with `secret`, to the claims of the complete
/// token user `u`, for the hours its login duration names.
pub open spec fn issued_for(u: User, token: Seq<char>, secret: Seq<char>) -> bool {
    issued_claims(
        token,
        secret,
        u.USER_ID->Some_0@,
        u.USER_NAME->Some_0@,
        u.USER_EMAIL->Some_0@,
        parsed_u64(u.LOGIN_DURATION->Some_0@)->Some_0,
    )
}

/// A token for the user `u`, valid for the hours that its login duration
/// names. A user with a missing field is invalid data; the duration must be a
/// decimal number of hours.
pub fn generate_token(u: &User, secret: &str) -> (r: Result<String, APIError>)
    requires
        !incomplete(*u) ==> parsed_u64(u.LOGIN_DURATION->Some_0@) is Some,
    ensures
        incomplete(*u) ==> r == Err::<String, APIError>(APIError::InvalidData),
        !incomplete(*u) ==> (r is Err ==> r == Err::<String, APIError>(APIError::InternalServerError)),
        r matches Ok(t) ==> exists|iat: u64|
            #[trigger] jwt_signed(
                claims_json(
                    u.USER_ID->Some_0@,
                    u.USER_NAME->Some_0@,
                    u.USER_EMAIL->Some_0@,
                    iat,
                    (iat + lifetime_seconds(parsed_u64(u.LOGIN_DURATION->Some_0@)->Some_0)) as u64,
                ),
                secret@,
            ) == Some(t@),
        r matches Ok(t) ==> issued_for(*u, t@, secret@),
{
    if !u.is_complete() {
        return Err(APIError::InvalidData);
    }
    let id = match &u.USER_ID {
        Some(s) => s.clone(),
        None => return Err(APIError::InvalidData),
    };
    let name = match &u.USER_NAME {
        Some(s) => s.clone(),
        None => return Err(APIError::InvalidData),
    };
    let email = match &u.USER_EMAIL {
        Some(s) => s.clone(),
        None => return Err(APIError::InvalidData),
    };
    let duration = match &u.LOGIN_DURATION {
        Some(s) => match parse_u64(s.as_str()) {
            Some(d) => d,
            None => return Err(APIError::InvalidData),
        },
        None => return Err(APIError::InvalidData),
    };
    match Claims::new(id, name, email, duration) {
        None => Err(APIError::InternalServerError),
        Some(c) => {
            let r = sign_claims(&c, secret);
            proof {
                let iat = c.iat;
                assert(c.exp == (iat + lifetime_seconds(duration)) as u64);
            }
            r
        },
    }
}

/// Whether the token user `u` describes the claims `c`: its id, name and
/// email, and as login duration the decimal seconds from issue to expiry.
pub open spec fn describes(u: User, c: Claims) -> bool {
    &&& u.USER_ID matches Some(x) && x@ == c.id@
    &&& u.USER_NAME matches Some(x) && x@ == c.name@
    &&& u.USER_EMAIL matches Some(x) && x@ == c.email@
    &&& u.LOGIN_DURATION matches Some(x) && x@ == decimal((c.exp - c.iat) as nat)
}

/// Whether the token user `u` describes decoded claims `c` (id, name,
/// email, issue, expiry), as `describes` does for a claims value.
pub open spec fn describes_claims(u: User, c: (Seq<char>, Seq<char>, Seq<char>, u64, u64)) -> bool {
    &&& u.USER_ID matches Some(x) && x@ == c.0
    &&& u.USER_NAME matches Some(x) && x@ == c.1
    &&& u.USER_EMAIL matches Some(x) && x@ == c.2
    &&& u.LOGIN_DURATION matches Some(x) && x@ == decimal((c.4 - c.3) as nat)
}

/// Whether `u` is the user that `token` carries under `secret`: the claims
/// that the decoder reads from it expire no earlier than they were issued,
/// and `u` describes them.
pub open spec fn decoded_as(u: User, token: Seq<char>, secret: Seq<char>) -> bool {
    jwt_claims(token, secret) matches Some(c) && c.3 <= c.4 && describes_claims(u, c)
}

/// The token user of the claims `c`.
pub fn user_from_claims(c: &Claims) -> (r: User)
    requires
        c.iat <= c.exp,
    ensures
        describes(r, *c),
{
    User {
        USER_ID: Some(c.id.clone()),
        USER_NAME: Some(c.name.clone()),
        USER_EMAIL: Some(c.email.clone()),
        LOGIN_DURATION: Some(format_u64(c.exp - c.iat)),
    }
}

/// The user that decoded claims carry: none without claims, and none for
/// claims that expire before they were issued.
pub fn token_user(claims: Option<Claims>) -> (r: Option<User>)
    ensures
        match claims {
            Some(c) => if c.iat <= c.exp {
                r matches Some(u) && describes(u, c)
            } else {
                r is None
            },
            None => r is None,
        },
{
    match claims {
        None => None,
        Some(c) => {
            if c.iat <= c.exp {
                let u = user_from_claims(&c);
                Some(u)
            } else {
                None
            }
        },
    }
}

/// The user that a token carries, when the token is genuine and unexpired;
/// `None` otherwise, and for claims that expire before they were issued.
pub fn decode_token_data(token: &str, secret: &str) -> (r: Option<User>)
    ensures
        r matches Some(u) ==> decoded_as(u, token@, secret@),
        jwt_claims(token@, secret@) is None ==> r is None,
{
    token_user(jwt_decode(token, secret))
}

/// Whether decoded claims are still valid at `now`: they exist and expire
/// after it. Without claims or a clock reading a token is not valid.
pub fn token_unexpired(claims: &Option<Claims>, now: Option<u64>) -> (r: bool)
    ensures
        r == (claims matches Some(c) && now matches Some(n) && c.exp > n),
{
    match claims {
        None => false,
        Some(c) => match now {
            None => false,
            Some(n) => c.exp > n,
        },
    }
}

/// Whether a token is genuine and has not expired. Expiry is read against
/// the clock, so what is stated is that a valid token is one that the
/// decoder reads claims from.
pub fn validate_token(token: &str, secret: &str) -> (r: bool)
    ensures
        r ==> jwt_claims(token@, secret@) is Some,
{
    let claims = jwt_decode(token, secret);
    let now = seconds_since_epoch(&system_time_now());
    token_unexpired(&claims, now)
}

/// What `bcrypt::verify` answers for a password and a stored hash: whether
/// they match, or `None` for a hash that it cannot read.
pub uninterp spec fn bcrypt_check(password: Seq<char>, hash: Seq<char>) -> Option<bool>;

/// `bcrypt::verify(password, hash)`: rehashes the password with the cost and
/// salt read from `hash` and compares; an error (a malformed hash) is `None`.
#[verifier::external_body]
fn bcrypt_verify(password: &str, hash: &str) -> (r: Option<bool>)
    ensures
        r == bcrypt_check(password@, hash@),
{
    bcrypt::verify(password, hash).ok()
}

/// `bcrypt::hash(password, DEFAULT_COST)`: a hash with a random salt, which
/// `bcrypt::verify` accepts for the same password (it rehashes with the salt
/// and cost that the hash records). `None` when the system gives no random bytes.
#[verifier::external_body]
pub(crate) fn bcrypt_hash(password: &str) -> (r: Option<String>)
    ensures
        r matches Some(h) ==> bcrypt_check(password@, h@) == Some(true),
{
    bcrypt::hash(password, bcrypt::DEFAULT_COST).ok()
}

/// The name under which a login looks the account up: the username in lowercase.
pub fn login_name(params: &LoginParams) -> (r: String)
    ensures
        r@ == lowercase(params.p_username@),
{
    to_lowercase(params.p_username.as_str())
}

/// Whether the token user `u` holds the stored account's data.
pub open spec fn holds_account(u: User, s: StoredCredentials) -> bool {
    &&& u.USER_ID matches Some(x) && x@ == s.username@
    &&& u.USER_NAME matches Some(x) && x@ == s.fullname@
    &&& u.USER_EMAIL matches Some(x) && x@ == s.email@
    &&& u.LOGIN_DURATION matches Some(x) && x@ == s.login_duration@
}

/// The outcome of the password check against a stored account, given
/// whether the password matched its hash: the account's data when it did,
/// invalid credentials when it did not.
pub fn account_user(matched: bool, stored: &StoredCredentials) -> (r: Result<User, APIError>)
    ensures
        matched ==> (r matches Ok(u) && holds_account(u, *stored)),
        !matched ==> r == Err::<User, APIError>(APIError::InvalidCredentials),
{
    if matched {
        Ok(
            User {
                USER_ID: Some(stored.username.clone()),
                USER_NAME: Some(stored.fullname.clone()),
                USER_EMAIL: Some(stored.email.clone()),
                LOGIN_DURATION: Some(stored.login_duration.clone()),
            },
        )
    } else {
        Err(APIError::InvalidCredentials)
    }
}

/// The answer `r` of a login with the password `password`, whose username is
/// given (`named`) or empty, answered from the account lookup `stored`: an
/// empty username is invalid data; a lookup that finds no account is invalid
/// credentials, and another failed lookup stands as it came; otherwise the
/// password is checked against the stored hash and, when it matches, a token
/// for the account is issued. `None` where the login cannot be decided: the
/// stored hash cannot be read, or the stored duration is no decimal number.
pub open spec fn login_answer(
    named: bool,
    password: Seq<char>,
    stored: Result<StoredCredentials, APIError>,
    secret: Seq<char>,
    r: Option<Result<String, APIError>>,
) -> bool {
    if !named {
        r == Some(Err::<String, APIError>(APIError::InvalidData))
    } else {
        match stored {
            Err(e) => r == Some(Err::<String, APIError>(
                if e == APIError::DataNotFound { APIError::InvalidCredentials } else { e },
            )),
            Ok(s) => match bcrypt_check(password, s.password_hash@) {
                None => r is None,
                Some(false) => r == Some(Err::<String, APIError>(APIError::InvalidCredentials)),
                Some(true) => {
                    &&& (parsed_u64(s.login_duration@) is None <==> r is None)
                    &&& r matches Some(Err(e)) ==> e == APIError::InternalServerError
                    &&& r matches Some(Ok(t)) ==> exists|iat: u64|
                        #[trigger] jwt_signed(
                            claims_json(s.username@, s.fullname@, s.email@, iat,
                                (iat + lifetime_seconds(parsed_u64(s.login_duration@)->Some_0)) as u64),
                            secret,
                        ) == Some(t@)
                    &&& r matches Some(Ok(t)) ==> issued_claims(t@, secret, s.username@, s.fullname@,
                        s.email@, parsed_u64(s.login_duration@)->Some_0)
                },
            },
        }
    }
}

/// A login: an empty username is invalid data; a lookup that finds no
/// account is answered as invalid credentials, and another failed lookup as
/// it came; otherwise the password is checked, once, and a token issued.
/// `None` where the login cannot be decided: the stored hash cannot be read,
/// or the stored login duration is not a decimal number of hours.
pub fn sign_in(params: &LoginParams, stored: Result<StoredCredentials, APIError>, secret: &str) -> (r: Option<Result<String, APIError>>)
    ensures
        login_answer(params.p_username@.len() != 0, params.p_password@, stored, secret@, r),
{
    if params.p_username.as_str().is_empty() {
        return Some(Err(APIError::InvalidData));
    }
    match stored {
        Err(APIError::DataNotFound) => Some(Err(APIError::InvalidCredentials)),
        Err(e) => Some(Err(e)),
        Ok(s) => {
            match bcrypt_verify(params.p_password.as_str(), s.password_hash.as_str()) {
                None => None,
                Some(matched) => {
                    let user = match account_user(matched, &s) {
                        Ok(u) => u,
                        Err(e) => return Some(Err(e)),
                    };
                    if parse_u64(s.login_duration.as_str()).is_none() {
                        return None;
                    }
                    Some(generate_token(&user, secret))
                },
            }
        },
    }
}

/// A login's answer depends on its username only through whether one is
/// given: two logins with given usernames and the same password, answered
/// from the same account lookup, get the same answers. The server looks the
/// account up under the username in lowercase, so a login and its twin with
/// the username lowercased read the same account whenever lowercasing the
/// lowercase form changes nothing; then they are answered alike.
pub proof fn lemma_login_case_insensitive(
    p: LoginParams,
    q: LoginParams,
    stored: Result<StoredCredentials, APIError>,
    secret: Seq<char>,
    r: Option<Result<String, APIError>>,
)
    requires
        p.p_password@ == q.p_password@,
        p.p_username@.len() != 0,
        q.p_username@.len() != 0,
    ensures
        login_answer(true, p.p_password@, stored, secret, r) == login_answer(true, q.p_password@, stored, secret, r),
        q.p_username@ == lowercase(p.p_username@) && lowercase(lowercase(p.p_username@)) == lowercase(
            p.p_username@,
        ) ==> lowercase(q.p_username@) == lowercase(p.p_username@),
{
}

/// A token made for a user decodes back to that user: whenever the token
/// that `generate_token` made for `u` is decoded with the same secret, the
/// user read from it has `u`'s id, name and email, and as login duration the
/// seconds that `u`'s hours amount to.
pub proof fn lemma_token_round_trip(u: User, token: Seq<char>, secret: Seq<char>, v: User)
    requires
        !incomplete(u),
        parsed_u64(u.LOGIN_DURATION->Some_0@) is Some,
        issued_for(u, token, secret),
        decoded_as(v, token, secret),
    ensures
        v.USER_ID->Some_0@ == u.USER_ID->Some_0@,
        v.USER_NAME->Some_0@ == u.USER_NAME->Some_0@,
        v.USER_EMAIL->Some_0@ == u.USER_EMAIL->Some_0@,
        v.LOGIN_DURATION->Some_0@ == decimal(lifetime_seconds(parsed_u64(u.LOGIN_DURATION->Some_0@)->Some_0) as nat),
{
}

} // verus!

verus! {

/// Whether a login needs its account looked up: an empty username is
/// refused before any lookup.
pub fn login_lookup_needed(params: &LoginParams) -> (r: bool)
    ensures
        r == (params.p_username@.len() != 0),
{
    !params.p_username.as_str().is_empty()
}

} // verus!
