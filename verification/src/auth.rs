use vstd::prelude::*;
use vstd::string::StringExecFns;

use crate::error::{is_auth_error, ServerError};

verus! {

/// The claims of an access token.
#[derive(Debug, Clone)]
pub struct Claims {
    pub sub: String,
    pub exp: i64,
    pub iat: i64,
}

/// The body of a request for an access token.
#[derive(Debug, Clone)]
pub struct AuthPayload {
    pub secret_key: String,
}

/// Seconds in an hour.
pub const SECONDS_PER_HOUR: i64 = 3600;

/// The largest number of seconds that a `chrono::TimeDelta` holds as whole
/// seconds: `i64::MAX` milliseconds, rounded down.
pub const MAX_DELTA_SECONDS: i64 = 9223372036854775;

/// The timestamp of the first second that `chrono` represents, at the start of
/// its first date, the year -262143.
pub const MIN_TIMESTAMP: i64 = -8334601228800;

/// The timestamp of the last second that `chrono` represents, the end of its
/// last date, the year 262142.
pub const MAX_TIMESTAMP: i64 = 8210266876799;

/// The number of whole hours in the largest `chrono::TimeDelta`.
pub const MAX_DELTA_HOURS: i64 = 2562047788015;

/// The subject of every token this service issues.
pub open spec fn token_subject() -> Seq<char> {
    seq!['s', 'h', 'a', 'r', 'k', '-', 's', 'h', 'a', 'r', 'e']
}

/// `exp_hours` hours after the timestamp `iat` is a time that `chrono`
/// represents: the span fits in a `TimeDelta` and the end lies in the
/// representable range.
pub open spec fn expiry_in_range(iat: int, exp_hours: int) -> bool {
    &&& -MAX_DELTA_SECONDS <= exp_hours * SECONDS_PER_HOUR <= MAX_DELTA_SECONDS
    &&& MIN_TIMESTAMP <= iat + exp_hours * SECONDS_PER_HOUR <= MAX_TIMESTAMP
}

/// `c` are the claims issued at `iat` that expire `exp_hours` hours later.
pub open spec fn claims_issued(c: Claims, iat: int, exp_hours: int) -> bool {
    &&& c.sub@ == token_subject()
    &&& c.iat == iat
    &&& c.exp == iat + exp_hours * SECONDS_PER_HOUR
}

/// `chrono::Utc::now().timestamp()`: the seconds since the Unix epoch on the
/// system clock. `chrono` panics on a clock before the epoch or beyond its
/// last date, so every value it returns lies between 0 and `MAX_TIMESTAMP`;
/// which one is a matter of time.
#[verifier::external_body]
fn utc_now_timestamp() -> (t: i64)
    ensures
        0 <= t <= MAX_TIMESTAMP,
{
    chrono::Utc::now().timestamp()
}

/// The hours bound of `expiry_in_range`, in words a caller can test.
proof fn lemma_hours_in_delta(exp_hours: int)
    requires
        -MAX_DELTA_HOURS <= exp_hours <= MAX_DELTA_HOURS,
    ensures
        -MAX_DELTA_SECONDS <= exp_hours * SECONDS_PER_HOUR <= MAX_DELTA_SECONDS,
{
    assert(-MAX_DELTA_HOURS * 3600 <= exp_hours * 3600 <= MAX_DELTA_HOURS * 3600) by (nonlinear_arith)
        requires
            -MAX_DELTA_HOURS <= exp_hours <= MAX_DELTA_HOURS,
    ;
}

proof fn lemma_delta_in_hours(exp_hours: int)
    requires
        -MAX_DELTA_SECONDS <= exp_hours * SECONDS_PER_HOUR <= MAX_DELTA_SECONDS,
    ensures
        -MAX_DELTA_HOURS <= exp_hours <= MAX_DELTA_HOURS,
{
    if exp_hours > MAX_DELTA_HOURS {
        assert(exp_hours * 3600 >= (MAX_DELTA_HOURS + 1) * 3600) by (nonlinear_arith)
            requires
                exp_hours > MAX_DELTA_HOURS,
        ;
    }
    if exp_hours < -MAX_DELTA_HOURS {
        assert(exp_hours * 3600 <= (-MAX_DELTA_HOURS - 1) * 3600) by (nonlinear_arith)
            requires
                exp_hours < -MAX_DELTA_HOURS,
        ;
    }
}

impl Claims {
    /// The claims issued at `iat` that expire `exp_hours` hours later, with
    /// the service's subject.
    pub fn issued_at(iat: i64, exp_hours: i64) -> (c: Claims)
        requires
            expiry_in_range(iat as int, exp_hours as int),
        ensures
            claims_issued(c, iat as int, exp_hours as int),
    {
        proof {
            lemma_delta_in_hours(exp_hours as int);
        }
        let sub = String::from_str("shark-share");
        proof {
            reveal_strlit("shark-share");
            assert(sub@ =~= token_subject());
        }
        Claims { sub, exp: iat + exp_hours * SECONDS_PER_HOUR, iat }
    }

    /// The claims issued at `iat` that expire `exp_hours` hours later; `None`
    /// exactly where that expiry is beyond what `chrono` represents, where the
    /// clock arithmetic of `chrono` panics.
    pub fn at(iat: i64, exp_hours: i64) -> (r: Option<Claims>)
        ensures
            r is None <==> !expiry_in_range(iat as int, exp_hours as int),
            r matches Some(c) ==> claims_issued(c, iat as int, exp_hours as int),
    {
        if exp_hours < -MAX_DELTA_HOURS || exp_hours > MAX_DELTA_HOURS {
            proof {
                if expiry_in_range(iat as int, exp_hours as int) {
                    lemma_delta_in_hours(exp_hours as int);
                }
            }
            return None;
        }
        proof {
            lemma_hours_in_delta(exp_hours as int);
        }
        let span = exp_hours * SECONDS_PER_HOUR;
        let in_range = if span >= 0 {
            iat <= MAX_TIMESTAMP - span && iat >= MIN_TIMESTAMP - span
        } else {
            iat >= MIN_TIMESTAMP - span && iat <= MAX_TIMESTAMP - span
        };
        if !in_range {
            return None;
        }
        Some(Claims::issued_at(iat, exp_hours))
    }

    /// The claims issued now, by the system clock, that expire `exp_hours`
    /// hours from now: `Claims::at` of the clock's reading.
    pub fn new(exp_hours: i64) -> (r: Option<Claims>)
        ensures
            exists|t: int|
                0 <= t <= MAX_TIMESTAMP && #[trigger] claims_at(t, exp_hours as int, r),
    {
        let iat = utc_now_timestamp();
        let r = Claims::at(iat, exp_hours);
        assert(claims_at(iat as int, exp_hours as int, r));
        r
    }
}

/// `r` is what `Claims::at` gives for the issue time `iat` and the lifetime
/// `exp_hours`.
pub open spec fn claims_at(iat: int, exp_hours: int, r: Option<Claims>) -> bool {
    &&& r is None <==> !expiry_in_range(iat, exp_hours)
    &&& r matches Some(c) ==> claims_issued(c, iat, exp_hours)
}

/// The compact HS256 token that `jsonwebtoken::encode` gives, under the
/// default header, for the claims object `{"sub": sub, "exp": exp, "iat": iat}`
/// (keys in that order) signed with the secret `secret`.
pub uninterp spec fn hs256_token(sub: Seq<char>, exp: int, iat: int, secret: Seq<u8>) -> Seq<char>;

/// `token` is the token issued for the claims `sub`, `exp` and `iat` under
/// `secret`: it is the HS256 token of those claims, its signature is valid
/// under `secret`, and its payload carries exactly those claims.
pub open spec fn issued_token(sub: Seq<char>, exp: int, iat: int, secret: Seq<u8>, token: Seq<char>) -> bool {
    &&& token == hs256_token(sub, exp, iat, secret)
    &&& hs256_signature_valid(token, secret)
    &&& token_claim_fields(token) == (Some(sub), Some(exp), Some(iat))
}

/// The error type of `jsonwebtoken`.
#[verifier::external_type_specification]
#[verifier::external_body]
pub struct ExJwtError(jsonwebtoken::errors::Error);

/// `jsonwebtoken::encode` with `Header::default()` (HS256) and
/// `EncodingKey::from_secret(secret)`, of the JSON object holding `sub`, `exp`
/// and `iat` in that order. The token is named by `hs256_token`. The crate's
/// source fails only when the key's family differs from the header's algorithm
/// or when serialising fails; neither happens for an HMAC key under HS256 and a
/// JSON object with string keys, so success is claimed. The token's header is
/// the default one, naming HS256, and its signature is the HMAC-SHA256 of its
/// first two parts under `secret`, which is what `decode` checks under the same
/// secret; its payload is the JSON object encoded, so its claims are `sub`,
/// `exp` and `iat`.
#[verifier::external_body]
fn encode_hs256(sub: &str, exp: i64, iat: i64, secret: &[u8]) -> (r: Result<String, jsonwebtoken::errors::Error>)
    ensures
        r is Ok,
        r matches Ok(t) ==> t@ == hs256_token(sub@, exp as int, iat as int, secret@),
        r matches Ok(t) ==> hs256_signature_valid(t@, secret@) && token_claim_fields(t@) == (
            Some(sub@),
            Some(exp as int),
            Some(iat as int),
        ),
{
    let mut claims = serde_json::Map::new();
    claims.insert("sub".to_string(), serde_json::Value::from(sub));
    claims.insert("exp".to_string(), serde_json::Value::from(exp));
    claims.insert("iat".to_string(), serde_json::Value::from(iat));
    let key = jsonwebtoken::EncodingKey::from_secret(secret);
    jsonwebtoken::encode(&jsonwebtoken::Header::default(), &serde_json::Value::Object(claims), &key)
}

/// The message of a failure to create a token.
pub open spec fn token_error_message() -> Seq<char> {
    "Token Create Error"@
}

/// The message of a request with the wrong secret key.
pub open spec fn wrong_credentials_message() -> Seq<char> {
    "Wrong Credentials"@
}

/// Signs `claims` with `jwt_secret` into an access token.
pub fn sign(claims: &Claims, jwt_secret: &[u8]) -> (r: Result<String, ServerError>)
    ensures
        r matches Ok(t) ==> issued_token(claims.sub@, claims.exp as int, claims.iat as int, jwt_secret@, t@),
        r matches Err(e) ==> is_auth_error(e, token_error_message()),
        r is Ok,
{
    match encode_hs256(claims.sub.as_str(), claims.exp, claims.iat, jwt_secret) {
        Ok(token) => Ok(token),
        Err(_) => Err(ServerError::Auth(String::from_str("Token Create Error"))),
    }
}

/// The answer to a request for an access token made at the second `now`:
/// a payload whose secret key differs from `app_secret_key` is refused with
/// "Wrong Credentials"; otherwise `None` exactly where `exp_hours` hours after
/// `now` is beyond the clock's range (where the token's time arithmetic
/// panics), and else the token issued at `now`, expiring `exp_hours` hours
/// later, signed with `jwt_secret`.
pub open spec fn token_answer(
    auth: AuthPayload,
    app_secret_key: Seq<char>,
    jwt_secret: Seq<u8>,
    exp_hours: int,
    now: int,
    r: Option<Result<String, ServerError>>,
) -> bool {
    if auth.secret_key@ != app_secret_key {
        r matches Some(Err(e)) && is_auth_error(e, wrong_credentials_message())
    } else if !expiry_in_range(now, exp_hours) {
        r is None
    } else {
        r matches Some(Ok(t)) && issued_token(token_subject(), now + exp_hours * SECONDS_PER_HOUR, now, jwt_secret, t@)
    }
}

/// Answers a request for an access token made at the second `now`.
pub fn handler_at(
    auth: &AuthPayload,
    app_secret_key: &String,
    jwt_secret: &[u8],
    exp_hours: i64,
    now: i64,
) -> (r: Option<Result<String, ServerError>>)
    ensures
        token_answer(*auth, app_secret_key@, jwt_secret@, exp_hours as int, now as int, r),
{
    if auth.secret_key != *app_secret_key {
        return Some(Err(ServerError::Auth(String::from_str("Wrong Credentials"))));
    }
    match Claims::at(now, exp_hours) {
        None => None,
        Some(claims) => Some(sign(&claims, jwt_secret)),
    }
}

/// Answers a request for an access token at the moment of the call: the
/// secret key is checked first, and the system clock is read only when it
/// matches; the answer is `handler_at`'s for that reading.
pub fn handler(auth: &AuthPayload, app_secret_key: &String, jwt_secret: &[u8], exp_hours: i64) -> (r: Option<
    Result<String, ServerError>,
>)
    ensures
        exists|now: int|
            0 <= now <= MAX_TIMESTAMP && #[trigger] token_answer(
                *auth,
                app_secret_key@,
                jwt_secret@,
                exp_hours as int,
                now,
                r,
            ),
{
    if auth.secret_key != *app_secret_key {
        let r = Some(Err(ServerError::Auth(String::from_str("Wrong Credentials"))));
        assert(token_answer(*auth, app_secret_key@, jwt_secret@, exp_hours as int, 0, r));
        return r;
    }
    let now = utc_now_timestamp();
    let r = handler_at(auth, app_secret_key, jwt_secret, exp_hours, now);
    assert(token_answer(*auth, app_secret_key@, jwt_secret@, exp_hours as int, now as int, r));
    r
}

/// Whether `jsonwebtoken` accepts the signature of `token` under
/// `Validation::default()` and the key `DecodingKey::from_secret(secret)`:
/// the token has three dot-separated parts, its header decodes and names
/// HS256, and its HMAC-SHA256 signature over the first two parts is right.
pub uninterp spec fn hs256_signature_valid(token: Seq<char>, secret: Seq<u8>) -> bool;

/// The claims `sub` (as text), `exp` and `iat` (as 64-bit integers) in the
/// JSON payload of `token`; `None` for a claim that is missing or of another
/// type.
pub uninterp spec fn token_claim_fields(token: Seq<char>) -> (Option<Seq<char>>, Option<int>, Option<int>);

/// `jsonwebtoken::decode` of `token` under `DecodingKey::from_secret(secret)`
/// and `Validation::default()`, into a JSON value, and the `sub`, `exp` and
/// `iat` fields picked out of it. Besides the signature (`hs256_signature_valid`)
/// the crate's validation checks `exp` against the clock, with a leeway of 60
/// seconds; that part depends on the time, so success is claimed of nothing:
/// what is stated is that it comes only with a valid signature, and which
/// fields it carries then.
#[verifier::external_body]
fn decode_hs256(token: &str, secret: &[u8]) -> (r: Result<(Option<String>, Option<i64>, Option<i64>), jsonwebtoken::errors::Error>)
    ensures
        r is Ok ==> hs256_signature_valid(token@, secret@),
        r matches Ok(f) ==> token_claim_fields(token@) == (
            match f.0 { Some(s) => Some(s@), None => None },
            match f.1 { Some(x) => Some(x as int), None => None },
            match f.2 { Some(x) => Some(x as int), None => None },
        ),
{
    let key = jsonwebtoken::DecodingKey::from_secret(secret);
    let data = jsonwebtoken::decode::<serde_json::Value>(token, &key, &jsonwebtoken::Validation::default())?;
    let c = data.claims;
    Ok((c.get("sub").and_then(|v| v.as_str()).map(|v| v.to_string()), c.get("exp").and_then(|v| v.as_i64()), c.get("iat").and_then(|v| v.as_i64())))
}

/// `f` are the `sub`, `exp` and `iat` fields of a decoding of `token` under
/// `secret` that `jsonwebtoken` accepted, as `decode_hs256` gave them back.
pub closed spec fn decoded_fields(token: &str, secret: &[u8], f: (Option<String>, Option<i64>, Option<i64>)) -> bool {
    call_ensures(decode_hs256, (token, secret), Ok(f))
}

/// A decoding of `token` under `secret` that `jsonwebtoken` refused, by its
/// signature, its claims or the clock.
pub closed spec fn decoding_refused(token: &str, secret: &[u8]) -> bool {
    exists|e: jsonwebtoken::errors::Error| call_ensures(decode_hs256, (token, secret), Err(e))
}

/// Fields that carry all three claims.
pub open spec fn all_claims(f: (Option<String>, Option<i64>, Option<i64>)) -> bool {
    f.0 is Some && f.1 is Some && f.2 is Some
}

/// Fields given back by an accepted decoding satisfy what `decode_hs256`
/// states of them: the signature is valid and they are the token's claims.
pub proof fn lemma_decoded_fields(token: &str, secret: &[u8], f: (Option<String>, Option<i64>, Option<i64>))
    requires
        decoded_fields(token, secret, f),
    ensures
        hs256_signature_valid(token@, secret@),
        token_claim_fields(token@) == (
            match f.0 { Some(s) => Some(s@), None => None },
            match f.1 { Some(x) => Some(x as int), None => None },
            match f.2 { Some(x) => Some(x as int), None => None },
        ),
{
}

/// The message of a request whose token is refused.
pub open spec fn invalid_token_message() -> Seq<char> {
    "InvalidToken"@
}

/// The refusal of a request whose token is missing or not accepted.
pub fn invalid_token() -> (e: ServerError)
    ensures
        is_auth_error(e, invalid_token_message()),
{
    ServerError::Auth(String::from_str("InvalidToken"))
}

/// `c` are claims accepted from `token` under `secret`: the token's signature
/// is valid under `secret`, and its payload carries exactly the claims of `c`.
pub open spec fn accepted_claims(token: Seq<char>, secret: Seq<u8>, c: Claims) -> bool {
    &&& hs256_signature_valid(token, secret)
    &&& token_claim_fields(token) == (Some(c.sub@), Some(c.exp as int), Some(c.iat as int))
}

/// The claims of a decoded token's payload fields: the claims `sub`, `exp`
/// and `iat` when all three are there, and otherwise a refusal with
/// "InvalidToken".
pub fn claims_from_fields(f: (Option<String>, Option<i64>, Option<i64>)) -> (r: Result<Claims, ServerError>)
    ensures
        (f.0 is Some && f.1 is Some && f.2 is Some) ==> (r matches Ok(c) && c.sub == f.0->0 && c.exp == f.1->0
            && c.iat == f.2->0),
        !(f.0 is Some && f.1 is Some && f.2 is Some) ==> (r matches Err(e) && is_auth_error(e, invalid_token_message())),
{
    match f {
        (Some(sub), Some(exp), Some(iat)) => Ok(Claims { sub, exp, iat }),
        _ => Err(invalid_token()),
    }
}

/// The claims of a bearer token: accepted when `jsonwebtoken` decodes it under
/// the secret (its signature valid and, by the clock, not expired) and its
/// payload holds a text `sub` and integer `exp` and `iat`; refused otherwise
/// with "InvalidToken".
pub fn verify_token(token: &str, jwt_secret: &[u8]) -> (r: Result<Claims, ServerError>)
    ensures
        r matches Err(e) ==> is_auth_error(e, invalid_token_message()),
        r matches Ok(c) ==> accepted_claims(token@, jwt_secret@, c),
        r matches Ok(c) ==> decoded_fields(token, jwt_secret, (Some(c.sub), Some(c.exp), Some(c.iat))),
        r is Err ==> decoding_refused(token, jwt_secret) || exists|f: (Option<String>, Option<i64>, Option<i64>)|
            #[trigger] decoded_fields(token, jwt_secret, f) && !all_claims(f),
        !hs256_signature_valid(token@, jwt_secret@) ==> r is Err,
{
    let decoded = decode_hs256(token, jwt_secret);
    assert(call_ensures(decode_hs256, (token, jwt_secret), decoded));
    match decoded {
        Ok(fields) => {
            assert(decoded_fields(token, jwt_secret, fields));
            claims_from_fields(fields)
        },
        Err(e) => {
            assert(call_ensures(decode_hs256, (token, jwt_secret), Err(e)));
            Err(invalid_token())
        },
    }
}

} // verus!
