//! Passwords and sessions: argon2 password hashes, the signed session token
//! (a JWT carrying the user id, an expiry and the user's token version), and
//! the decision whether a presented session is still valid.
use vstd::prelude::*;
use argon2::password_hash::rand_core::OsRng;
use argon2::password_hash::SaltString;
use argon2::{Argon2, PasswordHash, PasswordHasher, PasswordVerifier};
use crate::error::AppError;
use vstd::utf8::encode_utf8;
use crate::text::{concat2, has_prefix, i64_text, int_text, owned, text_eq, u64_text};

verus! {

#[verifier::external_type_specification]
#[verifier::external_body]
pub struct ExtPasswordHashError(argon2::password_hash::Error);

#[verifier::external_type_specification]
#[verifier::external_body]
pub struct ExtJwtError(jsonwebtoken::errors::Error);

#[verifier::external_type_specification]
#[verifier::external_body]
pub struct ExtSystemTime(std::time::SystemTime);

/// The claims a session token carries.
#[derive(Debug, Clone, Copy, PartialEq, Eq, Structural)]
pub struct Claims {
    /// The user the session belongs to.
    pub sub: i32,
    /// Expiry, in seconds since the Unix epoch.
    pub exp: usize,
    /// The user's token version when the token was issued.
    pub ver: i32,
}

/// The user a request has been authenticated as.
#[derive(Debug, Clone, Copy, PartialEq, Eq, Structural)]
pub struct AuthUser {
    pub user_id: i32,
}

// ---------------------------------------------------------------------------
// Passwords.
// ---------------------------------------------------------------------------

/// Whether argon2 (`Argon2::default()`) accepts `password` against the PHC
/// hash string `phc`: the string parses as a password hash and recomputing
/// the hash of `password` with the salt and parameters it records gives the
/// output it records.
pub uninterp spec fn argon2_accepts(password: Seq<char>, phc: Seq<char>) -> bool;

/// The longest password argon2 hashes, in bytes of its UTF-8 encoding
/// (argon2's `MAX_PWD_LEN`).
pub open spec fn argon2_password_fits(password: Seq<char>) -> bool {
    encode_utf8(password).len() <= 0xFFFF_FFFF
}

/// How every PHC string of `Argon2::default()` begins: the algorithm
/// (Argon2id), the version (19) and the default parameters (19456 KiB of
/// memory, 2 passes, 1 lane), followed by the salt and the hash.
pub open spec fn argon2_default_phc_prefix() -> Seq<char> {
    "$argon2id$v=19$m=19456,t=2,p=1$"@
}

/// `PasswordHasher::hash_password` of `Argon2::default()` with a fresh salt
/// from `SaltString::generate(&mut OsRng)`, rendered as a PHC string.
/// The salt is random, so the string is not a function of the password and
/// is left unnamed; the salt and hash parts are not stated. What is claimed
/// is what argon2's source shows: hashing fails only for a password longer
/// than `MAX_PWD_LEN` bytes (the salt and the default parameters and output
/// length always pass its checks); the string starts with the algorithm,
/// version and default parameters (`PasswordHash`'s `Display`); and
/// `PasswordVerifier`, which recomputes the hash with the salt and
/// parameters recorded in the string, accepts the password against it.
#[verifier::external_body]
fn argon2_hash_phc(password: &str) -> (r: Result<String, argon2::password_hash::Error>)
    ensures
        argon2_password_fits(password@) ==> r is Ok,
        r matches Ok(h) ==> argon2_accepts(password@, h@) && has_prefix(
            h@,
            argon2_default_phc_prefix(),
        ),
{
    let salt = SaltString::generate(&mut OsRng);
    Argon2::default().hash_password(password.as_bytes(), &salt).map(|h| h.to_string())
}

/// `PasswordHash::new` on `phc`, then `PasswordVerifier::verify_password` of
/// `Argon2::default()`. Claimed: it succeeds exactly when argon2 accepts the
/// password against the string, which is what `argon2_accepts` names.
#[verifier::external_body]
fn argon2_verify_phc(password: &str, phc: &str) -> (r: Result<(), argon2::password_hash::Error>)
    ensures
        r is Ok <==> argon2_accepts(password@, phc@),
{
    let parsed = PasswordHash::new(phc)?;
    Argon2::default().verify_password(password.as_bytes(), &parsed)
}

/// The `Display` text of a password-hash error. Nothing is claimed of it.
#[verifier::external_body]
fn password_hash_error_text(e: &argon2::password_hash::Error) -> String {
    e.to_string()
}

/// The start of the message of a failed password hashing.
pub open spec fn hash_failure_prefix() -> Seq<char> {
    "パスワードのハッシュ化に失敗しました: "@
}

/// Hashes a plain-text password with argon2 under a fresh random salt, as
/// an Argon2id PHC string with the default parameters. Hashing succeeds for
/// every password argon2 takes, and a hash it returns is accepted for the
/// same password by `verify_password`.
pub fn hash_password(password: &str) -> (r: Result<String, AppError>)
    ensures
        argon2_password_fits(password@) ==> r is Ok,
        r matches Ok(h) ==> argon2_accepts(password@, h@) && has_prefix(
            h@,
            argon2_default_phc_prefix(),
        ),
        r matches Err(e) ==> (e matches AppError::External(m) && has_prefix(
            m@,
            hash_failure_prefix(),
        )),
{
    match argon2_hash_phc(password) {
        Ok(h) => Ok(h),
        Err(e) => {
            let detail = password_hash_error_text(&e);
            let m = concat2("パスワードのハッシュ化に失敗しました: ", detail.as_str());
            proof {
                assert(m@.subrange(0, hash_failure_prefix().len() as int) =~= hash_failure_prefix());
            }
            Err(AppError::External(m))
        },
    }
}

/// Checks a plain-text password against a stored hash; a hash that does not
/// parse counts as a mismatch.
pub fn verify_password(password: &str, password_hash: &str) -> (r: bool)
    ensures
        r == argon2_accepts(password@, password_hash@),
{
    match argon2_verify_phc(password, password_hash) {
        Ok(()) => true,
        Err(_) => false,
    }
}

// ---------------------------------------------------------------------------
// Session tokens.
// ---------------------------------------------------------------------------

/// The token that `jsonwebtoken::encode` produces for the JSON claims text
/// `payload` under the HMAC secret `secret` with the default header (HS256);
/// `None` stands for an error.
pub uninterp spec fn jwt_hs256_token(payload: Seq<char>, secret: Seq<char>) -> Option<Seq<char>>;

/// `jsonwebtoken::encode(&Header::default(), claims, &EncodingKey::from_secret(secret))`
/// where the claims are the JSON text `payload`, serialized verbatim through a
/// `serde_json::value::RawValue`. HS256 signing is deterministic, so the
/// outcome is a function of the payload and the secret; the contract ties it
/// to `jwt_hs256_token`, whose token bytes it does not spell out. Claimed as
/// well, from jsonwebtoken's source: a claims text (valid JSON) is taken by
/// `RawValue`, an HMAC key built by `EncodingKey::from_secret` fits the
/// HS256 header, the HMAC signer accepts a key of any length and does not
/// fail, and serializing the header into memory does not fail; so signing a
/// claims text succeeds.
#[verifier::external_body]
fn jwt_encode_hs256(payload: &str, secret: &str) -> (r: Result<String, jsonwebtoken::errors::Error>)
    ensures
        is_claims_text(payload@) ==> r is Ok,
        match r {
            Ok(t) => jwt_hs256_token(payload@, secret@) == Some(t@),
            Err(_) => jwt_hs256_token(payload@, secret@) is None,
        },
{
    let raw = serde_json::value::RawValue::from_string(payload.to_string())?;
    let key = jsonwebtoken::EncodingKey::from_secret(secret.as_bytes());
    jsonwebtoken::encode(&jsonwebtoken::Header::default(), &raw, &key)
}

/// The `Display` text of a token error. Nothing is claimed of it.
#[verifier::external_body]
fn jwt_error_text(e: &jsonwebtoken::errors::Error) -> String {
    e.to_string()
}

/// `SystemTime::now()`. Nothing is claimed of the value: it is the time.
#[verifier::external_body]
fn system_time_now() -> std::time::SystemTime {
    std::time::SystemTime::now()
}

/// `SystemTime::duration_since(UNIX_EPOCH)` in whole seconds, `None` when the
/// time is earlier than the epoch. Nothing is claimed of the value.
#[verifier::external_body]
fn secs_since_epoch(t: &std::time::SystemTime) -> Option<u64> {
    t.duration_since(std::time::UNIX_EPOCH).ok().map(|d| d.as_secs())
}

/// How long a session token is valid, in seconds (one day).
pub const TOKEN_LIFETIME_SECS: u64 = 86400;

/// The claims of the token issued at time `now` to a user.
pub open spec fn issued_claims(user_id: i32, token_version: i32, now: int) -> Claims {
    Claims { sub: user_id, exp: (now + TOKEN_LIFETIME_SECS) as usize, ver: token_version }
}

/// The JSON text of claims, with the fields in the order `sub`, `exp`, `ver`
/// and no whitespace, as serde_json writes the struct.
pub open spec fn claims_text(c: Claims) -> Seq<char> {
    "{\"sub\":"@ + int_text(c.sub as int) + ",\"exp\":"@ + int_text(c.exp as int) + ",\"ver\":"@
        + int_text(c.ver as int) + "}"@
}

/// `payload` is the JSON text of some claims.
pub open spec fn is_claims_text(payload: Seq<char>) -> bool {
    exists|c: Claims| payload == #[trigger] claims_text(c)
}

/// The JSON text of claims.
pub fn claims_json(c: &Claims) -> (r: String)
    ensures
        r@ == claims_text(*c),
{
    let mut r = owned("{\"sub\":");
    r.append(i64_text(c.sub as i64).as_str());
    r.append(",\"exp\":");
    r.append(u64_text(c.exp as u64).as_str());
    r.append(",\"ver\":");
    r.append(i64_text(c.ver as i64).as_str());
    r.append("}");
    r
}

/// The message of a clock that cannot be read as a time after the epoch.
pub open spec fn clock_failure_text() -> Seq<char> {
    "システム時刻が不正です"@
}

/// Issues the session token of a user at time `now`: the claims are the
/// user id, an expiry one day after `now`, and the user's token version.
/// Signing a claims text always succeeds, so the only refusal is a time too
/// late for the expiry to fit in a `usize`.
pub fn create_token_at(user_id: i32, token_version: i32, secret: &str, now: u64) -> (r: Result<
    String,
    AppError,
>)
    ensures
        r is Ok <==> now + TOKEN_LIFETIME_SECS <= usize::MAX,
        r matches Ok(t) ==> jwt_hs256_token(
            claims_text(issued_claims(user_id, token_version, now as int)),
            secret@,
        ) == Some(t@),
        r matches Err(e) ==> (e matches AppError::External(m) && m@ == clock_failure_text()),
{
    if now > usize::MAX as u64 - TOKEN_LIFETIME_SECS {
        return Err(AppError::External(owned("システム時刻が不正です")));
    }
    let exp: usize = (now + TOKEN_LIFETIME_SECS) as usize;
    let claims = Claims { sub: user_id, exp, ver: token_version };
    let payload = claims_json(&claims);
    assert(is_claims_text(payload@));
    match jwt_encode_hs256(payload.as_str(), secret) {
        Ok(t) => Ok(t),
        Err(e) => {
            let detail = jwt_error_text(&e);
            Err(AppError::External(concat2("トークンの発行に失敗しました: ", detail.as_str())))
        },
    }
}

/// Issues the session token of a user at the current time: the clock's
/// reading is handed to `create_token_at`. A token it returns is the one
/// `create_token_at` issues at some time `now`; the only failure is a clock
/// that does not read a time after the Unix epoch within the range an expiry
/// can hold.
pub fn create_token(user_id: i32, token_version: i32, secret: &str) -> (r: Result<String, AppError>)
    ensures
        r matches Ok(t) ==> exists|now: u64|
            now + TOKEN_LIFETIME_SECS <= usize::MAX && jwt_hs256_token(
                #[trigger] claims_text(issued_claims(user_id, token_version, now as int)),
                secret@,
            ) == Some(t@),
        r matches Err(e) ==> (e matches AppError::External(m) && m@ == clock_failure_text()),
{
    let clock = system_time_now();
    match secs_since_epoch(&clock) {
        Some(now) => {
            let r = create_token_at(user_id, token_version, secret, now);
            proof {
                if r is Ok {
                    let t = r->Ok_0;
                    assert(jwt_hs256_token(
                        claims_text(issued_claims(user_id, token_version, now as int)),
                        secret@,
                    ) == Some(t@));
                }
            }
            r
        },
        None => Err(AppError::External(owned("システム時刻が不正です"))),
    }
}

// ---------------------------------------------------------------------------
// Reading a session token back.
// ---------------------------------------------------------------------------

/// A claim of a decoded token: its name, and its value as serde_json's
/// `Value::as_i64` and `Value::as_u64` read it.
pub type ClaimEntry = (String, Option<i64>, Option<u64>);

/// The views of decoded claims.
pub open spec fn claim_entry_views(v: Seq<ClaimEntry>) -> Seq<(Seq<char>, Option<i64>, Option<u64>)> {
    v.map_values(|e: ClaimEntry| (e.0@, e.1, e.2))
}

/// `as_i64` of a JSON integer `n`.
pub open spec fn json_int_as_i64(n: int) -> Option<i64> {
    if i64::MIN <= n <= i64::MAX {
        Some(n as i64)
    } else {
        None
    }
}

/// `as_u64` of a JSON integer `n`.
pub open spec fn json_int_as_u64(n: int) -> Option<u64> {
    if 0 <= n <= u64::MAX {
        Some(n as u64)
    } else {
        None
    }
}

/// The claims of `claims_text(c)` as a decoded token lists them: one entry
/// per member, in the sorted order of their names (`exp`, `sub`, `ver`).
pub open spec fn claims_entries(c: Claims) -> Seq<(Seq<char>, Option<i64>, Option<u64>)> {
    seq![
        ("exp"@, json_int_as_i64(c.exp as int), json_int_as_u64(c.exp as int)),
        ("sub"@, json_int_as_i64(c.sub as int), json_int_as_u64(c.sub as int)),
        ("ver"@, json_int_as_i64(c.ver as int), json_int_as_u64(c.ver as int)),
    ]
}

/// `jsonwebtoken::decode` of `token` into a `BTreeMap<String, serde_json::Value>`
/// with `DecodingKey::from_secret(secret)` and `Validation::default()` with
/// its expiry check switched off (HS256, signature checked, `exp` required),
/// each claim given with its value's `as_i64` and `as_u64`, in the map's
/// (sorted) order; `None` when decoding fails. With the expiry check off the
/// clock is not read. Claimed, from jsonwebtoken's source: a token that
/// `encode` produced for the claims text of some claims under this secret
/// decodes to exactly those claims (the HMAC signature is recomputed
/// identically, the payload is that claims text, `exp` is present and no
/// audience is set). What other tokens decode to is not stated.
#[verifier::external_body]
fn jwt_decode_hs256(token: &str, secret: &str) -> (r: Option<Vec<ClaimEntry>>)
    ensures
        forall|c: Claims|
            jwt_hs256_token(#[trigger] claims_text(c), secret@) == Some(token@) ==> (r is Some
                && claim_entry_views(r->Some_0@) == claims_entries(c)),
{
    let key = jsonwebtoken::DecodingKey::from_secret(secret.as_bytes());
    let mut validation = jsonwebtoken::Validation::default();
    validation.validate_exp = false;
    jsonwebtoken::decode::<std::collections::BTreeMap<String, serde_json::Value>>(
        token,
        &key,
        &validation,
    ).ok().map(|d| d.claims.into_iter().map(|(k, v)| (k, v.as_i64(), v.as_u64())).collect())
}

/// How long after its expiry a token is still accepted, in seconds
/// (jsonwebtoken's default leeway).
pub const TOKEN_EXPIRY_LEEWAY_SECS: u64 = 60;

/// The value of the first claim named `key`.
pub open spec fn entry_lookup(entries: Seq<(Seq<char>, Option<i64>, Option<u64>)>, key: Seq<char>) -> Option<
    (Option<i64>, Option<u64>),
>
    decreases entries.len(),
{
    if entries.len() == 0 {
        None
    } else if entries[0].0 == key {
        Some((entries[0].1, entries[0].2))
    } else {
        entry_lookup(entries.drop_first(), key)
    }
}

/// A claim that holds a signed 32-bit integer.
pub open spec fn i32_claim(v: Option<(Option<i64>, Option<u64>)>) -> Option<i32> {
    match v {
        Some((Some(n), _)) => if i32::MIN <= n <= i32::MAX {
            Some(n as i32)
        } else {
            None
        },
        _ => None,
    }
}

/// A claim that holds an unsigned integer fitting a `usize`.
pub open spec fn usize_claim(v: Option<(Option<i64>, Option<u64>)>) -> Option<usize> {
    match v {
        Some((_, Some(n))) => if n <= usize::MAX {
            Some(n as usize)
        } else {
            None
        },
        _ => None,
    }
}

/// The `Claims` that decoded claims hold, as deserializing into the struct
/// reads them: `sub` and `ver` must be integers fitting an `i32`, `exp` a
/// non-negative integer fitting a `usize`; other claims are ignored.
pub open spec fn claims_of_entries(entries: Seq<(Seq<char>, Option<i64>, Option<u64>)>) -> Option<
    Claims,
> {
    match (
        i32_claim(entry_lookup(entries, "sub"@)),
        usize_claim(entry_lookup(entries, "exp"@)),
        i32_claim(entry_lookup(entries, "ver"@)),
    ) {
        (Some(sub), Some(exp), Some(ver)) => Some(Claims { sub, exp, ver }),
        _ => None,
    }
}

fn entry_of<'a>(entries: &'a Vec<ClaimEntry>, key: &str) -> (r: Option<&'a ClaimEntry>)
    ensures
        match r {
            Some(e) => entry_lookup(claim_entry_views(entries@), key@) == Some((e.1, e.2)),
            None => entry_lookup(claim_entry_views(entries@), key@) is None,
        },
{
    let ghost all = claim_entry_views(entries@);
    let mut i: usize = 0;
    assert(all.skip(0) =~= all);
    while i < entries.len()
        invariant
            i <= entries@.len(),
            all == claim_entry_views(entries@),
            entry_lookup(all, key@) == entry_lookup(all.skip(i as int), key@),
        decreases entries@.len() - i,
    {
        let ghost rest = all.skip(i as int);
        let e = &entries[i];
        if text_eq(e.0.as_str(), key) {
            assert(rest[0] == (e.0@, e.1, e.2));
            return Some(e);
        }
        assert(rest.drop_first() =~= all.skip(i + 1));
        i = i + 1;
    }
    None
}

fn i32_of(e: Option<&ClaimEntry>) -> (r: Option<i32>)
    ensures
        r == i32_claim(
            match e {
                Some(x) => Some((x.1, x.2)),
                None => None,
            },
        ),
{
    match e {
        Some(x) => match x.1 {
            Some(n) => if i32::MIN as i64 <= n && n <= i32::MAX as i64 {
                Some(n as i32)
            } else {
                None
            },
            None => None,
        },
        None => None,
    }
}

fn usize_of(e: Option<&ClaimEntry>) -> (r: Option<usize>)
    ensures
        r == usize_claim(
            match e {
                Some(x) => Some((x.1, x.2)),
                None => None,
            },
        ),
{
    match e {
        Some(x) => match x.2 {
            Some(n) => if n <= usize::MAX as u64 {
                Some(n as usize)
            } else {
                None
            },
            None => None,
        },
        None => None,
    }
}

/// The claims that decoded token claims hold.
pub fn claims_from_entries(entries: &Vec<ClaimEntry>) -> (r: Option<Claims>)
    ensures
        r == claims_of_entries(claim_entry_views(entries@)),
{
    let sub = i32_of(entry_of(entries, "sub"));
    let exp = usize_of(entry_of(entries, "exp"));
    let ver = i32_of(entry_of(entries, "ver"));
    match (sub, exp, ver) {
        (Some(sub), Some(exp), Some(ver)) => Some(Claims { sub, exp, ver }),
        _ => None,
    }
}

/// Reading the claims of a token back gives the claims it was issued with.
pub proof fn lemma_claims_entries_read_back(c: Claims)
    ensures
        claims_of_entries(claims_entries(c)) == Some(c),
{
    reveal_strlit("exp");
    reveal_strlit("sub");
    reveal_strlit("ver");
    let e = claims_entries(c);
    assert("exp"@[0] != "sub"@[0]);
    assert("exp"@[0] != "ver"@[0]);
    assert("sub"@[0] != "ver"@[0]);
    assert(e.drop_first()[0] == e[1]);
    assert(e.drop_first().drop_first()[0] == e[2]);
    assert(entry_lookup(e, "exp"@) == Some((e[0].1, e[0].2)));
    assert(entry_lookup(e.drop_first(), "sub"@) == Some((e[1].1, e[1].2)));
    assert(entry_lookup(e, "sub"@) == Some((e[1].1, e[1].2)));
    assert(entry_lookup(e.drop_first().drop_first(), "ver"@) == Some((e[2].1, e[2].2)));
    assert(entry_lookup(e.drop_first(), "ver"@) == Some((e[2].1, e[2].2)));
    assert(entry_lookup(e, "ver"@) == Some((e[2].1, e[2].2)));
}

/// The claims of the session token a request presents (`None` when it
/// presents none), checked against the secret and against the time `now`:
/// a token whose expiry lies more than the leeway before `now` is refused.
/// A token this library issued under the secret gives back exactly the
/// claims it was issued with until then, whatever they hold.
pub fn session_claims_at(token: Option<&str>, secret: &str, now: u64) -> (r: Option<Claims>)
    ensures
        token is None ==> r is None,
        r matches Some(c) ==> now <= c.exp + TOKEN_EXPIRY_LEEWAY_SECS,
        forall|c: Claims|
            (token matches Some(t) && jwt_hs256_token(#[trigger] claims_text(c), secret@) == Some(
                t@,
            )) ==> r == (if now <= c.exp + TOKEN_EXPIRY_LEEWAY_SECS {
                Some(c)
            } else {
                None
            }),
{
    let t = match token {
        Some(t) => t,
        None => return None,
    };
    let decoded = jwt_decode_hs256(t, secret);
    match decoded {
        Some(entries) => {
            let r = claims_from_entries(&entries);
            proof {
                assert forall|c: Claims|
                    jwt_hs256_token(#[trigger] claims_text(c), secret@) == Some(t@) implies r
                    == Some(c) by {
                    lemma_claims_entries_read_back(c);
                }
            }
            match r {
                Some(c) => if (c.exp as u64) < now && now - (c.exp as u64) > TOKEN_EXPIRY_LEEWAY_SECS {
                    None
                } else {
                    Some(c)
                },
                None => None,
            }
        },
        None => None,
    }
}

/// The claims of the session token a request presents, checked against the
/// secret and the current time (`session_claims_at` at the clock's reading;
/// a clock that reads before the Unix epoch refuses every token). Whatever
/// the clock says, a token this library issued under the secret gives back
/// exactly the claims it was issued with, or nothing once it has expired.
pub fn session_claims(token: Option<&str>, secret: &str) -> (r: Option<Claims>)
    ensures
        token is None ==> r is None,
        forall|c: Claims|
            (token matches Some(t) && jwt_hs256_token(#[trigger] claims_text(c), secret@) == Some(
                t@,
            )) ==> (r is None || r == Some(c)),
{
    let clock = system_time_now();
    match secs_since_epoch(&clock) {
        Some(now) => session_claims_at(token, secret, now),
        None => None,
    }
}

/// A token issued at time `issued` (when its expiry fits) is read back with
/// its claims at every time up to one day and the leeway later, and refused
/// at every later time; the user id and token version play no part.
pub proof fn lemma_token_lifetime(user_id: i32, token_version: i32, issued: u64, at: u64)
    requires
        issued + TOKEN_LIFETIME_SECS <= usize::MAX,
    ensures
        (at <= issued_claims(user_id, token_version, issued as int).exp + TOKEN_EXPIRY_LEEWAY_SECS)
            <==> (at <= issued + 86400 + 60),
{
}

// ---------------------------------------------------------------------------
// Session checks.
// ---------------------------------------------------------------------------

/// The message of every refused session.
pub open spec fn auth_required_text() -> Seq<char> {
    "認証が必要です"@
}

/// A session is accepted when a valid token's claims were presented, the
/// user still exists, and the token was issued at the user's current token
/// version.
pub open spec fn session_accepted(claims: Option<Claims>, current_version: Option<i32>) -> bool {
    &&& claims is Some
    &&& current_version is Some
    &&& claims->Some_0.ver == current_version->Some_0
}

/// Decides a request's authentication from the claims of its token cookie
/// (`None` when the cookie is missing or the token does not verify) and the
/// current token version of the user they name (`None` when the user cannot
/// be found).
pub fn authorize(claims: Option<Claims>, current_version: Option<i32>) -> (r: Result<
    AuthUser,
    AppError,
>)
    ensures
        r is Ok <==> session_accepted(claims, current_version),
        r matches Ok(u) ==> u.user_id == claims->Some_0.sub,
        r matches Err(e) ==> (e matches AppError::Unauthorized(m) && m@ == auth_required_text()),
{
    match (claims, current_version) {
        (Some(c), Some(v)) => {
            if c.ver == v {
                Ok(AuthUser { user_id: c.sub })
            } else {
                Err(AppError::Unauthorized(owned("認証が必要です")))
            }
        },
        _ => Err(AppError::Unauthorized(owned("認証が必要です"))),
    }
}

/// A token issued to a user is accepted as that user for as long as the
/// user's token version is the one it was issued at.
pub proof fn lemma_issued_token_accepted(user_id: i32, token_version: i32, now: int)
    ensures
        session_accepted(Some(issued_claims(user_id, token_version, now)), Some(token_version)),
        issued_claims(user_id, token_version, now).sub == user_id,
{
}

/// Once the user's token version has moved on (as logging out does), every
/// token issued at an earlier version is refused.
pub proof fn lemma_stale_token_refused(claims: Claims, current_version: i32)
    requires
        claims.ver != current_version,
    ensures
        !session_accepted(Some(claims), Some(current_version)),
{
}

} // verus!
