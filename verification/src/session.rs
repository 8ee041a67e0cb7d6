//! Session token issuance and validation.
//!
//! The application's own JWT is signed with a symmetric secret (HMAC-SHA-256)
//! and carries subject, permissions and a fixed 24-hour expiry.  Issuance
//! fails — it never substitutes a placeholder — when the user has no
//! non-empty username to use as subject.  The claims document handed to the
//! signer is built and escaped by verified code.

use vstd::prelude::*;
use vstd::string::*;
use crate::errors::AuthError;
use crate::models::{Claims, JwtClaims, LoggedInUser, LoginResponse, User};
use crate::outside::{hs256_sign, hs256_decode, hs256_jwt_of, json_get, json_as_str, json_as_u64,
    json_as_i64, json_as_array};
use crate::textutil::{append_json_escaped, push_char, spec_json_escape, spec_decimal,
    spec_decimal_signed, u64_to_string, i32_to_string, str_starts_with, substring};

verus! {

/// Seconds in the fixed 24-hour session lifetime.
pub open spec fn session_lifetime() -> int {
    86400
}

/// A JSON string literal: the escaped text between quotes.
pub open spec fn json_string_lit(s: Seq<char>) -> Seq<char> {
    seq!['"'] + spec_json_escape(s) + seq!['"']
}

/// The JSON rendering of a permissions array body (no brackets), in
/// insertion order, duplicates kept.
pub open spec fn spec_perms_array(perms: Seq<String>) -> Seq<char>
    decreases perms.len(),
{
    if perms.len() == 0 {
        Seq::empty()
    } else if perms.len() == 1 {
        json_string_lit(perms[0]@)
    } else {
        spec_perms_array(perms.drop_last()) + seq![','] + json_string_lit(perms.last()@)
    }
}

/// The rendering of a permission list depends only on the texts: two
/// lists with the same character content render identically.
pub proof fn lemma_perms_array_views(a: Seq<String>, b: Seq<String>)
    requires
        a.len() == b.len(),
        forall|i: int| #![trigger a[i], b[i]] 0 <= i < a.len() ==> a[i]@ == b[i]@,
    ensures
        spec_perms_array(a) == spec_perms_array(b),
    decreases a.len(),
{
    if a.len() > 0 {
        assert(forall|i: int|
            #![trigger a.drop_last()[i], b.drop_last()[i]]
            0 <= i < a.len() - 1 ==> a.drop_last()[i]@ == b.drop_last()[i]@) by {
            assert(forall|i: int|
                0 <= i < a.len() - 1 ==> a.drop_last()[i] == a[i] && b.drop_last()[i] == b[i]);
        }
        lemma_perms_array_views(a.drop_last(), b.drop_last());
        assert(a.last()@ == b.last()@);
    }
}

/// The claims document of a session token.
pub open spec fn spec_claims_json(sub: Seq<char>, perms: Seq<String>, exp: int) -> Seq<char> {
    "{\"sub\":"@ + json_string_lit(sub) + ",\"permissions\":["@ + spec_perms_array(perms) + "],\"exp\":"@
        + spec_decimal(exp) + "}"@
}

/// Builds the session claims document.
pub fn claims_json(sub: &str, permissions: &Vec<String>, exp: u64) -> (r: String)
    ensures
        r@ == spec_claims_json(sub@, permissions@, exp as int),
{
    let mut out = String::new();
    out.append("{\"sub\":");
    push_char(&mut out, '"');
    append_json_escaped(&mut out, sub);
    push_char(&mut out, '"');
    out.append(",\"permissions\":[");
    let ghost prefix: Seq<char> = out@;
    let n = permissions.len();
    let mut i: usize = 0;
    while i < n
        invariant
            n == permissions@.len(),
            i <= n,
            out@ == prefix + spec_perms_array(permissions@.take(i as int)),
        decreases n - i,
    {
        if i > 0 {
            push_char(&mut out, ',');
        }
        push_char(&mut out, '"');
        append_json_escaped(&mut out, permissions[i].as_str());
        push_char(&mut out, '"');
        i = i + 1;
        proof {
            let t = permissions@.take(i as int);
            assert(t.drop_last() =~= permissions@.take(i - 1));
            assert(t.last() == permissions@[i - 1]);
            assert(json_string_lit(permissions@[i - 1]@) =~= seq!['"'] + spec_json_escape(
                permissions@[i - 1]@,
            ) + seq!['"']);
            assert(out@ =~= prefix + spec_perms_array(t));
        }
    }
    proof {
        assert(permissions@.take(n as int) =~= permissions@);
    }
    out.append("],\"exp\":");
    let exp_digits = u64_to_string(exp);
    out.append(exp_digits.as_str());
    out.append("}");
    proof {
        assert(out@ =~= spec_claims_json(sub@, permissions@, exp as int));
    }
    out
}

/// Issues the session JWT for an authenticated user.  Fails — and emits
/// nothing — when the user has no non-empty username for the subject, or
/// when signing fails; the token otherwise signs exactly the claims
/// document for this subject, these permissions (in order) and an expiry
/// 24 hours past `now`.
pub fn generate_jwt(
    logged_in_user: &LoggedInUser,
    permissions: Vec<String>,
    jwt_secret: &str,
    now: u64,
) -> (r: Result<String, AuthError>)
    requires
        now + session_lifetime() <= u64::MAX,
    ensures
        r matches Ok(t) ==> (logged_in_user.usuario matches Some(u) && u@.len() > 0 && hs256_jwt_of(
            spec_claims_json(u@, permissions@, now + session_lifetime()),
            jwt_secret@,
        ) == Some(t@)),
        logged_in_user.usuario matches Some(u) ==> (u@.len() > 0 ==> (r is Ok <==> hs256_jwt_of(
            spec_claims_json(u@, permissions@, now + session_lifetime()),
            jwt_secret@,
        ) is Some)),
        logged_in_user.usuario is None ==> r == Err::<String, AuthError>(
            AuthError::TokenIssuanceFailure,
        ),
        (logged_in_user.usuario matches Some(u) && u@.len() == 0) ==> r == Err::<String, AuthError>(
            AuthError::TokenIssuanceFailure,
        ),
        r matches Err(e) ==> e == AuthError::TokenIssuanceFailure,
{
    let sub = match &logged_in_user.usuario {
        Some(u) => u.as_str(),
        None => {
            return Err(AuthError::TokenIssuanceFailure);
        },
    };
    if sub.unicode_len() == 0 {
        return Err(AuthError::TokenIssuanceFailure);
    }
    let doc = claims_json(sub, &permissions, now + 86400);
    match hs256_sign(doc.as_str(), jwt_secret) {
        Some(t) => Ok(t),
        None => Err(AuthError::TokenIssuanceFailure),
    }
}

/// The issuer name of the application's own JWTs.
pub fn app_issuer() -> (r: &'static str)
    ensures
        r@ == "my_rust_backend"@,
{
    "my_rust_backend"
}

/// The claims document of an application JWT for a user id.
pub open spec fn spec_app_claims_json(user_id: int, now: int) -> Seq<char> {
    "{\"sub\":"@ + json_string_lit(spec_decimal_signed(user_id)) + ",\"iss\":\"my_rust_backend\",\"exp\":"@
        + spec_decimal(now + session_lifetime()) + ",\"iat\":"@ + spec_decimal(now)
        + ",\"usuario_id\":"@ + spec_decimal_signed(user_id) + "}"@
}

/// Issues the application JWT identifying a user id; it expires 24 hours
/// past `now`.
pub fn generate_app_jwt(secret: &str, user_id: i32, now: u64) -> (r: Result<String, AuthError>)
    requires
        now + session_lifetime() <= u64::MAX,
    ensures
        r matches Ok(t) ==> hs256_jwt_of(spec_app_claims_json(user_id as int, now as int), secret@)
            == Some(t@),
        r is Ok <==> hs256_jwt_of(spec_app_claims_json(user_id as int, now as int), secret@)
            is Some,
        r matches Err(e) ==> e == AuthError::TokenIssuanceFailure,
{
    let sub_digits = i32_to_string(user_id);
    let mut out = String::new();
    out.append("{\"sub\":");
    push_char(&mut out, '"');
    append_json_escaped(&mut out, sub_digits.as_str());
    push_char(&mut out, '"');
    out.append(",\"iss\":\"my_rust_backend\",\"exp\":");
    let exp_digits = u64_to_string(now + 86400);
    out.append(exp_digits.as_str());
    out.append(",\"iat\":");
    let iat_digits = u64_to_string(now);
    out.append(iat_digits.as_str());
    out.append(",\"usuario_id\":");
    let id_digits = i32_to_string(user_id);
    out.append(id_digits.as_str());
    out.append("}");
    proof {
        lemma_decimal_digits_unescaped(user_id as int);
        assert(out@ =~= spec_app_claims_json(user_id as int, now as int));
    }
    match hs256_sign(out.as_str(), secret) {
        Some(t) => Ok(t),
        None => Err(AuthError::TokenIssuanceFailure),
    }
}

/// Decimal renderings contain only digits and a sign, which JSON escaping
/// leaves untouched.
proof fn lemma_decimal_digits_unescaped(n: int)
    ensures
        spec_json_escape(spec_decimal_signed(n)) == spec_decimal_signed(n),
{
    lemma_decimal_chars_plain(if n < 0 {
        -n
    } else {
        n
    });
    if n < 0 {
        lemma_escape_plain_seq(seq!['-'] + spec_decimal(-n));
    } else {
        lemma_escape_plain_seq(spec_decimal(n));
    }
}

/// Every character of a decimal rendering is a plain digit.
proof fn lemma_decimal_chars_plain(n: int)
    ensures
        forall|i: int|
            0 <= i < spec_decimal(n).len() ==> is_plain_char(#[trigger] spec_decimal(n)[i]),
    decreases n,
{
    if n >= 10 {
        lemma_decimal_chars_plain(n / 10);
        assert(forall|i: int|
            0 <= i < spec_decimal(n / 10).len() ==> is_plain_char(
                #[trigger] spec_decimal(n)[i],
            )) by {
            assert(forall|i: int|
                0 <= i < spec_decimal(n / 10).len() ==> spec_decimal(n)[i] == #[trigger] spec_decimal(
                    n / 10,
                )[i]);
        }
    }
}

/// A character JSON escaping leaves alone.
pub open spec fn is_plain_char(c: char) -> bool {
    c != '"' && c != '\\' && (c as int) >= 32
}

/// JSON escaping is the identity on sequences of plain characters.
proof fn lemma_escape_plain_seq(s: Seq<char>)
    requires
        forall|i: int| 0 <= i < s.len() ==> is_plain_char(#[trigger] s[i]),
    ensures
        spec_json_escape(s) == s,
    decreases s.len(),
{
    if s.len() == 0 {
        assert(spec_json_escape(s) =~= s);
    } else {
        lemma_escape_plain_seq(s.drop_first());
        assert(crate::textutil::escape_char(s[0]) =~= seq![s[0]]);
        assert(spec_json_escape(s) =~= seq![s[0]] + s.drop_first());
        assert(seq![s[0]] + s.drop_first() =~= s);
    }
}

/// Reads `Bearer <token>` out of an authorization header value.
pub fn strip_bearer(header: &str) -> (r: Option<String>)
    ensures
        r is Some <==> header@.len() >= 7 && header@.take(7) == "Bearer "@,
        r matches Some(t) ==> t@ == header@.skip(7),
{
    if str_starts_with(header, "Bearer ") {
        proof {
            reveal_strlit("Bearer ");
        }
        let n = header.unicode_len();
        let t = substring(header, 7, n);
        proof {
            assert(header@.subrange(7, header@.len() as int) =~= header@.skip(7));
        }
        Some(t)
    } else {
        proof {
            reveal_strlit("Bearer ");
        }
        None
    }
}

/// Validates an application JWT and returns its claims.  The signature and
/// expiry are checked by the decoder; a token whose claims lack the
/// expected fields is malformed.
pub fn validate_app_jwt(secret: &str, token: &str) -> (r: Result<JwtClaims, AuthError>)
    ensures
        r matches Err(e) ==> (e == AuthError::SignatureInvalid || e == AuthError::MalformedToken),
{
    let doc = match hs256_decode(token, secret) {
        Some(v) => v,
        None => {
            return Err(AuthError::SignatureInvalid);
        },
    };
    let sub = match crate::jwks::get_str_field(&doc, "sub") {
        Some(s) => s,
        None => {
            return Err(AuthError::MalformedToken);
        },
    };
    let iss = match crate::jwks::get_str_field(&doc, "iss") {
        Some(s) => s,
        None => {
            return Err(AuthError::MalformedToken);
        },
    };
    let exp = match get_u64_field(&doc, "exp") {
        Some(v) => v,
        None => {
            return Err(AuthError::MalformedToken);
        },
    };
    let iat = match get_u64_field(&doc, "iat") {
        Some(v) => v,
        None => {
            return Err(AuthError::MalformedToken);
        },
    };
    let usuario_id = match get_i64_field(&doc, "usuario_id") {
        Some(v) => v,
        None => {
            return Err(AuthError::MalformedToken);
        },
    };
    if usuario_id > (i32::MAX as i64) || usuario_id < (i32::MIN as i64) {
        return Err(AuthError::MalformedToken);
    }
    if exp > (usize::MAX as u64) || iat > (usize::MAX as u64) {
        return Err(AuthError::MalformedToken);
    }
    Ok(
        JwtClaims {
            sub,
            iss,
            exp: exp as usize,
            iat: iat as usize,
            usuario_id: usuario_id as i32,
        },
    )
}

/// Decodes the session claims a middleware consumes: subject, permissions
/// and expiry, from a bearer token signed with the application secret.
pub fn decode_session_claims(token: &str, secret: &str) -> (r: Option<Claims>) {
    let doc = match hs256_decode(token, secret) {
        Some(v) => v,
        None => {
            return None;
        },
    };
    let sub = match crate::jwks::get_str_field(&doc, "sub") {
        Some(s) => s,
        None => {
            return None;
        },
    };
    let exp = match get_u64_field(&doc, "exp") {
        Some(v) => v,
        None => {
            return None;
        },
    };
    let perms_val = match json_get(&doc, "permissions") {
        Some(v) => v,
        None => {
            return None;
        },
    };
    let arr = match json_as_array(perms_val) {
        Some(a) => a,
        None => {
            return None;
        },
    };
    let mut permissions: Vec<String> = Vec::new();
    let n = arr.len();
    let mut i: usize = 0;
    while i < n
        invariant
            n == arr@.len(),
            i <= n,
        decreases n - i,
    {
        match json_as_str(&arr[i]) {
            Some(s) => permissions.push(s),
            None => {
                return None;
            },
        }
        i = i + 1;
    }
    Some(Claims { sub, permissions, exp })
}

fn get_u64_field(v: &serde_json::Value, key: &str) -> Option<u64> {
    match json_get(v, key) {
        Some(x) => json_as_u64(x),
        None => None,
    }
}

fn get_i64_field(v: &serde_json::Value, key: &str) -> Option<i64> {
    match json_get(v, key) {
        Some(x) => json_as_i64(x),
        None => None,
    }
}

/// Builds the full login response: the signed session token plus the user
/// and permissions it was issued for.  Like every issuance path, it fails
/// on an empty username rather than signing an empty subject.
pub fn create_session_response(
    user: User,
    permissions: Vec<String>,
    jwt_secret: &str,
    now: u64,
) -> (r: Result<LoginResponse, AuthError>)
    requires
        now + session_lifetime() <= u64::MAX,
    ensures
        r matches Ok(resp) ==> (user.usuario@.len() > 0 && hs256_jwt_of(
            spec_claims_json(user.usuario@, permissions@, now + session_lifetime()),
            jwt_secret@,
        ) == Some(resp.token@) && resp.user == user && resp.permissions == permissions),
        user.usuario@.len() > 0 ==> (r is Ok <==> hs256_jwt_of(
            spec_claims_json(user.usuario@, permissions@, now + session_lifetime()),
            jwt_secret@,
        ) is Some),
        user.usuario@.len() == 0 ==> (r matches Err(e) && e == AuthError::TokenIssuanceFailure),
        r matches Err(e) ==> e == AuthError::TokenIssuanceFailure,
{
    if user.usuario.as_str().unicode_len() == 0 {
        return Err(AuthError::TokenIssuanceFailure);
    }
    let doc = claims_json(user.usuario.as_str(), &permissions, now + 86400);
    match hs256_sign(doc.as_str(), jwt_secret) {
        Some(token) => Ok(LoginResponse { token, user, permissions }),
        None => Err(AuthError::TokenIssuanceFailure),
    }
}

} // verus!
