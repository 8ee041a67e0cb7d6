//! Local credential checks: the ERP password store and the local admin
//! table.
//!
//! The ERP store keeps passwords under a simple per-position displacement
//! cipher; the local table keeps bcrypt hashes (with a plain-comparison
//! fallback for legacy rows).  The database reads are performed by the
//! caller; the decisions here are pure.
//!
//! Whitespace trimming and case folding are ASCII-wise, the comparison
//! policy of the whole crate.

use vstd::prelude::*;
use vstd::string::*;
use crate::errors::CustomError;
use crate::models::{LocalCredentialRecord, User, UserInfo, Usuario};
use crate::outside::{bcrypt_verify, bcrypt_verifies, char_from_u32, valid_scalar};
use crate::textutil::{lower_char, spec_lower, str_eq, str_starts_with, push_char, substring};

verus! {

/// ASCII whitespace, the subset of whitespace this crate trims.
pub open spec fn is_ascii_ws(c: char) -> bool {
    c == ' ' || c == '\t' || c == '\n' || c == '\r' || c == '\x0b' || c == '\x0c'
}

fn is_ascii_ws_exec(c: char) -> (r: bool)
    ensures
        r == is_ascii_ws(c),
{
    c == ' ' || c == '\t' || c == '\n' || c == '\r' || c == '\x0b' || c == '\x0c'
}

/// `s` without its leading ASCII whitespace.
pub open spec fn spec_trim_start(s: Seq<char>) -> Seq<char>
    decreases s.len(),
{
    if s.len() > 0 && is_ascii_ws(s[0]) {
        spec_trim_start(s.drop_first())
    } else {
        s
    }
}

/// `s` without its trailing ASCII whitespace.
pub open spec fn spec_trim_end(s: Seq<char>) -> Seq<char>
    decreases s.len(),
{
    if s.len() > 0 && is_ascii_ws(s.last()) {
        spec_trim_end(s.drop_last())
    } else {
        s
    }
}

/// `s` without leading and trailing ASCII whitespace.
pub open spec fn spec_trim(s: Seq<char>) -> Seq<char> {
    spec_trim_end(spec_trim_start(s))
}

proof fn lemma_trim_start_skip(s: Seq<char>, k: int)
    requires
        0 <= k <= s.len(),
        forall|j: int| 0 <= j < k ==> is_ascii_ws(#[trigger] s[j]),
        k < s.len() ==> !is_ascii_ws(s[k]),
    ensures
        spec_trim_start(s) == s.skip(k),
    decreases k,
{
    if k == 0 {
        assert(s.skip(0) =~= s);
    } else {
        assert(is_ascii_ws(s[0]));
        lemma_trim_start_skip(s.drop_first(), k - 1);
        assert(s.drop_first() =~= s.skip(1));
        assert(s.skip(1).skip(k - 1) =~= s.skip(k));
    }
}

proof fn lemma_trim_end_take(s: Seq<char>, k: int)
    requires
        0 <= k <= s.len(),
        forall|j: int| k <= j < s.len() ==> is_ascii_ws(#[trigger] s[j]),
        k > 0 ==> !is_ascii_ws(s[k - 1]),
    ensures
        spec_trim_end(s) == s.take(k),
    decreases s.len() - k,
{
    if k == s.len() {
        assert(s.take(k) =~= s);
    } else {
        assert(is_ascii_ws(s.last()));
        lemma_trim_end_take(s.drop_last(), k);
        assert(s.drop_last() =~= s.take(s.len() - 1));
        assert(s.take(s.len() - 1).take(k) =~= s.take(k));
    }
}

/// Trims ASCII whitespace from both ends.
pub fn trim_ascii(s: &str) -> (r: String)
    ensures
        r@ == spec_trim(s@),
{
    let n = s.unicode_len();
    let mut a: usize = 0;
    while a < n && is_ascii_ws_exec(s.get_char(a))
        invariant
            n == s@.len(),
            a <= n,
            forall|j: int| 0 <= j < a ==> is_ascii_ws(#[trigger] s@[j]),
        decreases n - a,
    {
        a = a + 1;
    }
    let mut b: usize = n;
    while b > a && is_ascii_ws_exec(s.get_char(b - 1))
        invariant
            n == s@.len(),
            a <= b <= n,
            forall|j: int| b <= j < n ==> is_ascii_ws(#[trigger] s@[j]),
            forall|j: int| 0 <= j < a ==> is_ascii_ws(#[trigger] s@[j]),
            a < n ==> !is_ascii_ws(s@[a as int]),
        decreases b,
    {
        b = b - 1;
    }
    let r = substring(s, a, b);
    proof {
        lemma_trim_start_skip(s@, a as int);
        let t = s@.skip(a as int);
        lemma_trim_end_take(t, b - a);
        assert(t.take(b - a) =~= s@.subrange(a as int, b as int));
    }
    r
}

/// One character displaced by its (one-based) position: the character code
/// moves up (encrypt) or down (decrypt); a shift outside the space of
/// characters leaves the character unchanged.
pub open spec fn shift_char(c: char, i: int, encrypt: bool) -> char {
    let n = if encrypt {
        c as int + i + 1
    } else {
        c as int - i - 1
    };
    if valid_scalar(n) {
        ((n as u32) as char)
    } else {
        c
    }
}

/// The displacement cipher over a trimmed input: every character shifted
/// by its position, and the whole result lower-cased when decrypting.
pub open spec fn spec_displace(s: Seq<char>, encrypt: bool) -> Seq<char> {
    let shifted = s.map(|i: int, c: char| shift_char(c, i, encrypt));
    if encrypt {
        shifted
    } else {
        spec_lower(shifted)
    }
}

/// The simple displacement cipher of the ERP password store.  Encrypting
/// shifts each character of the trimmed input up by its position;
/// decrypting shifts down and lower-cases the result.
pub fn encrypt_password_simple_displacement(input: &str, encrypt: bool) -> (r: String)
    ensures
        r@ == spec_displace(spec_trim(input@), encrypt),
{
    let trimmed = trim_ascii(input);
    let t = trimmed.as_str();
    let n = t.unicode_len();
    let mut out = String::new();
    let ghost shifted: Seq<char> = t@.map(|i: int, c: char| shift_char(c, i, encrypt));
    let mut i: usize = 0;
    while i < n
        invariant
            n == t@.len(),
            i <= n,
            shifted == t@.map(|j: int, c: char| shift_char(c, j, encrypt)),
            out@ == (if encrypt {
                shifted.take(i as int)
            } else {
                spec_lower(shifted.take(i as int))
            }),
        decreases n - i,
    {
        let c = t.get_char(i);
        let shifted_c: char = if i >= 0x110000 {
            // the shift leaves the character space for any character
            c
        } else {
            let code: i64 = (c as u32) as i64;
            let seed: i64 = (i as i64) + 1;
            let moved: i64 = if encrypt {
                code + seed
            } else {
                code - seed
            };
            if moved >= 0 && moved <= 0x10FFFF {
                match char_from_u32(moved as u32) {
                    Some(c2) => c2,
                    None => c,
                }
            } else {
                c
            }
        };
        proof {
            assert(shifted_c == shift_char(c, i as int, encrypt));
            assert(shifted[i as int] == shift_char(c, i as int, encrypt));
        }
        if encrypt {
            push_char(&mut out, shifted_c);
            proof {
                assert(shifted.take(i + 1) =~= shifted.take(i as int).push(shifted[i as int]));
            }
        } else {
            push_char(&mut out, crate::textutil::lower_char_exec(shifted_c));
            proof {
                assert(shifted.take(i + 1) =~= shifted.take(i as int).push(shifted[i as int]));
                assert(spec_lower(shifted.take(i + 1)) =~= spec_lower(shifted.take(i as int)).push(
                    lower_char(shifted[i as int]),
                ));
            }
        }
        i = i + 1;
    }
    proof {
        assert(shifted.take(n as int) =~= shifted);
        assert(spec_trim(input@) == t@);
    }
    out
}

/// A character kept by sanitizing: printable ASCII or ASCII whitespace.
pub open spec fn keeps_char(c: char) -> bool {
    ('!' <= c && c <= '~') || c == ' ' || c == '\t' || c == '\n' || c == '\r' || c == '\x0c'
}

/// Drops every character that is neither printable ASCII nor ASCII
/// whitespace.
pub fn sanitize_string(s: &str) -> (r: String)
    ensures
        r@ == s@.filter(|c: char| keeps_char(c)),
{
    let n = s.unicode_len();
    let mut out = String::new();
    let mut i: usize = 0;
    proof {
        reveal(Seq::filter);
    }
    while i < n
        invariant
            n == s@.len(),
            i <= n,
            out@ == s@.take(i as int).filter(|c: char| keeps_char(c)),
        decreases n - i,
    {
        let c = s.get_char(i);
        let keep = (c >= '!' && c <= '~') || c == ' ' || c == '\t' || c == '\n' || c == '\r' || c
            == '\x0c';
        if keep {
            push_char(&mut out, c);
        }
        i = i + 1;
        proof {
            reveal(Seq::filter);
            let t = s@.take(i as int);
            assert(t.drop_last() =~= s@.take(i - 1));
            assert(t.last() == s@[i - 1]);
        }
    }
    proof {
        assert(s@.take(n as int) =~= s@);
    }
    out
}

/// Does a supplied password match a stored displacement-encrypted one?
pub fn verify_erp_password(supplied: &str, stored_encrypted: &str) -> (r: bool)
    ensures
        r == (supplied@ == spec_displace(spec_trim(stored_encrypted@), false)),
{
    let decrypted = encrypt_password_simple_displacement(stored_encrypted, false);
    str_eq(supplied, decrypted.as_str())
}

/// The development login stub: a fixed admin credential pair, everything
/// else rejected with `None`, never an error.
pub fn authenticate_user(usuario: &str, password: &str) -> (r: Result<Option<User>, String>)
    ensures
        usuario@ == "admin"@ && password@ == "password"@ ==> (r matches Ok(u) && u matches Some(
            user,
        ) && user.usuario_id is None && user.usuario@ == "admin"@ && user.nombre@
            == "Administrador Dummy"@ && user.correo@ == "Correo Dummy"@),
        !(usuario@ == "admin"@ && password@ == "password"@) ==> (r matches Ok(u) && u is None),
        r is Ok,
{
    if str_eq(usuario, "admin") && str_eq(password, "password") {
        Ok(
            Some(
                User {
                    usuario_id: None,
                    usuario: usuario.to_owned(),
                    nombre: "Administrador Dummy".to_owned(),
                    correo: "Correo Dummy".to_owned(),
                },
            ),
        )
    } else {
        Ok(None)
    }
}

/// ERP authentication decision, over the two rows the caller fetched: the
/// application user row and the ERP password row.  Succeeds exactly when
/// both rows exist and the supplied password matches the decrypted stored
/// one; each failure names its cause.
pub fn authenticate_erp_user(
    riy_user: &Option<Usuario>,
    erp_clave: &Option<String>,
    password: &str,
) -> (r: Result<UserInfo, CustomError>)
    ensures
        (*riy_user) is None ==> (r matches Err(e) && e matches CustomError::Unauthorized(_)),
        ((*riy_user) matches Some(_) && (*erp_clave) is None) ==> (r matches Err(e) && e matches
            CustomError::Unauthorized(_)),
        ((*riy_user) matches Some(_) && (*erp_clave) matches Some(clave) && password@
            != spec_displace(spec_trim(clave@), false)) ==> (r matches Err(e) && e matches
            CustomError::Unauthorized(_)),
        (*riy_user) matches Some(u) ==> ((((*erp_clave) matches Some(clave) && password@
            == spec_displace(spec_trim(clave@), false))) ==> (r matches Ok(info)
            && info.username@ == u.usuario@ && (info.name matches Some(nm) && nm@ == u.nombre@)
            && info.email@ == u.correo@)),
{
    let user = match riy_user {
        Some(u) => u,
        None => {
            return Err(
                CustomError::Unauthorized(
                    "Usuario no encontrado en la base de datos de la aplicacion.".to_owned(),
                ),
            );
        },
    };
    let clave = match erp_clave {
        Some(c) => c,
        None => {
            return Err(
                CustomError::Unauthorized(
                    "No se encontro la clave para el usuario en el ERP.".to_owned(),
                ),
            );
        },
    };
    if verify_erp_password(password, clave.as_str()) {
        Ok(
            UserInfo {
                username: user.usuario.clone(),
                email: user.correo.clone(),
                name: Some(user.nombre.clone()),
            },
        )
    } else {
        Err(CustomError::Unauthorized("Contrasena invalida.".to_owned()))
    }
}

/// Whether a stored local credential accepts a password: bcrypt when the
/// stored value is a bcrypt hash (`$2y$` prefix), plain comparison for
/// legacy rows.
pub open spec fn local_password_ok(password: Seq<char>, stored: Seq<char>) -> bool {
    if stored.len() >= 4 && stored.take(4) == "$2y$"@ {
        bcrypt_verifies(password, stored)
    } else {
        password == stored
    }
}

/// Local (admin table) authentication decision over the row the caller
/// fetched.  Succeeds exactly when the row exists, holds a credential, and
/// the password passes the stored credential's check.
pub fn authenticate_user_local_db(user_row: &Option<LocalCredentialRecord>, password: &str) -> (r:
    Result<UserInfo, CustomError>)
    ensures
        (*user_row) is None ==> (r matches Err(e) && e matches CustomError::Unauthorized(_)),
        ((*user_row) matches Some(u) && u.clave is None) ==> (r matches Err(e) && e matches
            CustomError::Unauthorized(_)),
        ((*user_row) matches Some(u) && u.clave matches Some(h) && !local_password_ok(
            password@,
            h@,
        )) ==> (r matches Err(e) && e matches CustomError::Unauthorized(_)),
        (*user_row) matches Some(u) ==> ((u.clave matches Some(h) && local_password_ok(
            password@,
            h@,
        )) ==> (r matches Ok(info) && info.username@ == u.usuario@ && (info.name matches Some(
        nm) && nm@ == u.nombre@) && info.email@ == u.correo@)),
{
    let record = match user_row {
        Some(u) => u,
        None => {
            return Err(CustomError::Unauthorized("Usuario local no encontrado.".to_owned()));
        },
    };
    let hash = match &record.clave {
        Some(h) => h,
        None => {
            return Err(
                CustomError::Unauthorized(
                    "La cuenta local no tiene una contrasena configurada.".to_owned(),
                ),
            );
        },
    };
    proof {
        reveal_strlit("$2y$");
    }
    let ok = if str_starts_with(hash.as_str(), "$2y$") {
        bcrypt_verify(password, hash.as_str())
    } else {
        str_eq(password, hash.as_str())
    };
    if ok {
        Ok(
            UserInfo {
                username: record.usuario.clone(),
                email: record.correo.clone(),
                name: Some(record.nombre.clone()),
            },
        )
    } else {
        Err(CustomError::Unauthorized("Contrasena local invalida.".to_owned()))
    }
}

} // verus!
