//! License checking and installation.
//!
//! A license row binds an application, server and database to an expiry
//! date through a keyed checksum; installing one decrypts an AES-256-GCM
//! credential blob, checks that it names the current connection, and tells
//! the caller what to store.  The database reads, writes and the server-side
//! checksum are performed by the caller; every decision here is verified.
//!
//! Dates travel as fixed-width strings (`YYYY-MM-DD`, with time
//! `YYYY-MM-DD HH:MM:SS`, compact `YYYYMMDD`) and are parsed into plain
//! year-month-day values checked against the calendar.

use vstd::prelude::*;
use vstd::string::*;
use crate::db::{spec_after_scheme, spec_authority, spec_host_of_authority,
    spec_first_path_segment};
use crate::outside::{b64_decode, b64std_bytes_of, aes256gcm_decrypt, aes256gcm_plain_of,
    bytes_to_string, utf8_chars_of};
use crate::textutil::{spec_digits_val, parse_digits, spec_lower, str_eq, str_eq_ignore_case,
    split4, substring, first_segment};

verus! {

/// Outcome of a license check.
#[derive(Clone, Copy, Debug, PartialEq, Eq, Structural)]
pub enum LicenseStatus {
    Valid,
    Expired,
    NotFound,
    InvalidHash,
    Corrupted,
}

/// A license check outcome with its user-facing message.
#[derive(Clone, Debug)]
pub struct LicenseCheckResult {
    pub status: LicenseStatus,
    pub message: String,
}

/// The license row as read from the store.
#[derive(Clone, Debug)]
pub struct LicenseData {
    pub hash_licencia_hex: Option<String>,
    pub fecha_caducidad_str: String,
    pub credencial_encriptada: String,
}

/// A calendar date as plain values.
#[derive(Clone, Copy, Debug, PartialEq, Eq, Structural)]
pub struct LicenseDate {
    pub y: u32,
    pub m: u32,
    pub d: u32,
}

/// Leap years of the Gregorian calendar.
pub open spec fn spec_is_leap(y: int) -> bool {
    y % 4 == 0 && (y % 100 != 0 || y % 400 == 0)
}

/// Days of a month.
pub open spec fn spec_days_in_month(y: int, m: int) -> int {
    if m == 2 {
        if spec_is_leap(y) {
            29
        } else {
            28
        }
    } else if m == 4 || m == 6 || m == 9 || m == 11 {
        30
    } else {
        31
    }
}

/// A real calendar date.
pub open spec fn spec_valid_date(y: int, m: int, d: int) -> bool {
    1 <= m <= 12 && 1 <= d <= spec_days_in_month(y, m)
}

/// Calendar order on dates.
pub open spec fn spec_date_le(a: LicenseDate, b: LicenseDate) -> bool {
    if a.y != b.y {
        a.y < b.y
    } else if a.m != b.m {
        a.m < b.m
    } else {
        a.d <= b.d
    }
}

pub fn date_le(a: &LicenseDate, b: &LicenseDate) -> (r: bool)
    ensures
        r == spec_date_le(*a, *b),
{
    if a.y != b.y {
        a.y < b.y
    } else if a.m != b.m {
        a.m < b.m
    } else {
        a.d <= b.d
    }
}

/// The date encoded at `s[at..at+10]` as fixed-width `YYYY-MM-DD`, when
/// well formed and a real calendar date.
pub open spec fn spec_date_at(s: Seq<char>, at: int) -> Option<LicenseDate> {
    if at + 10 <= s.len() && s[at + 4] == '-' && s[at + 7] == '-' {
        match (spec_digits_val(s, at, at + 4), spec_digits_val(s, at + 5, at + 7), spec_digits_val(
            s,
            at + 8,
            at + 10,
        )) {
            (Some(y), Some(m), Some(d)) => {
                if spec_valid_date(y, m, d) {
                    Some(LicenseDate { y: y as u32, m: m as u32, d: d as u32 })
                } else {
                    None
                }
            },
            _ => None,
        }
    } else {
        None
    }
}

fn valid_date_exec(y: u32, m: u32, d: u32) -> (r: bool)
    ensures
        r == spec_valid_date(y as int, m as int, d as int),
{
    let leap = y % 4 == 0 && (y % 100 != 0 || y % 400 == 0);
    let dim: u32 = if m == 2 {
        if leap {
            29
        } else {
            28
        }
    } else if m == 4 || m == 6 || m == 9 || m == 11 {
        30
    } else {
        31
    };
    1 <= m && m <= 12 && 1 <= d && d <= dim
}

/// Parses the fixed-width date at `s[at..at+10]`.
pub fn parse_date_at(s: &str, at: usize) -> (r: Option<LicenseDate>)
    requires
        at + 10 <= s@.len(),
        s@.len() <= usize::MAX,
    ensures
        r == spec_date_at(s@, at as int),
{
    if !(s.get_char(at + 4) == '-' && s.get_char(at + 7) == '-') {
        return None;
    }
    let y = match parse_digits(s, at, at + 4) {
        Some(v) => v,
        None => {
            return None;
        },
    };
    let m = match parse_digits(s, at + 5, at + 7) {
        Some(v) => v,
        None => {
            return None;
        },
    };
    let d = match parse_digits(s, at + 8, at + 10) {
        Some(v) => v,
        None => {
            return None;
        },
    };
    if valid_date_exec(y, m, d) {
        Some(LicenseDate { y, m, d })
    } else {
        None
    }
}

/// The date of a fixed-width `YYYY-MM-DD` string.
pub open spec fn spec_parse_ymd(s: Seq<char>) -> Option<LicenseDate> {
    if s.len() == 10 {
        spec_date_at(s, 0)
    } else {
        None
    }
}

/// Parses a `YYYY-MM-DD` string.
pub fn parse_ymd(s: &str) -> (r: Option<LicenseDate>)
    ensures
        r == spec_parse_ymd(s@),
{
    if s.unicode_len() != 10 {
        return None;
    }
    parse_date_at(s, 0)
}

/// Is `s[at..at+2]` a two-digit value below `bound`?
fn two_digits_below(s: &str, at: usize, bound: u32) -> (r: bool)
    requires
        at + 2 <= s@.len(),
        s@.len() <= usize::MAX,
    ensures
        r == (spec_digits_val(s@, at as int, at + 2) matches Some(v) && v < bound),
{
    match parse_digits(s, at, at + 2) {
        Some(v) => v < bound,
        None => false,
    }
}

/// The date part of a fixed-width `YYYY-MM-DD HH:MM:SS` string whose time
/// part is well formed.
pub open spec fn spec_parse_datetime_date(s: Seq<char>) -> Option<LicenseDate> {
    if s.len() == 19 && s[10] == ' ' && s[13] == ':' && s[16] == ':' && (spec_digits_val(s, 11, 13)
        matches Some(h) && h < 24) && (spec_digits_val(s, 14, 16) matches Some(mi) && mi < 60) && (
    spec_digits_val(s, 17, 19) matches Some(sec) && sec < 60) {
        spec_date_at(s, 0)
    } else {
        None
    }
}

/// Parses the date out of a `YYYY-MM-DD HH:MM:SS` string, validating the
/// whole pattern.
pub fn parse_datetime_date(s: &str) -> (r: Option<LicenseDate>)
    ensures
        r == spec_parse_datetime_date(s@),
{
    if s.unicode_len() != 19 {
        return None;
    }
    if !(s.get_char(10) == ' ' && s.get_char(13) == ':' && s.get_char(16) == ':') {
        return None;
    }
    if !(two_digits_below(s, 11, 24) && two_digits_below(s, 14, 60) && two_digits_below(
        s,
        17,
        60,
    )) {
        return None;
    }
    parse_date_at(s, 0)
}

/// The date of a compact `YYYYMMDD` string.
pub open spec fn spec_parse_compact(s: Seq<char>) -> Option<LicenseDate> {
    if s.len() == 8 {
        match (spec_digits_val(s, 0, 4), spec_digits_val(s, 4, 6), spec_digits_val(s, 6, 8)) {
            (Some(y), Some(m), Some(d)) => {
                if spec_valid_date(y, m, d) {
                    Some(LicenseDate { y: y as u32, m: m as u32, d: d as u32 })
                } else {
                    None
                }
            },
            _ => None,
        }
    } else {
        None
    }
}

/// Parses a compact `YYYYMMDD` date.
pub fn parse_compact(s: &str) -> (r: Option<LicenseDate>)
    ensures
        r == spec_parse_compact(s@),
{
    if s.unicode_len() != 8 {
        return None;
    }
    let y = match parse_digits(s, 0, 4) {
        Some(v) => v,
        None => {
            return None;
        },
    };
    let m = match parse_digits(s, 4, 6) {
        Some(v) => v,
        None => {
            return None;
        },
    };
    let d = match parse_digits(s, 6, 8) {
        Some(v) => v,
        None => {
            return None;
        },
    };
    if valid_date_exec(y, m, d) {
        Some(LicenseDate { y, m, d })
    } else {
        None
    }
}

/// The string whose server-side checksum seals a license:
/// `server|database|date|application|keyword`.
pub fn license_hash_input(
    server: &str,
    db: &str,
    date_str: &str,
    app: &str,
    keyword: &str,
) -> (r: String)
    ensures
        r@ == server@ + "|"@ + db@ + "|"@ + date_str@ + "|"@ + app@ + "|"@ + keyword@,
{
    let mut out: String = server.to_owned();
    out.append("|");
    out.append(db);
    out.append("|");
    out.append(date_str);
    out.append("|");
    out.append(app);
    out.append("|");
    out.append(keyword);
    out
}

/// First phase of a license check: reads the stored row, or classifies the
/// failure.  On success it hands back the stored hash, the expiry date and
/// the `YYYY-MM-DD` date text that enters the checksum.
pub fn license_check_data(row: &Option<LicenseData>) -> (r: Result<
    (String, LicenseDate, String),
    LicenseCheckResult,
>)
    ensures
        (*row) is None ==> (r matches Err(o) && o.status == LicenseStatus::NotFound),
        (*row) matches Some(data) ==> ((data.hash_licencia_hex is None ==> (r matches Err(o)
            && o.status == LicenseStatus::InvalidHash)) && ((data.hash_licencia_hex matches Some(_)
            && spec_parse_datetime_date(data.fecha_caducidad_str@) is None) ==> (r matches Err(o)
            && o.status == LicenseStatus::Corrupted))),
        (*row) matches Some(data) ==> (data.hash_licencia_hex matches Some(h) ==> (
        spec_parse_datetime_date(data.fecha_caducidad_str@) matches Some(exp) ==> (r matches Ok(
            t,
        ) && t.0@ == h@ && t.1 == exp && t.2@ == data.fecha_caducidad_str@.subrange(0, 10)))),
{
    let data = match row {
        Some(d) => d,
        None => {
            return Err(
                LicenseCheckResult {
                    status: LicenseStatus::NotFound,
                    message:
                        "Esta es la primera vez que se inicia la aplicacion o se ha eliminado la licencia.".to_owned(),
                },
            );
        },
    };
    let stored_hash = match &data.hash_licencia_hex {
        Some(h) => h.clone(),
        None => {
            return Err(
                LicenseCheckResult {
                    status: LicenseStatus::InvalidHash,
                    message:
                        "No se encontro el hash de la licencia. Las credenciales no son validas.".to_owned(),
                },
            );
        },
    };
    let expiry = match parse_datetime_date(data.fecha_caducidad_str.as_str()) {
        Some(e) => e,
        None => {
            return Err(
                LicenseCheckResult {
                    status: LicenseStatus::Corrupted,
                    message:
                        "Error de formato de licencia: la fecha de vencimiento no tiene un formato valido.".to_owned(),
                },
            );
        },
    };
    let date_text = substring(data.fecha_caducidad_str.as_str(), 0, 10);
    Ok((stored_hash, expiry, date_text))
}

/// Second phase of a license check, after the caller computed the
/// server-side checksum: the license is valid exactly when the checksum
/// matches the stored hash and the expiry date has not passed.
pub fn classify_license(
    stored_hash: &str,
    computed_hash: &str,
    expiry: &LicenseDate,
    today: &LicenseDate,
) -> (r: LicenseCheckResult)
    ensures
        stored_hash@ == computed_hash@ && spec_date_le(*today, *expiry) ==> r.status
            == LicenseStatus::Valid,
        stored_hash@ == computed_hash@ && !spec_date_le(*today, *expiry) ==> r.status
            == LicenseStatus::Expired,
        stored_hash@ != computed_hash@ ==> r.status == LicenseStatus::InvalidHash,
{
    if str_eq(computed_hash, stored_hash) {
        if date_le(today, expiry) {
            LicenseCheckResult {
                status: LicenseStatus::Valid,
                message: "Licencia valida y vigente.".to_owned(),
            }
        } else {
            LicenseCheckResult {
                status: LicenseStatus::Expired,
                message: "La licencia ha expirado. Por favor, renuevela.".to_owned(),
            }
        }
    } else {
        LicenseCheckResult {
            status: LicenseStatus::InvalidHash,
            message: "El hash de la licencia no coincide. Credenciales no validas.".to_owned(),
        }
    }
}

/// Hexadecimal value of one character.
pub open spec fn spec_hex_val(c: char) -> Option<int> {
    if '0' <= c && c <= '9' {
        Some(c as int - 48)
    } else if 'a' <= c && c <= 'f' {
        Some(c as int - 87)
    } else if 'A' <= c && c <= 'F' {
        Some(c as int - 55)
    } else {
        None
    }
}

/// Bytes of a hexadecimal string: two digits per byte, failing on an odd
/// length or any non-hexadecimal character.
pub open spec fn spec_hex_decode(s: Seq<char>) -> Option<Seq<u8>>
    decreases s.len(),
{
    if s.len() == 0 {
        Some(Seq::empty())
    } else if s.len() == 1 {
        None
    } else {
        match (spec_hex_val(s[0]), spec_hex_val(s[1]), spec_hex_decode(s.skip(2))) {
            (Some(h), Some(l), Some(rest)) => Some(seq![(h * 16 + l) as u8] + rest),
            _ => None,
        }
    }
}

fn hex_val_exec(c: char) -> (r: Option<u32>)
    ensures
        r is Some <==> spec_hex_val(c) is Some,
        r matches Some(v) ==> spec_hex_val(c) == Some(v as int) && v < 16,
{
    if c >= '0' && c <= '9' {
        Some((c as u32) - 48)
    } else if c >= 'a' && c <= 'f' {
        Some((c as u32) - 87)
    } else if c >= 'A' && c <= 'F' {
        Some((c as u32) - 55)
    } else {
        None
    }
}

/// Decodes a hexadecimal string.
pub fn hex_decode(s: &str) -> (r: Option<Vec<u8>>)
    ensures
        r is Some <==> spec_hex_decode(s@) is Some,
        r matches Some(b) ==> spec_hex_decode(s@) == Some(b@),
{
    let n = s.unicode_len();
    if n % 2 != 0 {
        proof {
            lemma_hex_decode_odd(s@);
        }
        return None;
    }
    let mut out: Vec<u8> = Vec::new();
    let mut i: usize = 0;
    proof {
        assert(s@.skip(0) =~= s@);
    }
    while i < n
        invariant
            n == s@.len(),
            n % 2 == 0,
            i <= n,
            i % 2 == 0,
            out@.len() == i / 2,
            spec_hex_decode(s@) matches Some(full) ==> (spec_hex_decode(s@.skip(i as int)) matches
                Some(rest) && full == out@ + rest),
            spec_hex_decode(s@) is None ==> spec_hex_decode(s@.skip(i as int)) is None,
        decreases n - i,
    {
        let c0 = s.get_char(i);
        let c1 = s.get_char(i + 1);
        let h = hex_val_exec(c0);
        let l = hex_val_exec(c1);
        proof {
            assert(s@.skip(i as int)[0] == s@[i as int]);
            assert(s@.skip(i as int)[1] == s@[i + 1]);
            assert(s@.skip(i as int).skip(2) =~= s@.skip(i + 2));
        }
        match (h, l) {
            (Some(hv), Some(lv)) => {
                out.push((hv * 16 + lv) as u8);
                proof {
                    match spec_hex_decode(s@.skip(i + 2)) {
                        Some(rest2) => {
                            assert(spec_hex_decode(s@.skip(i as int)) == Some(
                                seq![((hv * 16 + lv) as int as u8)] + rest2,
                            ));
                            assert(out@ + rest2 =~= out@.drop_last() + (seq![
                                ((hv * 16 + lv) as int as u8),
                            ] + rest2));
                        },
                        None => {},
                    }
                }
            },
            _ => {
                proof {
                    assert(spec_hex_decode(s@.skip(i as int)) is None);
                }
                return None;
            },
        }
        i = i + 2;
    }
    proof {
        assert(s@.skip(n as int) =~= Seq::<char>::empty());
        assert(spec_hex_decode(s@.skip(n as int)) == Some(Seq::<u8>::empty()));
        match spec_hex_decode(s@) {
            Some(full) => {
                assert(full =~= out@ + Seq::<u8>::empty());
                assert(full =~= out@);
            },
            None => {},
        }
    }
    Some(out)
}

/// A string of odd length is not hexadecimal.
proof fn lemma_hex_decode_odd(s: Seq<char>)
    requires
        s.len() % 2 == 1,
    ensures
        spec_hex_decode(s) is None,
    decreases s.len(),
{
    if s.len() > 1 {
        lemma_hex_decode_odd(s.skip(2));
    }
}

/// The characters hidden in an encrypted credential: hex-decode the
/// 32-byte key, base64-decode the blob, split off the 12-byte nonce,
/// decrypt, and read the plaintext as UTF-8.
pub open spec fn spec_decrypt_chain(enc: Seq<char>, key: Seq<char>) -> Option<Seq<char>> {
    match spec_hex_decode(key) {
        None => None,
        Some(kb) => {
            if kb.len() != 32 {
                None
            } else {
                match b64std_bytes_of(enc) {
                    None => None,
                    Some(raw) => {
                        if raw.len() < 28 {
                            None
                        } else {
                            match aes256gcm_plain_of(
                                kb,
                                raw.subrange(0, 12),
                                raw.subrange(12, raw.len() as int),
                            ) {
                                None => None,
                                Some(pt) => utf8_chars_of(pt),
                            }
                        }
                    },
                }
            }
        },
    }
}

/// The fields of an encrypted credential:
/// `server|database|YYYYMMDD|application`.
pub open spec fn spec_parse_credential(enc: Seq<char>, key: Seq<char>) -> Option<
    (Seq<char>, Seq<char>, LicenseDate, Seq<char>),
> {
    match spec_decrypt_chain(enc, key) {
        None => None,
        Some(chars) => match crate::textutil::spec_split4(chars, '|') {
            None => None,
            Some(parts) => match spec_parse_compact(parts.2) {
                None => None,
                Some(date) => Some((parts.0, parts.1, date, parts.3)),
            },
        },
    }
}

/// Decrypts an installation credential and reads its four fields: the
/// server, database and application it was issued for, and its expiry
/// date.  Succeeds exactly when the key is 32 hexadecimal bytes, the blob
/// is base64 with room for nonce and tag, decryption authenticates, and
/// the plaintext has the expected shape.
pub fn decrypt_and_parse_license_data(
    encrypted_credential_b64: &str,
    key_str: &str,
) -> (r: Result<(String, String, LicenseDate, String), String>)
    ensures
        r is Ok <==> spec_parse_credential(encrypted_credential_b64@, key_str@) is Some,
        r matches Ok(t) ==> spec_parse_credential(encrypted_credential_b64@, key_str@) == Some(
            (t.0@, t.1@, t.2, t.3@),
        ),
{
    let key_bytes = match hex_decode(key_str) {
        Some(b) => b,
        None => {
            return Err(
                "La clave de licencia no es un string hexadecimal valido de 32 bytes.".to_owned(),
            );
        },
    };
    if key_bytes.len() != 32 {
        return Err("La clave de licencia debe ser una clave de 32 bytes (256 bits).".to_owned());
    }
    let decoded = match b64_decode(encrypted_credential_b64) {
        Some(b) => b,
        None => {
            return Err("Error al decodificar Base64 de la credencial.".to_owned());
        },
    };
    if decoded.len() < 28 {
        return Err("Datos encriptados demasiado cortos para Nonce y Tag.".to_owned());
    }
    let nonce = vstd::slice::slice_subrange(decoded.as_slice(), 0, 12);
    let ct = vstd::slice::slice_subrange(decoded.as_slice(), 12, decoded.len());
    let plain = match aes256gcm_decrypt(key_bytes.as_slice(), nonce, ct) {
        Some(p) => p,
        None => {
            return Err(
                "Fallo en la desencriptacion. Clave, Nonce o datos invalidos. La credencial es incorrecta.".to_owned(),
            );
        },
    };
    let text = match bytes_to_string(plain) {
        Some(t) => t,
        None => {
            return Err("Los datos desencriptados no son UTF-8 validos.".to_owned());
        },
    };
    let parts = match split4(text.as_str(), '|') {
        Some(p) => p,
        None => {
            return Err(
                "La cadena desencriptada tiene un formato inesperado. Formato esperado: 'nombreServidor|baseDatos|fechaCaducidad|codigoAplicativo'.".to_owned(),
            );
        },
    };
    let fecha = match parse_compact(parts.2.as_str()) {
        Some(d) => d,
        None => {
            return Err(
                "Error al parsear la fecha de caducidad (formato YYYYMMDD esperado).".to_owned(),
            );
        },
    };
    Ok((parts.0, parts.1, fecha, parts.3))
}

/// A credential names the connection it may be installed on: same server
/// (instance suffix dropped, case-insensitive), same database
/// (case-insensitive) and same application code (exact).
pub open spec fn spec_credential_matches(
    server_cred: Seq<char>,
    db_cred: Seq<char>,
    app_cred: Seq<char>,
    current_server: Seq<char>,
    current_db: Seq<char>,
    app_code: Seq<char>,
) -> bool {
    &&& spec_lower(crate::textutil::spec_first_segment(server_cred, '\\')) == spec_lower(
        crate::textutil::spec_first_segment(current_server, '\\'),
    )
    &&& spec_lower(db_cred) == spec_lower(current_db)
    &&& app_cred == app_code
}

/// Checks an installation credential against the current connection,
/// naming the first mismatch.
pub fn validate_credential_target(
    server_cred: &str,
    db_cred: &str,
    app_cred: &str,
    current_server: &str,
    current_db: &str,
    app_code: &str,
) -> (r: Result<(), String>)
    ensures
        r is Ok <==> spec_credential_matches(
            server_cred@,
            db_cred@,
            app_cred@,
            current_server@,
            current_db@,
            app_code@,
        ),
{
    let norm_cred = first_segment(server_cred, '\\');
    let norm_cur = first_segment(current_server, '\\');
    if !str_eq_ignore_case(norm_cred.as_str(), norm_cur.as_str()) {
        return Err(
            "Las credenciales no coinciden con el servidor actual de la conexion.".to_owned(),
        );
    }
    if !str_eq_ignore_case(db_cred, current_db) {
        return Err(
            "Las credenciales no coinciden con la base de datos actual de la conexion.".to_owned(),
        );
    }
    if !str_eq(app_cred, app_code) {
        return Err("Las credenciales no coinciden con este aplicativo.".to_owned());
    }
    Ok(())
}

/// Whether a just-installed license is still in force: its expiry date has
/// not passed.
pub fn license_save_outcome(expiry: &LicenseDate, today: &LicenseDate) -> (r: bool)
    ensures
        r == spec_date_le(*today, *expiry),
{
    date_le(today, expiry)
}

/// `n` in decimal, left-padded with zeros to at least `width` digits.
pub open spec fn spec_zero_pad(n: int, width: int) -> Seq<char> {
    let digits = crate::textutil::spec_decimal(n);
    if digits.len() >= width {
        digits
    } else {
        Seq::new((width - digits.len()) as nat, |i: int| '0') + digits
    }
}

/// Renders `n` in decimal with at least `width` digits.
pub fn zero_pad(n: u32, width: usize) -> (r: String)
    requires
        width <= 8,
    ensures
        r@ == spec_zero_pad(n as int, width as int),
{
    let digits = crate::textutil::u64_to_string(n as u64);
    let len = digits.as_str().unicode_len();
    if len >= width {
        proof {
            assert(spec_zero_pad(n as int, width as int) == crate::textutil::spec_decimal(
                n as int,
            ));
        }
        return digits;
    }
    let mut out = String::new();
    let mut k: usize = 0;
    while k < width - len
        invariant
            len < width <= 8,
            k <= width - len,
            out@ == Seq::new(k as nat, |i: int| '0'),
        decreases width - len - k,
    {
        crate::textutil::push_char(&mut out, '0');
        k = k + 1;
        proof {
            assert(out@ =~= Seq::new(k as nat, |i: int| '0'));
        }
    }
    let r = out.concat(digits.as_str());
    proof {
        assert(r@ =~= spec_zero_pad(n as int, width as int));
    }
    r
}

/// A date as fixed-width `YYYY-MM-DD`.
pub open spec fn spec_format_ymd(d: LicenseDate) -> Seq<char> {
    spec_zero_pad(d.y as int, 4) + "-"@ + spec_zero_pad(d.m as int, 2) + "-"@ + spec_zero_pad(
        d.d as int,
        2,
    )
}

/// Renders a date as `YYYY-MM-DD`.
pub fn format_ymd(d: &LicenseDate) -> (r: String)
    ensures
        r@ == spec_format_ymd(*d),
{
    let mut out = zero_pad(d.y, 4);
    out.append("-");
    let m = zero_pad(d.m, 2);
    out.append(m.as_str());
    out.append("-");
    let dd = zero_pad(d.d, 2);
    out.append(dd.as_str());
    out
}

/// What remains of a license check after the stored row was read: either
/// the check is already settled, or the caller must have the store compute
/// the checksum of `hash_input` and classify the outcome.
pub enum LicenseCheckStep {
    /// The row settled the check by itself (missing, hash absent, or a
    /// corrupted expiry date).
    Settled { result: LicenseCheckResult },
    /// Compute the checksum of `hash_input` and hand it, with these
    /// values, to [`classify_license`].
    Ready { hash_input: String, stored_hash: String, expiry: LicenseDate, today: LicenseDate },
}

/// Sequences a license check up to the server-side checksum: splits the
/// connection URL, reads the store's current date, reads the row, and —
/// when nothing settles the check early — builds the exact string whose
/// checksum seals the license.
pub fn prepare_license_check(
    db_connection_url: &str,
    server_date_str: &str,
    row: &Option<LicenseData>,
    aplicativo: &str,
    palabra_clave2: &str,
) -> (r: Result<LicenseCheckStep, String>)
    ensures
        r matches Ok(step) ==> (step matches LicenseCheckStep::Ready {
            hash_input,
            stored_hash,
            expiry,
            today,
        } ==> ((*row) matches Some(data) && (data.hash_licencia_hex matches Some(h)
            && stored_hash@ == h@) && spec_parse_datetime_date(data.fecha_caducidad_str@) == Some(
            expiry,
        ) && spec_parse_ymd(server_date_str@) == Some(today) && (
        spec_authority(db_connection_url@) matches Some(auth) && hash_input@
            == crate::textutil::spec_first_segment(spec_host_of_authority(auth), '\\').add(
            "|"@,
        ).add(spec_first_path_segment(db_connection_url@)).add("|"@).add(
            data.fecha_caducidad_str@.subrange(0, 10),
        ).add("|"@).add(aplicativo@).add("|"@).add(palabra_clave2@)))),
        (spec_parse_ymd(server_date_str@) is None && spec_connection_ok(db_connection_url@))
            ==> r is Err,
{
    let (server_name, db_name) = match crate::db::parse_mssql_connection_url(db_connection_url) {
        Ok(p) => p,
        Err(e) => {
            return Err(e);
        },
    };
    let today = match parse_ymd(server_date_str) {
        Some(t) => t,
        None => {
            return Err("Error al parsear la fecha del servidor.".to_owned());
        },
    };
    let data = match license_check_data(row) {
        Ok(d) => d,
        Err(result) => {
            return Ok(LicenseCheckStep::Settled { result });
        },
    };
    let normalized = crate::db::normalize_server_name(server_name.as_str());
    let hash_input = license_hash_input(
        normalized.as_str(),
        db_name.as_str(),
        data.2.as_str(),
        aplicativo,
        palabra_clave2,
    );
    proof {
        match spec_authority(db_connection_url@) {
            Some(auth) => {
                assert(hash_input@ =~= crate::textutil::spec_first_segment(
                    spec_host_of_authority(auth),
                    '\\',
                ).add("|"@).add(spec_first_path_segment(db_connection_url@)).add("|"@).add(
                    data.2@,
                ).add("|"@).add(aplicativo@).add("|"@).add(palabra_clave2@));
            },
            None => {},
        }
    }
    Ok(
        LicenseCheckStep::Ready {
            hash_input,
            stored_hash: data.0,
            expiry: data.1,
            today,
        },
    )
}

/// The connection URL yields a host and a database.
pub open spec fn spec_connection_ok(url: Seq<char>) -> bool {
    &&& spec_after_scheme(url) is Some
    &&& spec_authority(url) matches Some(auth) && spec_host_of_authority(auth).len() > 0
    &&& spec_first_path_segment(url).len() > 0
}

/// Everything a license installation needs from the store's caller, after
/// the credential was decrypted and checked against the connection.
pub struct LicenseSaveData {
    /// Server of the current connection (as in the URL).
    pub server_name: String,
    /// Database of the current connection.
    pub db_name: String,
    /// Expiry date to store, as `YYYY-MM-DD`.
    pub expiration_date_str: String,
    /// The string whose server-side checksum is stored beside the row.
    pub hash_input: String,
    /// Expiry date of the credential.
    pub expiry: LicenseDate,
}

/// Sequences a license installation up to the store writes: decrypts and
/// parses the credential, requires it to name the current connection, and
/// builds the values the caller writes (after computing the checksum of
/// `hash_input`).  The write itself — update when a row exists, insert
/// otherwise — and the final expiry comparison stay with the caller.
pub fn prepare_license_save(
    encrypted_credentials: &str,
    palabra_clave1: &str,
    palabra_clave2: &str,
    db_connection_url: &str,
    aplicativo: &str,
) -> (r: Result<LicenseSaveData, String>)
    ensures
        r matches Ok(d) ==> (spec_parse_credential(encrypted_credentials@, palabra_clave1@)
            matches Some(cred) && spec_credential_matches(
            cred.0,
            cred.1,
            cred.3,
            d.server_name@,
            d.db_name@,
            aplicativo@,
        ) && d.expiry == cred.2 && d.expiration_date_str@ == spec_format_ymd(cred.2) && (
        spec_authority(db_connection_url@) matches Some(auth) && d.server_name@
            == spec_host_of_authority(auth)) && d.db_name@ == spec_first_path_segment(
            db_connection_url@,
        ) && d.hash_input@ == crate::textutil::spec_first_segment(d.server_name@, '\\').add(
            "|"@,
        ).add(d.db_name@).add("|"@).add(spec_format_ymd(cred.2)).add("|"@).add(aplicativo@).add(
            "|"@,
        ).add(palabra_clave2@)),
        spec_parse_credential(encrypted_credentials@, palabra_clave1@) is None ==> r is Err,
{
    let (server_cred, db_cred, expiry, app_cred) = match decrypt_and_parse_license_data(
        encrypted_credentials,
        palabra_clave1,
    ) {
        Ok(t) => t,
        Err(e) => {
            return Err(e);
        },
    };
    let (server_name, db_name) = match crate::db::parse_mssql_connection_url(db_connection_url) {
        Ok(p) => p,
        Err(e) => {
            return Err(e);
        },
    };
    match validate_credential_target(
        server_cred.as_str(),
        db_cred.as_str(),
        app_cred.as_str(),
        server_name.as_str(),
        db_name.as_str(),
        aplicativo,
    ) {
        Ok(()) => {},
        Err(e) => {
            return Err(e);
        },
    }
    let expiration_date_str = format_ymd(&expiry);
    let normalized = crate::db::normalize_server_name(server_name.as_str());
    let hash_input = license_hash_input(
        normalized.as_str(),
        db_name.as_str(),
        expiration_date_str.as_str(),
        aplicativo,
        palabra_clave2,
    );
    proof {
        assert(hash_input@ =~= crate::textutil::spec_first_segment(server_name@, '\\').add(
            "|"@,
        ).add(db_name@).add("|"@).add(spec_format_ymd(expiry)).add("|"@).add(aplicativo@).add(
            "|"@,
        ).add(palabra_clave2@));
    }
    Ok(
        LicenseSaveData {
            server_name,
            db_name,
            expiration_date_str,
            hash_input,
            expiry,
        },
    )
}

} // verus!
