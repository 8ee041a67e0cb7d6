//! Connection-string handling: extracting server and database names from an
//! `mssql://` connection URL and normalizing server names.
//!
//! The URL shape read here is `scheme://[userinfo@]host[:port]/database[...]`,
//! the shape the rest of the system builds; the host is what stands between
//! the last `@` of the authority and the port separator.

use vstd::prelude::*;
use vstd::string::*;
use crate::textutil::{spec_find, lemma_spec_find, find_from, substring, first_segment, absent,
    found_at};

verus! {

/// Index of the last occurrence of `c` in `s`.
pub open spec fn spec_rfind(s: Seq<char>, c: char) -> Option<int>
    decreases s.len(),
{
    if s.len() == 0 {
        None
    } else if s.last() == c {
        Some(s.len() - 1)
    } else {
        spec_rfind(s.drop_last(), c)
    }
}

/// Characterization of `spec_rfind`: the greatest occurrence, or `None`
/// exactly when there is none.
pub proof fn lemma_spec_rfind(s: Seq<char>, c: char)
    ensures
        spec_rfind(s, c) matches Some(i) ==> 0 <= i < s.len() && s[i] == c && (forall|k: int|
            i < k < s.len() ==> s[k] != c),
        spec_rfind(s, c) is None ==> forall|k: int| 0 <= k < s.len() ==> s[k] != c,
    decreases s.len(),
{
    if s.len() > 0 && s.last() != c {
        lemma_spec_rfind(s.drop_last(), c);
        assert(forall|k: int| 0 <= k < s.len() - 1 ==> s.drop_last()[k] == s[k]);
    }
}

/// Last occurrence of `c` in `s`.
pub fn rfind_char(s: &str, c: char) -> (r: Option<usize>)
    ensures
        r is Some <==> spec_rfind(s@, c) is Some,
        r matches Some(i) ==> spec_rfind(s@, c) == Some(i as int) && i < s@.len() && s@[i as int]
            == c,
{
    let n = s.unicode_len();
    let mut i: usize = n;
    while i > 0
        invariant
            n == s@.len(),
            i <= n,
            forall|k: int| i <= k < n ==> s@[k] != c,
        decreases i,
    {
        i = i - 1;
        if s.get_char(i) == c {
            proof {
                lemma_spec_rfind(s@, c);
                match spec_rfind(s@, c) {
                    Some(j) => {
                        if j < i {
                            assert(s@[i as int] != c);
                        }
                        if i < j {
                            assert(s@[j] != c);
                        }
                    },
                    None => {
                        assert(s@[i as int] != c);
                    },
                }
            }
            return Some(i);
        }
    }
    proof {
        lemma_spec_rfind(s@, c);
        match spec_rfind(s@, c) {
            Some(j) => {
                assert(s@[j] != c);
            },
            None => {},
        }
    }
    None
}

/// Where the `://` delimiter ends, when the URL has one: the scheme is
/// everything before the first `:`, must not be empty, and the `:` must be
/// followed by `//`.
pub open spec fn spec_after_scheme(s: Seq<char>) -> Option<int> {
    match spec_find(s, ':', 0) {
        None => None,
        Some(i) => {
            if i >= 1 && i + 2 < s.len() && s[i + 1] == '/' && s[i + 2] == '/' {
                Some(i + 3)
            } else {
                None
            }
        },
    }
}

/// A character that ends the authority of a URL.
pub open spec fn is_url_delim(c: char) -> bool {
    c == '/' || c == '?' || c == '#'
}

/// Index of the first authority-ending delimiter at or after `from`.
pub open spec fn spec_find_delim(s: Seq<char>, from: int) -> Option<int>
    recommends
        0 <= from <= s.len(),
    decreases s.len() - from,
{
    if from < 0 || from >= s.len() {
        None
    } else if is_url_delim(s[from]) {
        Some(from)
    } else {
        spec_find_delim(s, from + 1)
    }
}

/// Characterization of `spec_find_delim`: the least delimiter at or after
/// `from`, or `None` when there is none.
pub proof fn lemma_spec_find_delim(s: Seq<char>, from: int)
    requires
        0 <= from <= s.len(),
    ensures
        spec_find_delim(s, from) matches Some(i) ==> from <= i < s.len() && is_url_delim(s[i])
            && (forall|k: int| from <= k < i ==> !is_url_delim(s[k])),
        spec_find_delim(s, from) is None ==> forall|k: int|
            from <= k < s.len() ==> !is_url_delim(s[k]),
    decreases s.len() - from,
{
    if from < s.len() && !is_url_delim(s[from]) {
        lemma_spec_find_delim(s, from + 1);
    }
}

/// First authority-ending delimiter at or after `from`.
pub fn find_delim(s: &str, from: usize) -> (r: Option<usize>)
    requires
        from <= s@.len(),
    ensures
        r is Some <==> spec_find_delim(s@, from as int) is Some,
        r matches Some(i) ==> spec_find_delim(s@, from as int) == Some(i as int) && from <= i
            < s@.len(),
{
    let n = s.unicode_len();
    let mut i: usize = from;
    while i < n
        invariant
            n == s@.len(),
            from <= i <= n,
            forall|k: int| from <= k < i ==> !is_url_delim(s@[k]),
        decreases n - i,
    {
        let c = s.get_char(i);
        if c == '/' || c == '?' || c == '#' {
            proof {
                lemma_spec_find_delim(s@, from as int);
                match spec_find_delim(s@, from as int) {
                    Some(j) => {
                        if j < i {
                            assert(!is_url_delim(s@[j]));
                        }
                        if i < j {
                            assert(!is_url_delim(s@[i as int]));
                        }
                    },
                    None => {
                        assert(!is_url_delim(s@[i as int]));
                    },
                }
            }
            return Some(i);
        }
        i = i + 1;
    }
    proof {
        lemma_spec_find_delim(s@, from as int);
        match spec_find_delim(s@, from as int) {
            Some(j) => {
                assert(!is_url_delim(s@[j]));
            },
            None => {},
        }
    }
    None
}

/// The authority of the URL: what stands between `://` and the next `/`,
/// `?`, `#` or the end.
pub open spec fn spec_authority(s: Seq<char>) -> Option<Seq<char>> {
    match spec_after_scheme(s) {
        None => None,
        Some(a) => match spec_find_delim(s, a) {
            None => Some(s.subrange(a, s.len() as int)),
            Some(e) => Some(s.subrange(a, e)),
        },
    }
}

/// The host of an authority: after its last `@`, before the port `:`.
pub open spec fn spec_host_of_authority(auth: Seq<char>) -> Seq<char> {
    let after_user = match spec_rfind(auth, '@') {
        None => auth,
        Some(i) => auth.subrange(i + 1, auth.len() as int),
    };
    match spec_find(after_user, ':', 0) {
        None => after_user,
        Some(j) => after_user.subrange(0, j),
    }
}

/// The first path segment after the authority: the database name.  Empty
/// when the authority is followed by a query or fragment instead of a
/// path.
pub open spec fn spec_first_path_segment(s: Seq<char>) -> Seq<char> {
    match spec_after_scheme(s) {
        None => Seq::empty(),
        Some(a) => match spec_find_delim(s, a) {
            None => Seq::empty(),
            Some(e) => {
                if s[e] == '/' {
                    let path = s.subrange(e + 1, s.len() as int);
                    match spec_find_delim(path, 0) {
                        None => path,
                        Some(j) => path.subrange(0, j),
                    }
                } else {
                    Seq::empty()
                }
            },
        },
    }
}

/// Splits a connection URL into `(host, database)`.  Fails exactly when
/// the URL has no `://` delimiter, or when the host or the database name
/// comes out empty.
pub fn parse_mssql_connection_url(url: &str) -> (r: Result<(String, String), String>)
    ensures
        r is Ok <==> spec_after_scheme(url@) is Some && (spec_authority(url@) matches Some(auth)
            && spec_host_of_authority(auth).len() > 0) && spec_first_path_segment(url@).len() > 0,
        r matches Ok(p) ==> (spec_authority(url@) matches Some(auth) && p.0@
            == spec_host_of_authority(auth)) && p.1@ == spec_first_path_segment(url@),
{
    let n = url.unicode_len();
    let colon = match find_from(url, ':', 0) {
        Some(i) => i,
        None => {
            return Err("invalid connection URL".to_owned());
        },
    };
    if !(colon >= 1 && n - colon >= 3 && url.get_char(colon + 1) == '/' && url.get_char(colon + 2)
        == '/') {
        return Err("invalid connection URL".to_owned());
    }
    let a = colon + 3;
    let auth_end = match find_delim(url, a) {
        Some(e) => e,
        None => n,
    };
    let authority = substring(url, a, auth_end);
    let after_user = match rfind_char(authority.as_str(), '@') {
        None => authority,
        Some(i) => substring(authority.as_str(), i + 1, authority.as_str().unicode_len()),
    };
    let host = match find_from(after_user.as_str(), ':', 0) {
        None => after_user,
        Some(j) => substring(after_user.as_str(), 0, j),
    };
    let db: String = if auth_end < n && url.get_char(auth_end) == '/' {
        let path = substring(url, auth_end + 1, n);
        match find_delim(path.as_str(), 0) {
            None => path,
            Some(j) => substring(path.as_str(), 0, j),
        }
    } else {
        String::new()
    };
    if host.as_str().unicode_len() == 0 || db.as_str().unicode_len() == 0 {
        return Err("invalid connection URL: empty host or database".to_owned());
    }
    Ok((host, db))
}

/// Splits a connection URL into its connection info pair.
pub fn get_db_connection_info(database_url: &str) -> (r: Result<(String, String), String>)
    ensures
        r is Ok <==> spec_after_scheme(database_url@) is Some && (spec_authority(database_url@)
            matches Some(auth) && spec_host_of_authority(auth).len() > 0)
            && spec_first_path_segment(database_url@).len() > 0,
        r matches Ok(p) ==> (spec_authority(database_url@) matches Some(auth) && p.0@
            == spec_host_of_authority(auth)) && p.1@ == spec_first_path_segment(database_url@),
{
    parse_mssql_connection_url(database_url)
}

/// The server name without its instance suffix: everything before the
/// first backslash.
pub fn normalize_server_name(server_name: &str) -> (r: String)
    ensures
        r@ == crate::textutil::spec_first_segment(server_name@, '\\'),
        absent(server_name@, '\\') ==> r@ == server_name@,
        !absent(server_name@, '\\') ==> exists|i: int| #[trigger] found_at(server_name@, '\\', i)
            && r@ == server_name@.subrange(0, i),
{
    first_segment(server_name, '\\')
}

} // verus!
