//! Reading credentials out of request headers and writing the names and
//! headers that uploads and downloads use.
use vstd::prelude::*;

verus! {

/// The scheme that an `Authorization` header names before its token.
pub open spec fn bearer_prefix() -> Seq<char> {
    seq!['B', 'e', 'a', 'r', 'e', 'r', ' ']
}

/// The token that an `Authorization` header value carries: what follows
/// `"Bearer "`, when the value starts with it.
pub open spec fn bearer_of(header: Seq<char>) -> Option<Seq<char>> {
    if header.len() >= bearer_prefix().len() && header.take(bearer_prefix().len() as int)
        == bearer_prefix() {
        Some(header.skip(bearer_prefix().len() as int))
    } else {
        None
    }
}

/// An optional string as plain values.
pub open spec fn opt_view(s: Option<String>) -> Option<Seq<char>> {
    match s {
        Some(s) => Some(s@),
        None => None,
    }
}

/// The bearer token of an optional `Authorization` header value.
pub open spec fn bearer_of_header(header: Option<Seq<char>>) -> Option<Seq<char>> {
    match header {
        Some(h) => bearer_of(h),
        None => None,
    }
}

/// Whether `s` starts with `prefix`.
fn starts_with(s: &str, prefix: &str) -> (b: bool)
    ensures
        b == (prefix@.len() <= s@.len() && s@.take(prefix@.len() as int) == prefix@),
{
    let n = prefix.unicode_len();
    let len = s.unicode_len();
    if n > len {
        return false;
    }
    let mut i: usize = 0;
    while i < n
        invariant
            n == prefix@.len(),
            len == s@.len(),
            n <= len,
            i <= n,
            forall|j: int| 0 <= j < i ==> s@[j] == prefix@[j],
        decreases n - i,
    {
        if s.get_char(i) != prefix.get_char(i) {
            assert(s@.take(n as int)[i as int] != prefix@[i as int]);
            return false;
        }
        i = i + 1;
    }
    assert(s@.take(n as int) =~= prefix@);
    true
}

/// The token that an `Authorization` header value carries after
/// `"Bearer "`; `None` when there is no header or it names no bearer token.
pub fn bearer_token(header: Option<&str>) -> (token: Option<String>)
    ensures
        opt_view(token) == match header {
            Some(h) => bearer_of(h@),
            None => None::<Seq<char>>,
        },
{
    match header {
        None => None,
        Some(h) => {
            let prefix = "Bearer ";
            proof {
                reveal_strlit("Bearer ");
                assert(prefix@ =~= bearer_prefix());
            }
            if starts_with(h, prefix) {
                let len = h.unicode_len();
                let rest = h.substring_char(7, len);
                assert(rest@ =~= h@.skip(7));
                Some(String::from_str(rest))
            } else {
                None
            }
        },
    }
}

/// The token that a download request presents: the bearer token of its
/// `Authorization` header, or else the `token` query parameter.
pub open spec fn presented_token(header: Option<Seq<char>>, query: Option<Seq<char>>) -> Option<
    Seq<char>,
> {
    match bearer_of_header(header) {
        Some(t) => Some(t),
        None => query,
    }
}

/// The token that a download request presents: the bearer token of the
/// `Authorization` header takes precedence over the `token` query parameter.
pub fn choose_token(header: Option<&str>, query: Option<String>) -> (token: Option<String>)
    ensures
        opt_view(token) == presented_token(
            match header {
                Some(h) => Some(h@),
                None => None,
            },
            opt_view(query),
        ),
{
    match bearer_token(header) {
        Some(t) => Some(t),
        None => query,
    }
}

/// The name that an uploaded part is stored under: its file name, or
/// `"unknown"` when it has none.
pub open spec fn upload_name_of(file_name: Option<Seq<char>>) -> Seq<char> {
    match file_name {
        Some(n) => n,
        None => "unknown"@,
    }
}

/// Whether an upload's name stays inside `uploads/`: it is not `..` and
/// holds no `/`. Only such names are written.
pub open spec fn is_plain_name_of(name: Seq<char>) -> bool {
    &&& name != seq!['.', '.']
    &&& forall|i: int| 0 <= i < name.len() ==> #[trigger] name[i] != '/'
}

/// Where an upload of the given name is written.
pub open spec fn upload_path_of(name: Seq<char>) -> Seq<char> {
    "uploads/"@ + name
}

/// The value of the `Content-Disposition` header that makes a client save
/// a download under the given name.
pub open spec fn disposition_of(name: Seq<char>) -> Seq<char> {
    "attachment; filename=\""@ + name + "\""@
}

/// The name an uploaded part is stored under.
pub fn upload_name(file_name: Option<&str>) -> (name: String)
    ensures
        name@ == upload_name_of(
            match file_name {
                Some(n) => Some(n@),
                None => None,
            },
        ),
{
    match file_name {
        Some(n) => String::from_str(n),
        None => String::from_str("unknown"),
    }
}

/// Whether an upload's name stays inside `uploads/`.
pub fn is_plain_name(name: &str) -> (b: bool)
    ensures
        b == is_plain_name_of(name@),
        !b <==> (name@ == seq!['.', '.'] || name@.contains('/')),
{
    let n = name.unicode_len();
    if n == 2 && name.get_char(0) == '.' && name.get_char(1) == '.' {
        assert(name@ =~= seq!['.', '.']);
        return false;
    }
    assert(name@ != seq!['.', '.']) by {
        if n == 2 {
            assert(name@[0] != seq!['.', '.'][0] || name@[1] != seq!['.', '.'][1]);
        }
    }
    let mut i: usize = 0;
    while i < n
        invariant
            n == name@.len(),
            i <= n,
            forall|j: int| 0 <= j < i ==> #[trigger] name@[j] != '/',
        decreases n - i,
    {
        if name.get_char(i) == '/' {
            return false;
        }
        i = i + 1;
    }
    true
}

/// The path under which an upload of the given name is written.
pub fn upload_path(name: &str) -> (path: String)
    ensures
        path@ == upload_path_of(name@),
{
    let mut path = String::from_str("uploads/");
    path.append(name);
    path
}

/// The `Content-Disposition` header value for a download of `name`.
pub fn content_disposition(name: &str) -> (value: String)
    ensures
        value@ == disposition_of(name@),
{
    let mut value = String::from_str("attachment; filename=\"");
    value.append(name);
    value.append("\"");
    value
}

} // verus!
