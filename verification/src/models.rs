//! The records that the service stores and the payloads that it exchanges.
use vstd::prelude::*;

verus! {

/// A row of the `users` table. `id` is absent until the row is stored.
#[derive(Debug, Clone, PartialEq, Eq)]
pub struct User {
    pub id: Option<i32>,
    pub username: String,
    /// A PHC-format password hash, never the password itself.
    pub password_hash: String,
}

/// A row of the `files` table.
#[derive(Debug, Clone, PartialEq, Eq)]
pub struct FileRecord {
    pub id: i32,
    pub owner_id: i32,
    pub name: String,
    /// Where the file's bytes are kept on the server's disk.
    pub disk_path: String,
    /// `"private"` or `"public"`.
    pub visibility: String,
}

/// The body of a registration or login request.
#[derive(Debug, Clone, PartialEq, Eq)]
pub struct AuthRequest {
    pub username: String,
    pub password: String,
}

/// The body of a successful login or token refresh.
#[derive(Debug, Clone, PartialEq, Eq)]
pub struct LoginResponse {
    pub token: String,
}

/// The body of a request to share a file with another user.
#[derive(Debug, Clone, PartialEq, Eq)]
pub struct ShareRequest {
    pub file_id: i32,
    pub target_username: String,
}

/// What a signed token carries: its subject (a username) and its expiry
/// as seconds since the Unix epoch.
#[derive(Debug, Clone, PartialEq, Eq)]
pub struct Claims {
    pub sub: String,
    pub exp: usize,
}

/// Token claims as plain values.
pub struct ClaimsView {
    pub sub: Seq<char>,
    pub exp: usize,
}

impl View for Claims {
    type V = ClaimsView;

    open spec fn view(&self) -> ClaimsView {
        ClaimsView { sub: self.sub@, exp: self.exp }
    }
}

/// A user row as plain values.
pub struct UserView {
    pub id: Option<i32>,
    pub username: Seq<char>,
    pub password_hash: Seq<char>,
}

/// A file row as plain values.
pub struct FileView {
    pub id: i32,
    pub owner_id: i32,
    pub name: Seq<char>,
    pub disk_path: Seq<char>,
    pub visibility: Seq<char>,
}

impl View for User {
    type V = UserView;

    open spec fn view(&self) -> UserView {
        UserView { id: self.id, username: self.username@, password_hash: self.password_hash@ }
    }
}

impl View for FileRecord {
    type V = FileView;

    open spec fn view(&self) -> FileView {
        FileView {
            id: self.id,
            owner_id: self.owner_id,
            name: self.name@,
            disk_path: self.disk_path@,
            visibility: self.visibility@,
        }
    }
}

/// The visibility of a file that anyone may download.
pub open spec fn public_visibility() -> Seq<char> {
    seq!['p', 'u', 'b', 'l', 'i', 'c']
}

/// The visibility that every uploaded file starts with.
pub open spec fn private_visibility() -> Seq<char> {
    seq!['p', 'r', 'i', 'v', 'a', 't', 'e']
}

/// The word `"public"`.
pub fn public_word() -> (s: String)
    ensures
        s@ == public_visibility(),
{
    let s = String::from_str("public");
    proof {
        reveal_strlit("public");
    }
    s
}

/// The word `"private"`.
pub fn private_word() -> (s: String)
    ensures
        s@ == private_visibility(),
{
    let s = String::from_str("private");
    proof {
        reveal_strlit("private");
    }
    s
}

impl FileRecord {
    /// Whether anyone may download the file, without logging in.
    pub fn is_public(&self) -> (b: bool)
        ensures
            b == (self.visibility@ == public_visibility()),
    {
        let public = public_word();
        self.visibility.eq(&public)
    }
}

/// A sequence of records as plain values.
pub open spec fn files_view(files: Seq<FileRecord>) -> Seq<FileView> {
    files.map_values(|f: FileRecord| f@)
}

} // verus!
