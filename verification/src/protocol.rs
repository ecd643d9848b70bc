//! The vocabulary of the endpoints' state machines: the requests they
//! start from, the operations they ask the server to perform, the answers
//! they resume with, and the replies they end with.
use vstd::prelude::*;
use crate::models::{User, FileRecord, LoginResponse, Claims, UserView, FileView, ClaimsView, files_view};

verus! {

/// The fixed texts of the replies that carry no data.
#[derive(Debug, Clone, Copy, PartialEq, Eq, Structural)]
pub enum Message {
    UserRegistered,
    UsernameTaken,
    HashFailed,
    InvalidCredentials,
    MissingToken,
    InvalidSignature,
    InvalidToken,
    SaveFailed,
    InvalidFileName,
    NameTaken,
    Uploaded,
    NotOwnerOrMissing,
    TargetNotFound,
    Shared,
    OnlyOwnerRevokes,
    UserNotFound,
    Revoked,
    NowPublic,
    NotOwner,
    MissingOrInvalidToken,
    FileNotFound,
    AccessDenied,
    FilePrivate,
    ReadFailed,
}

impl Message {
    /// The text that the reply carries.
    pub fn text(&self) -> (t: &'static str)
        ensures
            t@ == message_text(*self),
    {
        match self {
            Message::UserRegistered => "user registered successfully",
            Message::UsernameTaken => "username already exists",
            Message::HashFailed => "failed to hash password",
            Message::InvalidCredentials => "invalid credentials",
            Message::MissingToken => "missing token",
            Message::InvalidSignature => "invalid token signature",
            Message::InvalidToken => "invalid token",
            Message::SaveFailed => "failed to save file to disk",
            Message::InvalidFileName => "invalid file name",
            Message::NameTaken => "a file with this name belongs to another user",
            Message::Uploaded => "file uploaded successfully",
            Message::NotOwnerOrMissing => "you are not the owner or file not found",
            Message::TargetNotFound => "target user not found",
            Message::Shared => "file shared successfully",
            Message::OnlyOwnerRevokes => "only the owner can revoke permissions",
            Message::UserNotFound => "user not found",
            Message::Revoked => "permission revoked",
            Message::NowPublic => "file is now public",
            Message::NotOwner => "not owner",
            Message::MissingOrInvalidToken => "missing or invalid token",
            Message::FileNotFound => "file not found",
            Message::AccessDenied => "access denied",
            Message::FilePrivate => "file is private",
            Message::ReadFailed => "failed to read file from disk",
        }
    }
}

/// The text of each message.
pub open spec fn message_text(m: Message) -> Seq<char> {
    match m {
        Message::UserRegistered => "user registered successfully"@,
        Message::UsernameTaken => "username already exists"@,
        Message::HashFailed => "failed to hash password"@,
        Message::InvalidCredentials => "invalid credentials"@,
        Message::MissingToken => "missing token"@,
        Message::InvalidSignature => "invalid token signature"@,
        Message::InvalidToken => "invalid token"@,
        Message::SaveFailed => "failed to save file to disk"@,
        Message::InvalidFileName => "invalid file name"@,
        Message::NameTaken => "a file with this name belongs to another user"@,
        Message::Uploaded => "file uploaded successfully"@,
        Message::NotOwnerOrMissing => "you are not the owner or file not found"@,
        Message::TargetNotFound => "target user not found"@,
        Message::Shared => "file shared successfully"@,
        Message::OnlyOwnerRevokes => "only the owner can revoke permissions"@,
        Message::UserNotFound => "user not found"@,
        Message::Revoked => "permission revoked"@,
        Message::NowPublic => "file is now public"@,
        Message::NotOwner => "not owner"@,
        Message::MissingOrInvalidToken => "missing or invalid token"@,
        Message::FileNotFound => "file not found"@,
        Message::AccessDenied => "access denied"@,
        Message::FilePrivate => "file is private"@,
        Message::ReadFailed => "failed to read file from disk"@,
    }
}

/// HTTP status codes that the endpoints answer with.
pub const OK: u16 = 200;
pub const CREATED: u16 = 201;
pub const BAD_REQUEST: u16 = 400;
pub const UNAUTHORIZED: u16 = 401;
pub const FORBIDDEN: u16 = 403;
pub const NOT_FOUND: u16 = 404;
pub const CONFLICT: u16 = 409;
pub const INTERNAL_ERROR: u16 = 500;

/// What a reply carries.
#[derive(Debug, Clone, PartialEq, Eq)]
pub enum Body {
    /// A fixed text.
    Text(Message),
    /// A signed token, sent as JSON `{"token": ...}`.
    Token(LoginResponse),
    /// A list of file records, sent as JSON.
    Files(Vec<FileRecord>),
    /// A file's bytes, sent for download under the file's name.
    Attachment { name: String, data: Vec<u8> },
}

/// The reply that an endpoint ends with.
#[derive(Debug, Clone, PartialEq, Eq)]
pub struct Reply {
    pub status: u16,
    pub body: Body,
}

/// One part of a multipart upload: its file name, if it has one, and its
/// bytes (empty when they could not be read).
#[derive(Debug, Clone, PartialEq, Eq)]
pub struct Part {
    pub file_name: Option<String>,
    pub data: Vec<u8>,
}

/// A request as it reaches an endpoint. `authorization` is the value of the
/// `Authorization` header, when it has one and it is text.
#[derive(Debug, Clone, PartialEq, Eq)]
pub enum Request {
    /// Create an account; the password is already hashed (see
    /// `endpoints::registration`).
    Register { username: String, password_hash: String },
    /// Log in at time `now` (a Unix timestamp).
    Login { username: String, password: String, now: i64 },
    /// Refresh a token at time `now` (a Unix timestamp).
    Refresh { authorization: Option<String>, now: i64 },
    Upload { authorization: Option<String> },
    List { authorization: Option<String> },
    Share { authorization: Option<String>, file_id: i32, target_username: String },
    Revoke { authorization: Option<String>, file_id: i32, target_username: String },
    MakePublic { authorization: Option<String>, file_id: i32 },
    /// Download with a token from the header or from the `token` query
    /// parameter.
    Download { authorization: Option<String>, query_token: Option<String>, file_id: i32 },
    /// Download a public file, without a token.
    DownloadPublic { file_id: i32 },
}

/// An operation that an endpoint asks the server to perform, with the
/// answer it expects back.
#[derive(Debug, Clone, PartialEq, Eq)]
pub enum Query {
    /// Check a token's signature (and, when asked, that it has not
    /// expired) and give back its subject: `Answer::Subject`.
    DecodeToken { token: String, check_expiry: bool },
    /// Sign a token (HS256, with `TOKEN_SECRET`) that carries the claims:
    /// `Answer::Token`.
    SignToken { claims: Claims },
    /// The user row with this name, if any: `Answer::User`.
    FindUser { username: String },
    /// Store a new user; whether it was stored (the name is unique):
    /// `Answer::Inserted`.
    InsertUser { username: String, password_hash: String },
    /// The id of the user with this name, who must exist: `Answer::UserId`.
    UserIdOf { username: String },
    /// The id of the user with this name, if any: `Answer::MaybeUserId`.
    LookupUserId { username: String },
    /// Whether the file exists and belongs to the user: `Answer::Exists`.
    OwnsFile { file_id: i32, owner_id: i32 },
    /// Record that the user may access the file (once): `Answer::Done`.
    GrantAccess { file_id: i32, user_id: i32 },
    /// Remove the user's access to the file: `Answer::Done`.
    RevokeAccess { file_id: i32, user_id: i32 },
    /// Make the file public if it belongs to the user; how many rows
    /// changed: `Answer::Affected`.
    MakePublic { file_id: i32, owner_id: i32 },
    /// The file row with this id, if any: `Answer::File`.
    FileById { file_id: i32 },
    /// Whether the user was given access to the file: `Answer::Exists`.
    HasAccess { file_id: i32, user_id: i32 },
    /// The files that the user owns or was given access to:
    /// `Answer::Files`.
    AccessibleFiles { user_id: i32 },
    /// The next part of the upload, if any: `Answer::Part`.
    NextPart,
    /// Whether a file of another user is kept at the path: `Answer::Exists`.
    OtherOwnersPath { path: String, owner_id: i32 },
    /// Write the bytes to the path on disk, replacing what is there;
    /// whether it worked: `Answer::Saved`.
    WriteDisk { path: String, data: Vec<u8> },
    /// Store a new private file row: `Answer::Done`.
    InsertFile { owner_id: i32, name: String, disk_path: String },
    /// The bytes at the path on disk, if they can be read: `Answer::Bytes`.
    ReadDisk { path: String },
}

/// The outcome of an operation.
#[derive(Debug, Clone, PartialEq, Eq)]
pub enum Answer {
    Subject(Option<String>),
    Token(String),
    User(Option<User>),
    Inserted(bool),
    UserId(i32),
    MaybeUserId(Option<i32>),
    Exists(bool),
    Done,
    Affected(u64),
    File(Option<FileRecord>),
    Files(Vec<FileRecord>),
    Part(Option<Part>),
    Saved(bool),
    Bytes(Option<Vec<u8>>),
}

/// What an endpoint does next: ask for an operation, reply, or give up
/// (the request cannot be served: a stored password hash is malformed, or
/// a token's expiry would fall outside chrono's range).
#[derive(Debug, Clone, PartialEq, Eq)]
pub enum Step {
    Ask(Query),
    Reply(Reply),
    Abort,
}

/// What an authenticated request wants once its caller is known.
#[derive(Debug, Clone, PartialEq, Eq)]
pub enum Intent {
    Upload,
    List,
    Share { file_id: i32, target: String },
    Revoke { file_id: i32, target: String },
    MakePublic { file_id: i32 },
    Download { file_id: i32 },
}

/// Where an endpoint stands: the answer that it waits for, and what it
/// remembers meanwhile.
#[derive(Debug, Clone, PartialEq, Eq)]
pub enum Flow {
    Registering,
    LoggingIn { password: String, now: i64 },
    Refreshing { now: i64 },
    Issuing,
    Authenticating { intent: Intent },
    Identifying { intent: Intent },
    Listing,
    /// Sharing (`revoke` false) or revoking (`revoke` true): is the caller
    /// the owner?
    CheckingOwner { file_id: i32, target: String, revoke: bool },
    FindingTarget { file_id: i32, revoke: bool },
    Granting,
    Revoking,
    Publishing,
    Fetching { user_id: i32, file_id: i32 },
    CheckingAccess { file: FileRecord },
    FetchingPublic,
    Serving { name: String },
    Uploading { owner_id: i32 },
    /// Is the path of the part taken by another user's file?
    CheckingPath { owner_id: i32, name: String, path: String, data: Vec<u8> },
    Saving { owner_id: i32, name: String, path: String },
    Recording { owner_id: i32 },
    Finished,
}

// ---------------------------------------------------------------------
// Plain-value views
// ---------------------------------------------------------------------

pub enum BodyView {
    Text(Message),
    Token(Seq<char>),
    Files(Seq<FileView>),
    Attachment { name: Seq<char>, data: Seq<u8> },
}

pub struct ReplyView {
    pub status: u16,
    pub body: BodyView,
}

pub struct PartView {
    pub file_name: Option<Seq<char>>,
    pub data: Seq<u8>,
}

pub enum RequestView {
    Register { username: Seq<char>, password_hash: Seq<char> },
    Login { username: Seq<char>, password: Seq<char>, now: i64 },
    Refresh { authorization: Option<Seq<char>>, now: i64 },
    Upload { authorization: Option<Seq<char>> },
    List { authorization: Option<Seq<char>> },
    Share { authorization: Option<Seq<char>>, file_id: i32, target_username: Seq<char> },
    Revoke { authorization: Option<Seq<char>>, file_id: i32, target_username: Seq<char> },
    MakePublic { authorization: Option<Seq<char>>, file_id: i32 },
    Download { authorization: Option<Seq<char>>, query_token: Option<Seq<char>>, file_id: i32 },
    DownloadPublic { file_id: i32 },
}

pub enum QueryView {
    DecodeToken { token: Seq<char>, check_expiry: bool },
    SignToken { claims: ClaimsView },
    FindUser { username: Seq<char> },
    InsertUser { username: Seq<char>, password_hash: Seq<char> },
    UserIdOf { username: Seq<char> },
    LookupUserId { username: Seq<char> },
    OwnsFile { file_id: i32, owner_id: i32 },
    GrantAccess { file_id: i32, user_id: i32 },
    RevokeAccess { file_id: i32, user_id: i32 },
    MakePublic { file_id: i32, owner_id: i32 },
    FileById { file_id: i32 },
    HasAccess { file_id: i32, user_id: i32 },
    AccessibleFiles { user_id: i32 },
    NextPart,
    OtherOwnersPath { path: Seq<char>, owner_id: i32 },
    WriteDisk { path: Seq<char>, data: Seq<u8> },
    InsertFile { owner_id: i32, name: Seq<char>, disk_path: Seq<char> },
    ReadDisk { path: Seq<char> },
}

pub enum AnswerView {
    Subject(Option<Seq<char>>),
    Token(Seq<char>),
    User(Option<UserView>),
    Inserted(bool),
    UserId(i32),
    MaybeUserId(Option<i32>),
    Exists(bool),
    Done,
    Affected(u64),
    File(Option<FileView>),
    Files(Seq<FileView>),
    Part(Option<PartView>),
    Saved(bool),
    Bytes(Option<Seq<u8>>),
}

pub enum StepView {
    Ask(QueryView),
    Reply(ReplyView),
    Abort,
}

pub enum IntentView {
    Upload,
    List,
    Share { file_id: i32, target: Seq<char> },
    Revoke { file_id: i32, target: Seq<char> },
    MakePublic { file_id: i32 },
    Download { file_id: i32 },
}

pub enum FlowView {
    Registering,
    LoggingIn { password: Seq<char>, now: i64 },
    Refreshing { now: i64 },
    Issuing,
    Authenticating { intent: IntentView },
    Identifying { intent: IntentView },
    Listing,
    CheckingOwner { file_id: i32, target: Seq<char>, revoke: bool },
    FindingTarget { file_id: i32, revoke: bool },
    Granting,
    Revoking,
    Publishing,
    Fetching { user_id: i32, file_id: i32 },
    CheckingAccess { file: FileView },
    FetchingPublic,
    Serving { name: Seq<char> },
    Uploading { owner_id: i32 },
    CheckingPath { owner_id: i32, name: Seq<char>, path: Seq<char>, data: Seq<u8> },
    Saving { owner_id: i32, name: Seq<char>, path: Seq<char> },
    Recording { owner_id: i32 },
    Finished,
}

pub open spec fn opt_string_view(s: Option<String>) -> Option<Seq<char>> {
    match s {
        Some(s) => Some(s@),
        None => None,
    }
}

impl View for Body {
    type V = BodyView;

    open spec fn view(&self) -> BodyView {
        match self {
            Body::Text(m) => BodyView::Text(*m),
            Body::Token(t) => BodyView::Token(t.token@),
            Body::Files(v) => BodyView::Files(files_view(v@)),
            Body::Attachment { name, data } => BodyView::Attachment { name: name@, data: data@ },
        }
    }
}

impl View for Reply {
    type V = ReplyView;

    open spec fn view(&self) -> ReplyView {
        ReplyView { status: self.status, body: self.body@ }
    }
}

impl View for Part {
    type V = PartView;

    open spec fn view(&self) -> PartView {
        PartView { file_name: opt_string_view(self.file_name), data: self.data@ }
    }
}

impl View for Request {
    type V = RequestView;

    open spec fn view(&self) -> RequestView {
        match self {
            Request::Register { username, password_hash } => RequestView::Register {
                username: username@,
                password_hash: password_hash@,
            },
            Request::Login { username, password, now } => RequestView::Login {
                username: username@,
                password: password@,
                now: *now,
            },
            Request::Refresh { authorization, now } => RequestView::Refresh {
                authorization: opt_string_view(*authorization),
                now: *now,
            },
            Request::Upload { authorization } => RequestView::Upload {
                authorization: opt_string_view(*authorization),
            },
            Request::List { authorization } => RequestView::List {
                authorization: opt_string_view(*authorization),
            },
            Request::Share { authorization, file_id, target_username } => RequestView::Share {
                authorization: opt_string_view(*authorization),
                file_id: *file_id,
                target_username: target_username@,
            },
            Request::Revoke { authorization, file_id, target_username } => RequestView::Revoke {
                authorization: opt_string_view(*authorization),
                file_id: *file_id,
                target_username: target_username@,
            },
            Request::MakePublic { authorization, file_id } => RequestView::MakePublic {
                authorization: opt_string_view(*authorization),
                file_id: *file_id,
            },
            Request::Download { authorization, query_token, file_id } => RequestView::Download {
                authorization: opt_string_view(*authorization),
                query_token: opt_string_view(*query_token),
                file_id: *file_id,
            },
            Request::DownloadPublic { file_id } => RequestView::DownloadPublic { file_id: *file_id },
        }
    }
}

impl View for Query {
    type V = QueryView;

    open spec fn view(&self) -> QueryView {
        match self {
            Query::DecodeToken { token, check_expiry } => QueryView::DecodeToken {
                token: token@,
                check_expiry: *check_expiry,
            },
            Query::SignToken { claims } => QueryView::SignToken { claims: claims@ },
            Query::FindUser { username } => QueryView::FindUser { username: username@ },
            Query::InsertUser { username, password_hash } => QueryView::InsertUser {
                username: username@,
                password_hash: password_hash@,
            },
            Query::UserIdOf { username } => QueryView::UserIdOf { username: username@ },
            Query::LookupUserId { username } => QueryView::LookupUserId { username: username@ },
            Query::OwnsFile { file_id, owner_id } => QueryView::OwnsFile {
                file_id: *file_id,
                owner_id: *owner_id,
            },
            Query::GrantAccess { file_id, user_id } => QueryView::GrantAccess {
                file_id: *file_id,
                user_id: *user_id,
            },
            Query::RevokeAccess { file_id, user_id } => QueryView::RevokeAccess {
                file_id: *file_id,
                user_id: *user_id,
            },
            Query::MakePublic { file_id, owner_id } => QueryView::MakePublic {
                file_id: *file_id,
                owner_id: *owner_id,
            },
            Query::FileById { file_id } => QueryView::FileById { file_id: *file_id },
            Query::HasAccess { file_id, user_id } => QueryView::HasAccess {
                file_id: *file_id,
                user_id: *user_id,
            },
            Query::AccessibleFiles { user_id } => QueryView::AccessibleFiles { user_id: *user_id },
            Query::NextPart => QueryView::NextPart,
            Query::OtherOwnersPath { path, owner_id } => QueryView::OtherOwnersPath {
                path: path@,
                owner_id: *owner_id,
            },
            Query::WriteDisk { path, data } => QueryView::WriteDisk { path: path@, data: data@ },
            Query::InsertFile { owner_id, name, disk_path } => QueryView::InsertFile {
                owner_id: *owner_id,
                name: name@,
                disk_path: disk_path@,
            },
            Query::ReadDisk { path } => QueryView::ReadDisk { path: path@ },
        }
    }
}

impl View for Answer {
    type V = AnswerView;

    open spec fn view(&self) -> AnswerView {
        match self {
            Answer::Subject(s) => AnswerView::Subject(opt_string_view(*s)),
            Answer::Token(t) => AnswerView::Token(t@),
            Answer::User(u) => AnswerView::User(
                match u {
                    Some(u) => Some(u@),
                    None => None,
                },
            ),
            Answer::Inserted(b) => AnswerView::Inserted(*b),
            Answer::UserId(i) => AnswerView::UserId(*i),
            Answer::MaybeUserId(i) => AnswerView::MaybeUserId(*i),
            Answer::Exists(b) => AnswerView::Exists(*b),
            Answer::Done => AnswerView::Done,
            Answer::Affected(n) => AnswerView::Affected(*n),
            Answer::File(f) => AnswerView::File(
                match f {
                    Some(f) => Some(f@),
                    None => None,
                },
            ),
            Answer::Files(v) => AnswerView::Files(files_view(v@)),
            Answer::Part(p) => AnswerView::Part(
                match p {
                    Some(p) => Some(p@),
                    None => None,
                },
            ),
            Answer::Saved(b) => AnswerView::Saved(*b),
            Answer::Bytes(b) => AnswerView::Bytes(
                match b {
                    Some(b) => Some(b@),
                    None => None,
                },
            ),
        }
    }
}

impl View for Step {
    type V = StepView;

    open spec fn view(&self) -> StepView {
        match self {
            Step::Ask(q) => StepView::Ask(q@),
            Step::Reply(r) => StepView::Reply(r@),
            Step::Abort => StepView::Abort,
        }
    }
}

impl View for Intent {
    type V = IntentView;

    open spec fn view(&self) -> IntentView {
        match self {
            Intent::Upload => IntentView::Upload,
            Intent::List => IntentView::List,
            Intent::Share { file_id, target } => IntentView::Share {
                file_id: *file_id,
                target: target@,
            },
            Intent::Revoke { file_id, target } => IntentView::Revoke {
                file_id: *file_id,
                target: target@,
            },
            Intent::MakePublic { file_id } => IntentView::MakePublic { file_id: *file_id },
            Intent::Download { file_id } => IntentView::Download { file_id: *file_id },
        }
    }
}

impl View for Flow {
    type V = FlowView;

    open spec fn view(&self) -> FlowView {
        match self {
            Flow::Registering => FlowView::Registering,
            Flow::LoggingIn { password, now } => FlowView::LoggingIn {
                password: password@,
                now: *now,
            },
            Flow::Refreshing { now } => FlowView::Refreshing { now: *now },
            Flow::Issuing => FlowView::Issuing,
            Flow::Authenticating { intent } => FlowView::Authenticating { intent: intent@ },
            Flow::Identifying { intent } => FlowView::Identifying { intent: intent@ },
            Flow::Listing => FlowView::Listing,
            Flow::CheckingOwner { file_id, target, revoke } => FlowView::CheckingOwner {
                file_id: *file_id,
                target: target@,
                revoke: *revoke,
            },
            Flow::FindingTarget { file_id, revoke } => FlowView::FindingTarget {
                file_id: *file_id,
                revoke: *revoke,
            },
            Flow::Granting => FlowView::Granting,
            Flow::Revoking => FlowView::Revoking,
            Flow::Publishing => FlowView::Publishing,
            Flow::Fetching { user_id, file_id } => FlowView::Fetching {
                user_id: *user_id,
                file_id: *file_id,
            },
            Flow::CheckingAccess { file } => FlowView::CheckingAccess { file: file@ },
            Flow::FetchingPublic => FlowView::FetchingPublic,
            Flow::Serving { name } => FlowView::Serving { name: name@ },
            Flow::Uploading { owner_id } => FlowView::Uploading { owner_id: *owner_id },
            Flow::CheckingPath { owner_id, name, path, data } => FlowView::CheckingPath {
                owner_id: *owner_id,
                name: name@,
                path: path@,
                data: data@,
            },
            Flow::Saving { owner_id, name, path } => FlowView::Saving {
                owner_id: *owner_id,
                name: name@,
                path: path@,
            },
            Flow::Recording { owner_id } => FlowView::Recording { owner_id: *owner_id },
            Flow::Finished => FlowView::Finished,
        }
    }
}


/// The kind of answer that each operation gives.
pub open spec fn answer_fits(q: QueryView, a: AnswerView) -> bool {
    match q {
        QueryView::DecodeToken { .. } => a is Subject,
        QueryView::SignToken { .. } => a is Token,
        QueryView::FindUser { .. } => a is User,
        QueryView::InsertUser { .. } => a is Inserted,
        QueryView::UserIdOf { .. } => a is UserId,
        QueryView::LookupUserId { .. } => a is MaybeUserId,
        QueryView::OwnsFile { .. } => a is Exists,
        QueryView::GrantAccess { .. } => a is Done,
        QueryView::RevokeAccess { .. } => a is Done,
        QueryView::MakePublic { .. } => a is Affected,
        QueryView::FileById { .. } => a is File,
        QueryView::HasAccess { .. } => a is Exists,
        QueryView::AccessibleFiles { .. } => a is Files,
        QueryView::NextPart => a is Part,
        QueryView::OtherOwnersPath { .. } => a is Exists,
        QueryView::WriteDisk { .. } => a is Saved,
        QueryView::InsertFile { .. } => a is Done,
        QueryView::ReadDisk { .. } => a is Bytes,
    }
}

/// A reply that carries a fixed text.
pub open spec fn text_reply(status: u16, message: Message) -> StepView {
    StepView::Reply(ReplyView { status, body: BodyView::Text(message) })
}

/// A reply that carries a fixed text.
pub fn text(status: u16, message: Message) -> (step: Step)
    ensures
        step@ == text_reply(status, message),
{
    Step::Reply(Reply { status, body: Body::Text(message) })
}

} // verus!
