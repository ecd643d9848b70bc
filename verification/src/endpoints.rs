//! The endpoints as state machines. `start` turns a request into its first
//! step; `resume` takes the answer to the last operation asked for and
//! gives the next step. The server performs each `Query` and feeds the
//! `Answer` back until a `Reply` (or an `Abort`) comes out.
use vstd::prelude::*;
use crate::models::{AuthRequest, ShareRequest, FileRecord, FileView, LoginResponse, public_visibility};
use crate::headers::{
    bearer_token, choose_token, bearer_of_header, presented_token, upload_name, upload_path,
    upload_name_of, upload_path_of, is_plain_name, is_plain_name_of,
};
use crate::password::{
    hash_password, check_password, phc_parses, password_verifies, names_argon2id, max_password_len,
};
use vstd::utf8::encode_utf8;
use crate::tokens::{claims_at, current_time, issued_claims, chrono_last};
use crate::protocol::{
    Message, Body, Reply, Part, Request, Query, Answer, Step, Intent, Flow, BodyView, ReplyView,
    RequestView, QueryView, AnswerView, StepView, IntentView, FlowView, text_reply, text, opt_string_view, OK, CREATED, BAD_REQUEST,
    UNAUTHORIZED, FORBIDDEN, NOT_FOUND, CONFLICT, INTERNAL_ERROR,
};

verus! {

/// The reply of an authenticated endpoint whose token is missing or bad.
pub open spec fn unauthenticated(intent: IntentView) -> StepView {
    match intent {
        IntentView::Download { .. } => text_reply(UNAUTHORIZED, Message::MissingOrInvalidToken),
        _ => text_reply(UNAUTHORIZED, Message::InvalidToken),
    }
}

/// Ask for a token to be checked (expiry included) before serving `intent`.
pub open spec fn authenticate(token: Option<Seq<char>>, intent: IntentView) -> (FlowView, StepView) {
    match token {
        None => (FlowView::Finished, unauthenticated(intent)),
        Some(t) => (
            FlowView::Authenticating { intent },
            StepView::Ask(QueryView::DecodeToken { token: t, check_expiry: true }),
        ),
    }
}

/// The first step of each endpoint.
pub open spec fn start_spec(req: RequestView) -> (FlowView, StepView) {
    match req {
        RequestView::Register { username, password_hash } => (
            FlowView::Registering,
            StepView::Ask(QueryView::InsertUser { username, password_hash }),
        ),
        RequestView::Login { username, password, now } => (
            FlowView::LoggingIn { password, now },
            StepView::Ask(QueryView::FindUser { username }),
        ),
        RequestView::Refresh { authorization, now } => match bearer_of_header(authorization) {
            None => (FlowView::Finished, text_reply(UNAUTHORIZED, Message::MissingToken)),
            Some(t) => (
                FlowView::Refreshing { now },
                StepView::Ask(QueryView::DecodeToken { token: t, check_expiry: false }),
            ),
        },
        RequestView::Upload { authorization } => authenticate(
            bearer_of_header(authorization),
            IntentView::Upload,
        ),
        RequestView::List { authorization } => authenticate(
            bearer_of_header(authorization),
            IntentView::List,
        ),
        RequestView::Share { authorization, file_id, target_username } => authenticate(
            bearer_of_header(authorization),
            IntentView::Share { file_id, target: target_username },
        ),
        RequestView::Revoke { authorization, file_id, target_username } => authenticate(
            bearer_of_header(authorization),
            IntentView::Revoke { file_id, target: target_username },
        ),
        RequestView::MakePublic { authorization, file_id } => authenticate(
            bearer_of_header(authorization),
            IntentView::MakePublic { file_id },
        ),
        RequestView::Download { authorization, query_token, file_id } => authenticate(
            presented_token(authorization, query_token),
            IntentView::Download { file_id },
        ),
        RequestView::DownloadPublic { file_id } => (
            FlowView::FetchingPublic,
            StepView::Ask(QueryView::FileById { file_id }),
        ),
    }
}

/// The first step once the caller's user id is known.
pub open spec fn on_identified(intent: IntentView, user_id: i32) -> (FlowView, StepView) {
    match intent {
        IntentView::Upload => (
            FlowView::Uploading { owner_id: user_id },
            StepView::Ask(QueryView::NextPart),
        ),
        IntentView::List => (
            FlowView::Listing,
            StepView::Ask(QueryView::AccessibleFiles { user_id }),
        ),
        IntentView::Share { file_id, target } => (
            FlowView::CheckingOwner { file_id, target, revoke: false },
            StepView::Ask(QueryView::OwnsFile { file_id, owner_id: user_id }),
        ),
        IntentView::Revoke { file_id, target } => (
            FlowView::CheckingOwner { file_id, target, revoke: true },
            StepView::Ask(QueryView::OwnsFile { file_id, owner_id: user_id }),
        ),
        IntentView::MakePublic { file_id } => (
            FlowView::Publishing,
            StepView::Ask(QueryView::MakePublic { file_id, owner_id: user_id }),
        ),
        IntentView::Download { file_id } => (
            FlowView::Fetching { user_id, file_id },
            StepView::Ask(QueryView::FileById { file_id }),
        ),
    }
}

/// Send the file's bytes.
pub open spec fn serve(file: FileView) -> (FlowView, StepView) {
    (FlowView::Serving { name: file.name }, StepView::Ask(QueryView::ReadDisk { path: file.disk_path }))
}

/// Sign a token for `sub` issued at time `now`, valid for 24 hours; give
/// up when its expiry is out of chrono's range.
pub open spec fn issue(sub: Seq<char>, now: i64) -> (FlowView, StepView) {
    match issued_claims(sub, now) {
        Some(claims) => (FlowView::Issuing, StepView::Ask(QueryView::SignToken { claims })),
        None => (FlowView::Finished, StepView::Abort),
    }
}

/// Whether the answer is the kind that the flow waits for.
pub open spec fn awaits(flow: FlowView, answer: AnswerView) -> bool {
    match flow {
        FlowView::Registering => answer is Inserted,
        FlowView::LoggingIn { .. } => answer is User,
        FlowView::Refreshing { .. } => answer is Subject,
        FlowView::Issuing => answer is Token,
        FlowView::Authenticating { .. } => answer is Subject,
        FlowView::Identifying { .. } => answer is UserId,
        FlowView::Listing => answer is Files,
        FlowView::CheckingOwner { .. } => answer is Exists,
        FlowView::FindingTarget { .. } => answer is MaybeUserId,
        FlowView::Granting => answer is Done,
        FlowView::Revoking => answer is Done,
        FlowView::Publishing => answer is Affected,
        FlowView::Fetching { .. } => answer is File,
        FlowView::CheckingAccess { .. } => answer is Exists,
        FlowView::FetchingPublic => answer is File,
        FlowView::Serving { .. } => answer is Bytes,
        FlowView::Uploading { .. } => answer is Part,
        FlowView::CheckingPath { .. } => answer is Exists,
        FlowView::Saving { .. } => answer is Saved,
        FlowView::Recording { .. } => answer is Done,
        FlowView::Finished => false,
    }
}

/// The step that follows an answer.
pub open spec fn resume_spec(flow: FlowView, answer: AnswerView) -> (FlowView, StepView) {
    let done = |s: StepView| (FlowView::Finished, s);
    match (flow, answer) {
        (FlowView::Registering, AnswerView::Inserted(stored)) => if stored {
            done(text_reply(CREATED, Message::UserRegistered))
        } else {
            done(text_reply(CONFLICT, Message::UsernameTaken))
        },
        (FlowView::LoggingIn { password, now }, AnswerView::User(found)) => match found {
            None => done(text_reply(UNAUTHORIZED, Message::InvalidCredentials)),
            Some(user) => if !phc_parses(user.password_hash) {
                done(StepView::Abort)
            } else if password_verifies(password, user.password_hash) {
                issue(user.username, now)
            } else {
                done(text_reply(UNAUTHORIZED, Message::InvalidCredentials))
            },
        },
        (FlowView::Refreshing { now }, AnswerView::Subject(subject)) => match subject {
            None => done(text_reply(UNAUTHORIZED, Message::InvalidSignature)),
            Some(s) => issue(s, now),
        },
        (FlowView::Issuing, AnswerView::Token(t)) => done(
            StepView::Reply(ReplyView { status: OK, body: BodyView::Token(t) }),
        ),
        (FlowView::Authenticating { intent }, AnswerView::Subject(subject)) => match subject {
            None => done(unauthenticated(intent)),
            Some(s) => (
                FlowView::Identifying { intent },
                StepView::Ask(QueryView::UserIdOf { username: s }),
            ),
        },
        (FlowView::Identifying { intent }, AnswerView::UserId(id)) => on_identified(intent, id),
        (FlowView::Listing, AnswerView::Files(files)) => done(
            StepView::Reply(ReplyView { status: OK, body: BodyView::Files(files) }),
        ),
        (FlowView::CheckingOwner { file_id, target, revoke }, AnswerView::Exists(owns)) => if !owns {
            done(
                text_reply(
                    FORBIDDEN,
                    if revoke {
                        Message::OnlyOwnerRevokes
                    } else {
                        Message::NotOwnerOrMissing
                    },
                ),
            )
        } else {
            (
                FlowView::FindingTarget { file_id, revoke },
                StepView::Ask(QueryView::LookupUserId { username: target }),
            )
        },
        (FlowView::FindingTarget { file_id, revoke }, AnswerView::MaybeUserId(found)) => match found {
            None => done(
                text_reply(
                    NOT_FOUND,
                    if revoke {
                        Message::UserNotFound
                    } else {
                        Message::TargetNotFound
                    },
                ),
            ),
            Some(user_id) => if revoke {
                (FlowView::Revoking, StepView::Ask(QueryView::RevokeAccess { file_id, user_id }))
            } else {
                (FlowView::Granting, StepView::Ask(QueryView::GrantAccess { file_id, user_id }))
            },
        },
        (FlowView::Granting, AnswerView::Done) => done(text_reply(OK, Message::Shared)),
        (FlowView::Revoking, AnswerView::Done) => done(text_reply(OK, Message::Revoked)),
        (FlowView::Publishing, AnswerView::Affected(rows)) => if rows > 0 {
            done(text_reply(OK, Message::NowPublic))
        } else {
            done(text_reply(FORBIDDEN, Message::NotOwner))
        },
        (FlowView::Fetching { user_id, file_id }, AnswerView::File(found)) => match found {
            None => done(text_reply(NOT_FOUND, Message::FileNotFound)),
            Some(file) => if file.owner_id == user_id || file.visibility == public_visibility() {
                serve(file)
            } else {
                (
                    FlowView::CheckingAccess { file },
                    StepView::Ask(QueryView::HasAccess { file_id, user_id }),
                )
            },
        },
        (FlowView::CheckingAccess { file }, AnswerView::Exists(shared)) => if shared {
            serve(file)
        } else {
            done(text_reply(FORBIDDEN, Message::AccessDenied))
        },
        (FlowView::FetchingPublic, AnswerView::File(found)) => match found {
            None => done(text_reply(NOT_FOUND, Message::FileNotFound)),
            Some(file) => if file.visibility == public_visibility() {
                serve(file)
            } else {
                done(text_reply(FORBIDDEN, Message::FilePrivate))
            },
        },
        (FlowView::Serving { name }, AnswerView::Bytes(read)) => match read {
            None => done(text_reply(INTERNAL_ERROR, Message::ReadFailed)),
            Some(data) => done(
                StepView::Reply(ReplyView { status: OK, body: BodyView::Attachment { name, data } }),
            ),
        },
        (FlowView::Uploading { owner_id }, AnswerView::Part(part)) => match part {
            None => done(text_reply(OK, Message::Uploaded)),
            Some(p) => if p.data.len() == 0 {
                (FlowView::Uploading { owner_id }, StepView::Ask(QueryView::NextPart))
            } else {
                let name = upload_name_of(p.file_name);
                if !is_plain_name_of(name) {
                    done(text_reply(BAD_REQUEST, Message::InvalidFileName))
                } else {
                    let path = upload_path_of(name);
                    (
                        FlowView::CheckingPath { owner_id, name, path, data: p.data },
                        StepView::Ask(QueryView::OtherOwnersPath { path, owner_id }),
                    )
                }
            },
        },
        (FlowView::CheckingPath { owner_id, name, path, data }, AnswerView::Exists(taken)) => if taken {
            done(text_reply(CONFLICT, Message::NameTaken))
        } else {
            (FlowView::Saving { owner_id, name, path }, StepView::Ask(QueryView::WriteDisk { path, data }))
        },
        (FlowView::Saving { owner_id, name, path }, AnswerView::Saved(saved)) => if saved {
            (
                FlowView::Recording { owner_id },
                StepView::Ask(QueryView::InsertFile { owner_id, name, disk_path: path }),
            )
        } else {
            done(text_reply(INTERNAL_ERROR, Message::SaveFailed))
        },
        (FlowView::Recording { owner_id }, AnswerView::Done) => (
            FlowView::Uploading { owner_id },
            StepView::Ask(QueryView::NextPart),
        ),
        _ => done(StepView::Abort),
    }
}

/// The bearer token of an optional header value.
fn header_token(authorization: &Option<String>) -> (token: Option<String>)
    ensures
        opt_string_view(token) == bearer_of_header(opt_string_view(*authorization)),
{
    match authorization {
        Some(h) => bearer_token(Some(h.as_str())),
        None => bearer_token(None),
    }
}

fn begin_authenticated(token: Option<String>, intent: Intent) -> (next: (Flow, Step))
    ensures
        (next.0@, next.1@) == authenticate(opt_string_view(token), intent@),
{
    match token {
        None => {
            let step = match intent {
                Intent::Download { .. } => text(UNAUTHORIZED, Message::MissingOrInvalidToken),
                _ => text(UNAUTHORIZED, Message::InvalidToken),
            };
            (Flow::Finished, step)
        },
        Some(t) => (
            Flow::Authenticating { intent },
            Step::Ask(Query::DecodeToken { token: t, check_expiry: true }),
        ),
    }
}

/// The first step of the endpoint that serves `req`.
pub fn start(req: Request) -> (next: (Flow, Step))
    ensures
        (next.0@, next.1@) == start_spec(req@),
{
    match req {
        Request::Register { username, password_hash } => (
            Flow::Registering,
            Step::Ask(Query::InsertUser { username, password_hash }),
        ),
        Request::Login { username, password, now } => (
            Flow::LoggingIn { password, now },
            Step::Ask(Query::FindUser { username }),
        ),
        Request::Refresh { authorization, now } => match header_token(&authorization) {
            None => (Flow::Finished, text(UNAUTHORIZED, Message::MissingToken)),
            Some(t) => (
                Flow::Refreshing { now },
                Step::Ask(Query::DecodeToken { token: t, check_expiry: false }),
            ),
        },
        Request::Upload { authorization } => begin_authenticated(
            header_token(&authorization),
            Intent::Upload,
        ),
        Request::List { authorization } => begin_authenticated(
            header_token(&authorization),
            Intent::List,
        ),
        Request::Share { authorization, file_id, target_username } => begin_authenticated(
            header_token(&authorization),
            Intent::Share { file_id, target: target_username },
        ),
        Request::Revoke { authorization, file_id, target_username } => begin_authenticated(
            header_token(&authorization),
            Intent::Revoke { file_id, target: target_username },
        ),
        Request::MakePublic { authorization, file_id } => begin_authenticated(
            header_token(&authorization),
            Intent::MakePublic { file_id },
        ),
        Request::Download { authorization, query_token, file_id } => {
            let token = match &authorization {
                Some(h) => choose_token(Some(h.as_str()), query_token),
                None => choose_token(None, query_token),
            };
            begin_authenticated(token, Intent::Download { file_id })
        },
        Request::DownloadPublic { file_id } => (
            Flow::FetchingPublic,
            Step::Ask(Query::FileById { file_id }),
        ),
    }
}

/// Whether `answer` is the kind of answer that `flow` waits for.
pub fn accepts(flow: &Flow, answer: &Answer) -> (b: bool)
    ensures
        b == awaits(flow@, answer@),
{
    match flow {
        Flow::Registering => matches!(answer, Answer::Inserted(_)),
        Flow::LoggingIn { .. } => matches!(answer, Answer::User(_)),
        Flow::Refreshing { .. } => matches!(answer, Answer::Subject(_)),
        Flow::Issuing => matches!(answer, Answer::Token(_)),
        Flow::Authenticating { .. } => matches!(answer, Answer::Subject(_)),
        Flow::Identifying { .. } => matches!(answer, Answer::UserId(_)),
        Flow::Listing => matches!(answer, Answer::Files(_)),
        Flow::CheckingOwner { .. } => matches!(answer, Answer::Exists(_)),
        Flow::FindingTarget { .. } => matches!(answer, Answer::MaybeUserId(_)),
        Flow::Granting => matches!(answer, Answer::Done),
        Flow::Revoking => matches!(answer, Answer::Done),
        Flow::Publishing => matches!(answer, Answer::Affected(_)),
        Flow::Fetching { .. } => matches!(answer, Answer::File(_)),
        Flow::CheckingAccess { .. } => matches!(answer, Answer::Exists(_)),
        Flow::FetchingPublic => matches!(answer, Answer::File(_)),
        Flow::Serving { .. } => matches!(answer, Answer::Bytes(_)),
        Flow::Uploading { .. } => matches!(answer, Answer::Part(_)),
        Flow::CheckingPath { .. } => matches!(answer, Answer::Exists(_)),
        Flow::Saving { .. } => matches!(answer, Answer::Saved(_)),
        Flow::Recording { .. } => matches!(answer, Answer::Done),
        Flow::Finished => false,
    }
}

fn issue_token(sub: String, now: i64) -> (next: (Flow, Step))
    ensures
        (next.0@, next.1@) == issue(sub@, now),
{
    match claims_at(sub, now) {
        Some(claims) => (Flow::Issuing, Step::Ask(Query::SignToken { claims })),
        None => (Flow::Finished, Step::Abort),
    }
}

fn serve_file(file: FileRecord) -> (next: (Flow, Step))
    ensures
        (next.0@, next.1@) == serve(file@),
{
    (Flow::Serving { name: file.name }, Step::Ask(Query::ReadDisk { path: file.disk_path }))
}

fn identified(intent: Intent, user_id: i32) -> (next: (Flow, Step))
    ensures
        (next.0@, next.1@) == on_identified(intent@, user_id),
{
    match intent {
        Intent::Upload => (Flow::Uploading { owner_id: user_id }, Step::Ask(Query::NextPart)),
        Intent::List => (Flow::Listing, Step::Ask(Query::AccessibleFiles { user_id })),
        Intent::Share { file_id, target } => (
            Flow::CheckingOwner { file_id, target, revoke: false },
            Step::Ask(Query::OwnsFile { file_id, owner_id: user_id }),
        ),
        Intent::Revoke { file_id, target } => (
            Flow::CheckingOwner { file_id, target, revoke: true },
            Step::Ask(Query::OwnsFile { file_id, owner_id: user_id }),
        ),
        Intent::MakePublic { file_id } => (
            Flow::Publishing,
            Step::Ask(Query::MakePublic { file_id, owner_id: user_id }),
        ),
        Intent::Download { file_id } => (
            Flow::Fetching { user_id, file_id },
            Step::Ask(Query::FileById { file_id }),
        ),
    }
}

fn store_part(owner_id: i32, part: Part) -> (next: (Flow, Step))
    ensures
        (next.0@, next.1@) == resume_spec(
            FlowView::Uploading { owner_id },
            AnswerView::Part(Some(part@)),
        ),
{
    if part.data.len() == 0 {
        (Flow::Uploading { owner_id }, Step::Ask(Query::NextPart))
    } else {
        let name = match &part.file_name {
            Some(n) => upload_name(Some(n.as_str())),
            None => upload_name(None),
        };
        if !is_plain_name(name.as_str()) {
            return (Flow::Finished, text(BAD_REQUEST, Message::InvalidFileName));
        }
        let path = upload_path(name.as_str());
        let asked = path.clone();
        (
            Flow::CheckingPath { owner_id, name, path, data: part.data },
            Step::Ask(Query::OtherOwnersPath { path: asked, owner_id }),
        )
    }
}

/// The step that follows `answer`, the answer to the operation that `flow`
/// asked for last.
pub fn resume(flow: Flow, answer: Answer) -> (next: (Flow, Step))
    requires
        awaits(flow@, answer@),
    ensures
        (next.0@, next.1@) == resume_spec(flow@, answer@),
{
    match (flow, answer) {
        (Flow::Registering, Answer::Inserted(stored)) => if stored {
            (Flow::Finished, text(CREATED, Message::UserRegistered))
        } else {
            (Flow::Finished, text(CONFLICT, Message::UsernameTaken))
        },
        (Flow::LoggingIn { password, now }, Answer::User(found)) => match found {
            None => (Flow::Finished, text(UNAUTHORIZED, Message::InvalidCredentials)),
            Some(user) => match check_password(password.as_str(), user.password_hash.as_str()) {
                None => (Flow::Finished, Step::Abort),
                Some(true) => issue_token(user.username, now),
                Some(false) => (Flow::Finished, text(UNAUTHORIZED, Message::InvalidCredentials)),
            },
        },
        (Flow::Refreshing { now }, Answer::Subject(subject)) => match subject {
            None => (Flow::Finished, text(UNAUTHORIZED, Message::InvalidSignature)),
            Some(s) => issue_token(s, now),
        },
        (Flow::Issuing, Answer::Token(token)) => (
            Flow::Finished,
            Step::Reply(Reply { status: OK, body: Body::Token(LoginResponse { token }) }),
        ),
        (Flow::Authenticating { intent }, Answer::Subject(subject)) => match subject {
            None => begin_authenticated(None, intent),
            Some(s) => (
                Flow::Identifying { intent },
                Step::Ask(Query::UserIdOf { username: s }),
            ),
        },
        (Flow::Identifying { intent }, Answer::UserId(id)) => identified(intent, id),
        (Flow::Listing, Answer::Files(files)) => (
            Flow::Finished,
            Step::Reply(Reply { status: OK, body: Body::Files(files) }),
        ),
        (Flow::CheckingOwner { file_id, target, revoke }, Answer::Exists(owns)) => if !owns {
            let message = if revoke {
                Message::OnlyOwnerRevokes
            } else {
                Message::NotOwnerOrMissing
            };
            (Flow::Finished, text(FORBIDDEN, message))
        } else {
            (
                Flow::FindingTarget { file_id, revoke },
                Step::Ask(Query::LookupUserId { username: target }),
            )
        },
        (Flow::FindingTarget { file_id, revoke }, Answer::MaybeUserId(found)) => match found {
            None => {
                let message = if revoke {
                    Message::UserNotFound
                } else {
                    Message::TargetNotFound
                };
                (Flow::Finished, text(NOT_FOUND, message))
            },
            Some(user_id) => if revoke {
                (Flow::Revoking, Step::Ask(Query::RevokeAccess { file_id, user_id }))
            } else {
                (Flow::Granting, Step::Ask(Query::GrantAccess { file_id, user_id }))
            },
        },
        (Flow::Granting, Answer::Done) => (Flow::Finished, text(OK, Message::Shared)),
        (Flow::Revoking, Answer::Done) => (Flow::Finished, text(OK, Message::Revoked)),
        (Flow::Publishing, Answer::Affected(rows)) => if rows > 0 {
            (Flow::Finished, text(OK, Message::NowPublic))
        } else {
            (Flow::Finished, text(FORBIDDEN, Message::NotOwner))
        },
        (Flow::Fetching { user_id, file_id }, Answer::File(found)) => match found {
            None => (Flow::Finished, text(NOT_FOUND, Message::FileNotFound)),
            Some(file) => if file.owner_id == user_id || file.is_public() {
                serve_file(file)
            } else {
                (Flow::CheckingAccess { file }, Step::Ask(Query::HasAccess { file_id, user_id }))
            },
        },
        (Flow::CheckingAccess { file }, Answer::Exists(shared)) => if shared {
            serve_file(file)
        } else {
            (Flow::Finished, text(FORBIDDEN, Message::AccessDenied))
        },
        (Flow::FetchingPublic, Answer::File(found)) => match found {
            None => (Flow::Finished, text(NOT_FOUND, Message::FileNotFound)),
            Some(file) => if file.is_public() {
                serve_file(file)
            } else {
                (Flow::Finished, text(FORBIDDEN, Message::FilePrivate))
            },
        },
        (Flow::Serving { name }, Answer::Bytes(read)) => match read {
            None => (Flow::Finished, text(INTERNAL_ERROR, Message::ReadFailed)),
            Some(data) => (
                Flow::Finished,
                Step::Reply(Reply { status: OK, body: Body::Attachment { name, data } }),
            ),
        },
        (Flow::Uploading { owner_id }, Answer::Part(part)) => match part {
            None => (Flow::Finished, text(OK, Message::Uploaded)),
            Some(p) => store_part(owner_id, p),
        },
        (Flow::CheckingPath { owner_id, name, path, data }, Answer::Exists(taken)) => if taken {
            (Flow::Finished, text(CONFLICT, Message::NameTaken))
        } else {
            let written = path.clone();
            (Flow::Saving { owner_id, name, path }, Step::Ask(Query::WriteDisk { path: written, data }))
        },
        (Flow::Saving { owner_id, name, path }, Answer::Saved(saved)) => if saved {
            (
                Flow::Recording { owner_id },
                Step::Ask(Query::InsertFile { owner_id, name, disk_path: path }),
            )
        } else {
            (Flow::Finished, text(INTERNAL_ERROR, Message::SaveFailed))
        },
        (Flow::Recording { owner_id }, Answer::Done) => (
            Flow::Uploading { owner_id },
            Step::Ask(Query::NextPart),
        ),
        _ => (Flow::Finished, Step::Abort),
    }
}

/// What becomes of a registration before it reaches the database: the
/// password is hashed (Argon2id, random salt) and the request carries the
/// hash. Hashing fails only for a password longer than `MAX_PWD_LEN` bytes,
/// and then the reply is 500 "failed to hash password".
pub fn registration(payload: AuthRequest) -> (res: Result<Request, Reply>)
    ensures
        res is Ok <==> encode_utf8(payload.password@).len() <= max_password_len(),
        match res {
            Ok(req) => req@ matches RequestView::Register { username, password_hash }
                && username == payload.username@
                && phc_parses(password_hash)
                && password_verifies(payload.password@, password_hash)
                && names_argon2id(password_hash),
            Err(reply) => StepView::Reply(reply@) == text_reply(INTERNAL_ERROR, Message::HashFailed),
        },
{
    match hash_password(payload.password.as_str()) {
        Some(password_hash) => Ok(Request::Register { username: payload.username, password_hash }),
        None => Err(Reply { status: INTERNAL_ERROR, body: Body::Text(Message::HashFailed) }),
    }
}

/// `POST /register`: the first step of registering, once the password is
/// hashed (which works for every password of at most `MAX_PWD_LEN` bytes);
/// a failed hash is answered at once with 500.
pub fn register_user(payload: AuthRequest) -> (next: Result<(Flow, Step), Reply>)
    ensures
        next is Ok <==> encode_utf8(payload.password@).len() <= max_password_len(),
        match next {
            Ok((flow, step)) => exists|hash: Seq<char>|
                phc_parses(hash) && password_verifies(payload.password@, hash) && names_argon2id(hash)
                    && (flow@, step@)
                    == start_spec(RequestView::Register { username: payload.username@, password_hash: hash }),
            Err(reply) => StepView::Reply(reply@) == text_reply(INTERNAL_ERROR, Message::HashFailed),
        },
{
    match registration(payload) {
        Ok(req) => Ok(start(req)),
        Err(reply) => Err(reply),
    }
}

/// `POST /login`: look the user up; a token, if one is issued, is issued
/// at the time read from the clock now.
pub fn login_user(payload: AuthRequest) -> (next: (Flow, Step))
    ensures
        exists|now: i64|
            0 <= now <= chrono_last() && (next.0@, next.1@) == start_spec(
                RequestView::Login { username: payload.username@, password: payload.password@, now },
            ),
{
    let now = current_time();
    start(Request::Login { username: payload.username, password: payload.password, now })
}

/// `GET /token/refresh`: check the bearer token, expired or not; the new
/// token is issued at the time read from the clock now.
pub fn refresh_token(authorization: Option<String>) -> (next: (Flow, Step))
    ensures
        exists|now: i64|
            0 <= now <= chrono_last() && (next.0@, next.1@) == start_spec(
                RequestView::Refresh { authorization: opt_string_view(authorization), now },
            ),
{
    let now = current_time();
    start(Request::Refresh { authorization, now })
}

/// `POST /file/upload`: authenticate, then read the parts.
pub fn upload_file(authorization: Option<String>) -> (next: (Flow, Step))
    ensures
        (next.0@, next.1@) == start_spec(
            RequestView::Upload { authorization: opt_string_view(authorization) },
        ),
{
    start(Request::Upload { authorization })
}

/// `GET /file/list`: authenticate, then list the caller's files.
pub fn list_files(authorization: Option<String>) -> (next: (Flow, Step))
    ensures
        (next.0@, next.1@) == start_spec(
            RequestView::List { authorization: opt_string_view(authorization) },
        ),
{
    start(Request::List { authorization })
}

/// `POST /file/share`: authenticate, then share the file if the caller
/// owns it.
pub fn share_file(authorization: Option<String>, payload: ShareRequest) -> (next: (Flow, Step))
    ensures
        (next.0@, next.1@) == start_spec(
            RequestView::Share {
                authorization: opt_string_view(authorization),
                file_id: payload.file_id,
                target_username: payload.target_username@,
            },
        ),
{
    start(
        Request::Share {
            authorization,
            file_id: payload.file_id,
            target_username: payload.target_username,
        },
    )
}

/// `DELETE /file/{file_id}/share/{username}`: authenticate, then revoke
/// the user's access if the caller owns the file.
pub fn revoke_permission(authorization: Option<String>, file_id: i32, target_username: String) -> (next: (
    Flow,
    Step,
))
    ensures
        (next.0@, next.1@) == start_spec(
            RequestView::Revoke {
                authorization: opt_string_view(authorization),
                file_id,
                target_username: target_username@,
            },
        ),
{
    start(Request::Revoke { authorization, file_id, target_username })
}

/// `POST /file/{file_id}/make_public`: authenticate, then publish the file
/// if the caller owns it.
pub fn make_public(authorization: Option<String>, file_id: i32) -> (next: (Flow, Step))
    ensures
        (next.0@, next.1@) == start_spec(
            RequestView::MakePublic { authorization: opt_string_view(authorization), file_id },
        ),
{
    start(Request::MakePublic { authorization, file_id })
}

/// `GET /file/download/{file_id}`: authenticate with the header's token or
/// the `token` query parameter, then send the file if the caller may have
/// it.
pub fn download_file(authorization: Option<String>, query_token: Option<String>, file_id: i32) -> (next: (
    Flow,
    Step,
))
    ensures
        (next.0@, next.1@) == start_spec(
            RequestView::Download {
                authorization: opt_string_view(authorization),
                query_token: opt_string_view(query_token),
                file_id,
            },
        ),
{
    start(Request::Download { authorization, query_token, file_id })
}

/// `GET /file/public/{file_id}`: send the file if it is public.
pub fn download_public_file(file_id: i32) -> (next: (Flow, Step))
    ensures
        (next.0@, next.1@) == start_spec(RequestView::DownloadPublic { file_id }),
{
    start(Request::DownloadPublic { file_id })
}

} // verus!
