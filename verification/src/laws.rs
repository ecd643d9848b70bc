//! What the endpoints do, proved against the model of the tables: each
//! endpoint's reply and effect, and what follows across requests.
use vstd::prelude::*;
use crate::models::{FileView, public_visibility, private_visibility};
use crate::headers::{
    bearer_prefix, bearer_of, bearer_of_header, presented_token, upload_name_of, upload_path_of,
    is_plain_name_of,
};
use crate::password::{phc_parses, password_verifies};
use crate::tokens::issued_claims;
use crate::protocol::{
    FlowView, StepView, QueryView, AnswerView, answer_fits, Message, ReplyView, BodyView,
    RequestView, OK, CREATED, BAD_REQUEST, UNAUTHORIZED, FORBIDDEN, NOT_FOUND, CONFLICT, INTERNAL_ERROR,
};
use crate::endpoints::{start_spec, resume_spec, awaits};
use crate::tables::{
    respond, World, Tables, serve, drive, path_of_other_owner, has_user, has_file, user_named, user_id_of, owns,
    with_tables, file_by_id, file_with_id, may_download, accessible_files, add_user, grant, revoke,
    publish, well_formed, add_file, new_file, has_user_id,
};

verus! {

/// A reply that carries a fixed text.
pub open spec fn says(status: u16, message: Message) -> ReplyView {
    ReplyView { status, body: BodyView::Text(message) }
}

/// A reply that carries a signed token.
pub open spec fn token_reply(token: Seq<char>) -> ReplyView {
    ReplyView { status: OK, body: BodyView::Token(token) }
}

/// The subject of a presented token whose signature and expiry check out.
pub open spec fn signed_in(w: World, token: Option<Seq<char>>) -> Option<Seq<char>> {
    match token {
        Some(t) => (w.decode)(t, true),
        None => None,
    }
}

/// Sending a file: its bytes under its name (200), or 500 when they cannot
/// be read from disk.
pub open spec fn sent(w: World, file: FileView) -> Option<(ReplyView, World)> {
    if w.disk.contains_key(file.disk_path) {
        Some(
            (
                ReplyView {
                    status: OK,
                    body: BodyView::Attachment { name: file.name, data: w.disk[file.disk_path] },
                },
                w,
            ),
        )
    } else {
        Some((says(INTERNAL_ERROR, Message::ReadFailed), w))
    }
}

/// Registration stores the user under a name not yet taken (201); a taken
/// name is refused (409) and nothing changes.
pub proof fn law_register(w: World, username: Seq<char>, password_hash: Seq<char>, fuel: nat)
    requires
        fuel >= 1,
    ensures
        serve(w, RequestView::Register { username, password_hash }, fuel) == if has_user(
            w.tables,
            username,
        ) {
            Some((says(CONFLICT, Message::UsernameTaken), w))
        } else {
            Some(
                (
                    says(CREATED, Message::UserRegistered),
                    with_tables(w, add_user(w.tables, username, password_hash)),
                ),
            )
        },
{
    reveal_with_fuel(drive, 2);
}

/// The reply that carries a token signed with the claims issued for `sub`
/// at time `now`; `None` (the request gives up) when their expiry is out
/// of chrono's range.
pub open spec fn issued_reply(w: World, sub: Seq<char>, now: i64) -> Option<(ReplyView, World)> {
    match issued_claims(sub, now) {
        Some(claims) => Some((token_reply((w.sign)(claims)), w)),
        None => None,
    }
}

/// Login issues a token for the user when the password verifies against
/// the stored hash: its claims name the user and expire 24 hours after the
/// time of the request (`issued_claims`, see `tokens::claims_at`). An
/// unknown user and a wrong password get the same 401. A stored hash that
/// is not a PHC string stops the request.
pub proof fn law_login(w: World, username: Seq<char>, password: Seq<char>, now: i64, fuel: nat)
    requires
        fuel >= 2,
    ensures
        serve(w, RequestView::Login { username, password, now }, fuel) == if !has_user(
            w.tables,
            username,
        ) {
            Some((says(UNAUTHORIZED, Message::InvalidCredentials), w))
        } else {
            let row = user_named(w.tables, username);
            if !phc_parses(row.password_hash) {
                None
            } else if password_verifies(password, row.password_hash) {
                issued_reply(w, row.username, now)
            } else {
                Some((says(UNAUTHORIZED, Message::InvalidCredentials), w))
            }
        },
{
    reveal_with_fuel(drive, 3);
}

/// Refreshing needs a bearer token whose signature checks out, expired or
/// not, and issues a new token for its subject, expiring 24 hours after the
/// time of the request. It reads and writes no table.
pub proof fn law_refresh(w: World, authorization: Option<Seq<char>>, now: i64, fuel: nat)
    requires
        fuel >= 2,
    ensures
        serve(w, RequestView::Refresh { authorization, now }, fuel) == match bearer_of_header(
            authorization,
        ) {
            None => Some((says(UNAUTHORIZED, Message::MissingToken), w)),
            Some(t) => match (w.decode)(t, false) {
                None => Some((says(UNAUTHORIZED, Message::InvalidSignature), w)),
                Some(subject) => issued_reply(w, subject, now),
            },
        },
{
    reveal_with_fuel(drive, 3);
}

/// Listing gives the files that the caller owns or was given access to.
pub proof fn law_list(w: World, authorization: Option<Seq<char>>, fuel: nat)
    requires
        fuel >= 3,
    ensures
        serve(w, RequestView::List { authorization }, fuel) == match signed_in(
            w,
            bearer_of_header(authorization),
        ) {
            None => Some((says(UNAUTHORIZED, Message::InvalidToken), w)),
            Some(name) => if !has_user(w.tables, name) {
                None
            } else {
                Some(
                    (
                        ReplyView {
                            status: OK,
                            body: BodyView::Files(
                                accessible_files(w.tables, user_named(w.tables, name).id),
                            ),
                        },
                        w,
                    ),
                )
            },
        },
{
    reveal_with_fuel(drive, 4);
}

/// Sharing: the owner of the file grants the target user access (200);
/// anyone else is refused (403) and an unknown target is reported (404),
/// with nothing changed. Without a valid token the answer is 401.
pub proof fn law_share(w: World, authorization: Option<Seq<char>>, file_id: i32, target: Seq<char>, fuel: nat)
    requires
        fuel >= 5,
    ensures
        serve(w, RequestView::Share { authorization, file_id, target_username: target }, fuel) == match signed_in(
            w,
            bearer_of_header(authorization),
        ) {
            None => Some((says(UNAUTHORIZED, Message::InvalidToken), w)),
            Some(name) => if !has_user(w.tables, name) {
                None
            } else if !owns(w.tables, file_id, user_named(w.tables, name).id) {
                Some((says(FORBIDDEN, Message::NotOwnerOrMissing), w))
            } else {
                match user_id_of(w.tables, target) {
                    None => Some((says(NOT_FOUND, Message::TargetNotFound), w)),
                    Some(v) => Some(
                        (says(OK, Message::Shared), with_tables(w, grant(w.tables, file_id, v))),
                    ),
                }
            }
        },
{
    reveal_with_fuel(drive, 6);
}

/// Revoking: the owner of the file takes the target user's access away
/// (200); anyone else is refused (403) and an unknown target is reported
/// (404), with nothing changed. Without a valid token the answer is 401.
pub proof fn law_revoke(w: World, authorization: Option<Seq<char>>, file_id: i32, target: Seq<char>, fuel: nat)
    requires
        fuel >= 5,
    ensures
        serve(w, RequestView::Revoke { authorization, file_id, target_username: target }, fuel) == match signed_in(
            w,
            bearer_of_header(authorization),
        ) {
            None => Some((says(UNAUTHORIZED, Message::InvalidToken), w)),
            Some(name) => if !has_user(w.tables, name) {
                None
            } else if !owns(w.tables, file_id, user_named(w.tables, name).id) {
                Some((says(FORBIDDEN, Message::OnlyOwnerRevokes), w))
            } else {
                match user_id_of(w.tables, target) {
                    None => Some((says(NOT_FOUND, Message::UserNotFound), w)),
                    Some(v) => Some(
                        (says(OK, Message::Revoked), with_tables(w, revoke(w.tables, file_id, v))),
                    ),
                }
            }
        },
{
    reveal_with_fuel(drive, 6);
}

/// Making a file public: only its owner can (200); for anyone else, or a
/// file that does not exist, the answer is 403 and nothing changes.
pub proof fn law_make_public(w: World, authorization: Option<Seq<char>>, file_id: i32, fuel: nat)
    requires
        fuel >= 3,
    ensures
        serve(w, RequestView::MakePublic { authorization, file_id }, fuel) == match signed_in(
            w,
            bearer_of_header(authorization),
        ) {
            None => Some((says(UNAUTHORIZED, Message::InvalidToken), w)),
            Some(name) => if !has_user(w.tables, name) {
                None
            } else {
                let u = user_named(w.tables, name).id;
                if owns(w.tables, file_id, u) {
                    Some((says(OK, Message::NowPublic), with_tables(w, publish(w.tables, file_id, u))))
                } else {
                    Some((says(FORBIDDEN, Message::NotOwner), w))
                }
            },
        },
{
    reveal_with_fuel(drive, 4);
}

/// Downloading with a token (from the header, or else the query): the
/// file is sent to its owner, to anyone once it is public, and to the users
/// it was shared with; anyone else gets 403. Nothing changes.
pub proof fn law_download(
    w: World,
    authorization: Option<Seq<char>>,
    query_token: Option<Seq<char>>,
    file_id: i32,
    fuel: nat,
)
    requires
        fuel >= 5,
    ensures
        serve(w, RequestView::Download { authorization, query_token, file_id }, fuel) == match signed_in(
            w,
            presented_token(authorization, query_token),
        ) {
            None => Some((says(UNAUTHORIZED, Message::MissingOrInvalidToken), w)),
            Some(name) => if !has_user(w.tables, name) {
                None
            } else {
                match file_by_id(w.tables, file_id) {
                    None => Some((says(NOT_FOUND, Message::FileNotFound), w)),
                    Some(file) => if may_download(w.tables, user_named(w.tables, name).id, file) {
                        sent(w, file)
                    } else {
                        Some((says(FORBIDDEN, Message::AccessDenied), w))
                    },
                }
            },
        },
{
    reveal_with_fuel(drive, 6);
}

/// Downloading without a token: only a public file is sent (a private one
/// gets 403). Nothing changes.
pub proof fn law_download_public(w: World, file_id: i32, fuel: nat)
    requires
        fuel >= 2,
    ensures
        serve(w, RequestView::DownloadPublic { file_id }, fuel) == match file_by_id(w.tables, file_id) {
            None => Some((says(NOT_FOUND, Message::FileNotFound), w)),
            Some(file) => if file.visibility == public_visibility() {
                sent(w, file)
            } else {
                Some((says(FORBIDDEN, Message::FilePrivate), w))
            },
        },
{
    reveal_with_fuel(drive, 3);
}

/// A private file that was shared with no one can be downloaded by its
/// owner alone: anyone else who signs in gets 403.
pub proof fn law_private_file_is_owner_only(
    w: World,
    authorization: Option<Seq<char>>,
    query_token: Option<Seq<char>>,
    file_id: i32,
)
    requires
        signed_in(w, presented_token(authorization, query_token)) matches Some(name) && has_user(
            w.tables,
            name,
        ) && (file_by_id(w.tables, file_id) matches Some(file) && file.visibility
            == private_visibility() && file.owner_id != user_named(w.tables, name).id
            && !w.tables.grants.contains((file_id, user_named(w.tables, name).id))),
    ensures
        serve(w, RequestView::Download { authorization, query_token, file_id }, 5) == Some(
            (says(FORBIDDEN, Message::AccessDenied), w),
        ),
{
    law_download(w, authorization, query_token, file_id, 5);
    assert(private_visibility() != public_visibility()) by {
        assert(private_visibility()[1] != public_visibility()[1]);
    }
}

/// Once its owner shares a file with a user, that user can download it.
pub proof fn law_shared_file_can_be_downloaded(
    w: World,
    owner_authorization: Option<Seq<char>>,
    file_id: i32,
    target: Seq<char>,
    target_authorization: Option<Seq<char>>,
    target_query_token: Option<Seq<char>>,
)
    requires
        signed_in(w, bearer_of_header(owner_authorization)) matches Some(owner) && has_user(
            w.tables,
            owner,
        ) && owns(w.tables, file_id, user_named(w.tables, owner).id),
        has_user(w.tables, target),
        signed_in(w, presented_token(target_authorization, target_query_token)) == Some(target),
    ensures
        serve(
            w,
            RequestView::Share { authorization: owner_authorization, file_id, target_username: target },
            5,
        ) matches Some((reply, shared)) && reply == says(OK, Message::Shared) && serve(
            shared,
            RequestView::Download {
                authorization: target_authorization,
                query_token: target_query_token,
                file_id,
            },
            5,
        ) == sent(shared, file_with_id(w.tables, file_id)),
{
    law_share(w, owner_authorization, file_id, target, 5);
    let v = user_named(w.tables, target).id;
    let shared = with_tables(w, grant(w.tables, file_id, v));
    law_download(shared, target_authorization, target_query_token, file_id, 5);
}

/// Once its owner revokes a user's access to a file, that user can no
/// longer download it, unless it is theirs or it is public.
pub proof fn law_revoked_file_cannot_be_downloaded(
    w: World,
    owner_authorization: Option<Seq<char>>,
    file_id: i32,
    target: Seq<char>,
    target_authorization: Option<Seq<char>>,
    target_query_token: Option<Seq<char>>,
)
    requires
        signed_in(w, bearer_of_header(owner_authorization)) matches Some(owner) && has_user(
            w.tables,
            owner,
        ) && owns(w.tables, file_id, user_named(w.tables, owner).id),
        has_user(w.tables, target),
        signed_in(w, presented_token(target_authorization, target_query_token)) == Some(target),
    ensures
        serve(
            w,
            RequestView::Revoke { authorization: owner_authorization, file_id, target_username: target },
            5,
        ) matches Some((reply, revoked)) && reply == says(OK, Message::Revoked) && serve(
            revoked,
            RequestView::Download {
                authorization: target_authorization,
                query_token: target_query_token,
                file_id,
            },
            5,
        ) == ({
            let file = file_with_id(w.tables, file_id);
            if file.owner_id == user_named(w.tables, target).id || file.visibility
                == public_visibility() {
                sent(revoked, file)
            } else {
                Some((says(FORBIDDEN, Message::AccessDenied), revoked))
            }
        }),
{
    law_revoke(w, owner_authorization, file_id, target, 5);
    let v = user_named(w.tables, target).id;
    let revoked = with_tables(w, revoke(w.tables, file_id, v));
    law_download(revoked, target_authorization, target_query_token, file_id, 5);
}

/// Once its owner makes a file public, anyone can download it without a
/// token.
pub proof fn law_public_file_can_be_downloaded_by_anyone(
    w: World,
    owner_authorization: Option<Seq<char>>,
    file_id: i32,
)
    requires
        well_formed(w.tables),
        signed_in(w, bearer_of_header(owner_authorization)) matches Some(owner) && has_user(
            w.tables,
            owner,
        ) && owns(w.tables, file_id, user_named(w.tables, owner).id),
    ensures
        serve(w, RequestView::MakePublic { authorization: owner_authorization, file_id }, 3) matches Some(
            (reply, public),
        ) && reply == says(OK, Message::NowPublic) && serve(
            public,
            RequestView::DownloadPublic { file_id },
            2,
        ) == sent(public, file_by_id(public.tables, file_id).unwrap())
            && file_by_id(public.tables, file_id) is Some,
{
    let owner = signed_in(w, bearer_of_header(owner_authorization)).unwrap();
    let u = user_named(w.tables, owner).id;
    law_make_public(w, owner_authorization, file_id, 3);
    let t = w.tables;
    let t1 = publish(t, file_id, u);
    let public = with_tables(w, t1);
    law_download_public(public, file_id, 2);
    let k = choose|k: int| 0 <= k < t.files.len() && (#[trigger] t.files[k]).id == file_id
        && t.files[k].owner_id == u;
    assert(t1.files[k].id == file_id);
    assert(has_file(t1, file_id));
    let j = choose|j: int| 0 <= j < t1.files.len() && (#[trigger] t1.files[j]).id == file_id;
    assert(t1.files[j].id == t.files[j].id);
    assert(j == k);
    assert(file_with_id(t1, file_id).visibility == public_visibility());
}

/// A user who registered can log in with the password they registered
/// with, and with no password that the stored hash does not verify.
pub proof fn law_registered_user_can_log_in(
    w: World,
    username: Seq<char>,
    password_hash: Seq<char>,
    password: Seq<char>,
    now: i64,
)
    requires
        !has_user(w.tables, username),
        phc_parses(password_hash),
    ensures
        serve(w, RequestView::Register { username, password_hash }, 1) matches Some(
            (reply, registered),
        ) && reply == says(CREATED, Message::UserRegistered) && serve(
            registered,
            RequestView::Login { username, password, now },
            2,
        ) == if password_verifies(password, password_hash) {
            issued_reply(registered, username, now)
        } else {
            Some((says(UNAUTHORIZED, Message::InvalidCredentials), registered))
        },
{
    law_register(w, username, password_hash, 1);
    let t = w.tables;
    let t1 = add_user(t, username, password_hash);
    let registered = with_tables(w, t1);
    law_login(registered, username, password, now, 2);
    let n = t.users.len() as int;
    assert(t1.users[n].username == username);
    assert(has_user(t1, username));
    let i = choose|i: int| 0 <= i < t1.users.len() && (#[trigger] t1.users[i]).username == username;
    if i < n {
        assert(t.users[i] == t1.users[i]);
        assert(has_user(t, username));
    }
    assert(i == n);
}

/// The token that login hands out authenticates the user's later
/// requests: sent back as `Bearer <token>`, it lists the user's files, as
/// long as a token signed with claims checks out for their subject.
pub proof fn law_login_token_authenticates(
    w: World,
    username: Seq<char>,
    password: Seq<char>,
    now: i64,
)
    requires
        has_user(w.tables, username),
        phc_parses(user_named(w.tables, username).password_hash),
        password_verifies(password, user_named(w.tables, username).password_hash),
        issued_claims(username, now) matches Some(claims) && (w.decode)((w.sign)(claims), true)
            == Some(claims.sub),
    ensures
        serve(w, RequestView::Login { username, password, now }, 2) matches Some((reply, after))
            && reply == token_reply((w.sign)(issued_claims(username, now).unwrap())) && serve(
            after,
            RequestView::List {
                authorization: Some(
                    bearer_prefix() + (w.sign)(issued_claims(username, now).unwrap()),
                ),
            },
            3,
        ) == Some(
            (
                ReplyView {
                    status: OK,
                    body: BodyView::Files(
                        accessible_files(w.tables, user_named(w.tables, username).id),
                    ),
                },
                w,
            ),
        ),
{
    law_login(w, username, password, now, 2);
    let token = (w.sign)(issued_claims(username, now).unwrap());
    let header = bearer_prefix() + token;
    assert(header.take(7) =~= bearer_prefix());
    assert(header.skip(7) =~= token);
    assert(bearer_of(header) == Some(token));
    law_list(w, Some(header), 3);
    assert(user_named(w.tables, username).username == username);
}

/// Every file in a user's listing is one that they may download.
pub proof fn law_listed_files_can_be_downloaded(t: Tables, user_id: i32, i: int)
    requires
        0 <= i < accessible_files(t, user_id).len(),
    ensures
        may_download(t, user_id, accessible_files(t, user_id)[i]),
{
    t.files.lemma_filter_pred(
        |f: FileView| f.owner_id == user_id || t.grants.contains((f.id, user_id)),
        i,
    );
}

/// A user's listing holds every file they own and every file shared with
/// them.
pub proof fn law_listing_is_complete(t: Tables, user_id: i32, i: int)
    requires
        0 <= i < t.files.len(),
        t.files[i].owner_id == user_id || t.grants.contains((t.files[i].id, user_id)),
    ensures
        accessible_files(t, user_id).contains(t.files[i]),
{
    t.files.lemma_filter_contains(
        |f: FileView| f.owner_id == user_id || t.grants.contains((f.id, user_id)),
        i,
    );
}

/// What an upload does with the parts still to be read, for the given
/// owner: each part with bytes is written to `uploads/<name>` (its file
/// name, or `unknown`), replacing what was there, and recorded as a private
/// file of the owner; parts without bytes are skipped, and a later part
/// with the same name replaces the bytes of an earlier one. A name that
/// would leave `uploads/` (`..`, or one holding `/`) stops the upload with
/// 400; a path where another user's file is kept stops it with 409; a write
/// that fails stops it with 500; after the last part the reply is 200.
pub open spec fn upload_outcome(w: World, owner_id: i32) -> (ReplyView, World)
    decreases w.parts.len(),
{
    if w.parts.len() == 0 {
        (says(OK, Message::Uploaded), w)
    } else {
        let part = w.parts[0];
        let rest = World { parts: w.parts.drop_first(), ..w };
        if part.data.len() == 0 {
            upload_outcome(rest, owner_id)
        } else {
            let name = upload_name_of(part.file_name);
            let path = upload_path_of(name);
            if !is_plain_name_of(name) {
                (says(BAD_REQUEST, Message::InvalidFileName), rest)
            } else if path_of_other_owner(rest.tables, path, owner_id) {
                (says(CONFLICT, Message::NameTaken), rest)
            } else if !rest.writable.contains(path) {
                (says(INTERNAL_ERROR, Message::SaveFailed), rest)
            } else {
                let written = World { disk: rest.disk.insert(path, part.data), ..rest };
                upload_outcome(
                    with_tables(written, add_file(written.tables, owner_id, name, path)),
                    owner_id,
                )
            }
        }
    }
}

/// Whether a part of the given name is written to the path and recorded.
pub open spec fn part_stored(w: World, owner_id: i32, name: Seq<char>, path: Seq<char>) -> bool {
    &&& is_plain_name_of(name)
    &&& !path_of_other_owner(w.tables, path, owner_id)
    &&& w.writable.contains(path)
}

proof fn lemma_upload_loop(w: World, owner_id: i32, fuel: nat)
    requires
        fuel >= 4 * w.parts.len() + 1,
    ensures
        drive(w, FlowView::Uploading { owner_id }, StepView::Ask(QueryView::NextPart), fuel) == Some(
            upload_outcome(w, owner_id),
        ),
    decreases w.parts.len(),
{
    reveal_with_fuel(drive, 5);
    if w.parts.len() > 0 {
        let part = w.parts[0];
        let rest = World { parts: w.parts.drop_first(), ..w };
        if part.data.len() == 0 {
            lemma_upload_loop(rest, owner_id, (fuel - 1) as nat);
        } else {
            let name = upload_name_of(part.file_name);
            let path = upload_path_of(name);
            if part_stored(rest, owner_id, name, path) {
                let written = World { disk: rest.disk.insert(path, part.data), ..rest };
                let next = with_tables(written, add_file(written.tables, owner_id, name, path));
                lemma_upload_loop(next, owner_id, (fuel - 4) as nat);
            }
        }
    }
}

/// Uploading: with a valid token of a known user, the parts are stored as
/// `upload_outcome` says.
pub proof fn law_upload(w: World, authorization: Option<Seq<char>>, fuel: nat)
    requires
        fuel >= 4 * w.parts.len() + 3,
    ensures
        serve(w, RequestView::Upload { authorization }, fuel) == match signed_in(
            w,
            bearer_of_header(authorization),
        ) {
            None => Some((says(UNAUTHORIZED, Message::InvalidToken), w)),
            Some(name) => if !has_user(w.tables, name) {
                None
            } else {
                Some(upload_outcome(w, user_named(w.tables, name).id))
            },
        },
{
    reveal_with_fuel(drive, 3);
    if let Some(name) = signed_in(w, bearer_of_header(authorization)) {
        if has_user(w.tables, name) {
            lemma_upload_loop(w, user_named(w.tables, name).id, (fuel - 2) as nat);
        }
    }
}

/// An upload only adds files, each private and owned by the uploader; the
/// files that were there stay as they were, and users and access grants do
/// not change.
pub proof fn law_uploads_are_private(w: World, owner_id: i32)
    ensures
        ({
            let after = upload_outcome(w, owner_id).1.tables;
            &&& after.users == w.tables.users
            &&& after.grants == w.tables.grants
            &&& w.tables.files.len() <= after.files.len()
            &&& after.files.take(w.tables.files.len() as int) == w.tables.files
            &&& forall|i: int|
                w.tables.files.len() <= i < after.files.len() ==> (#[trigger] after.files[i]).owner_id
                    == owner_id && after.files[i].visibility == private_visibility()
        }),
    decreases w.parts.len(),
{
    if w.parts.len() > 0 {
        let part = w.parts[0];
        let rest = World { parts: w.parts.drop_first(), ..w };
        if part.data.len() == 0 {
            law_uploads_are_private(rest, owner_id);
        } else {
            let name = upload_name_of(part.file_name);
            let path = upload_path_of(name);
            if part_stored(rest, owner_id, name, path) {
                let written = World { disk: rest.disk.insert(path, part.data), ..rest };
                let next = with_tables(written, add_file(written.tables, owner_id, name, path));
                law_uploads_are_private(next, owner_id);
                let after = upload_outcome(w, owner_id).1.tables;
                let n = w.tables.files.len() as int;
                assert(after == upload_outcome(next, owner_id).1.tables);
                assert(next.tables.files.take(n) =~= w.tables.files);
                assert(after.files.take(n + 1) == next.tables.files);
                assert(after.files.take(n) =~= after.files.take(n + 1).take(n));
                assert forall|i: int|
                    n <= i < after.files.len() implies (#[trigger] after.files[i]).owner_id
                    == owner_id && after.files[i].visibility == private_visibility() by {
                    if i == n {
                        assert(after.files.take(n + 1)[n] == after.files[n]);
                        assert(next.tables.files[n] == new_file(written.tables, owner_id, name, path));
                    }
                }
            }
        }
    }
}

/// An upload removes no file from disk; every file whose bytes it writes
/// lies directly inside `uploads/`; and it leaves the file of every other
/// user as it was.
pub proof fn law_uploads_stay_in_uploads(w: World, owner_id: i32)
    ensures
        ({
            let after = upload_outcome(w, owner_id).1.disk;
            &&& forall|p: Seq<char>| #[trigger] w.disk.contains_key(p) ==> after.contains_key(p)
            &&& forall|p: Seq<char>|
                #[trigger] after.contains_key(p) && (!w.disk.contains_key(p) || after[p] != w.disk[p])
                    ==> exists|x: Seq<char>| is_plain_name_of(x) && p == upload_path_of(x)
            &&& forall|k: int|
                0 <= k < w.tables.files.len() && (#[trigger] w.tables.files[k]).owner_id != owner_id
                    ==> after.contains_key(w.tables.files[k].disk_path) == w.disk.contains_key(
                    w.tables.files[k].disk_path,
                ) && (w.disk.contains_key(w.tables.files[k].disk_path)
                    ==> after[w.tables.files[k].disk_path] == w.disk[w.tables.files[k].disk_path])
        }),
    decreases w.parts.len(),
{
    let after = upload_outcome(w, owner_id).1.disk;
    if w.parts.len() == 0 {
        assert(after == w.disk);
    } else {
        let part = w.parts[0];
        let rest = World { parts: w.parts.drop_first(), ..w };
        let name = upload_name_of(part.file_name);
        let path = upload_path_of(name);
        if part.data.len() == 0 {
            law_uploads_stay_in_uploads(rest, owner_id);
            assert(after == upload_outcome(rest, owner_id).1.disk);
            assert(rest.disk == w.disk && rest.tables == w.tables);
        } else if part_stored(rest, owner_id, name, path) {
            let written = World { disk: rest.disk.insert(path, part.data), ..rest };
            let next = with_tables(written, add_file(written.tables, owner_id, name, path));
            law_uploads_stay_in_uploads(next, owner_id);
            assert(after == upload_outcome(next, owner_id).1.disk);
            assert forall|p: Seq<char>| #[trigger] w.disk.contains_key(p) implies after.contains_key(
                p,
            ) by {
                assert(next.disk.contains_key(p));
            }
            assert forall|p: Seq<char>|
                #[trigger] after.contains_key(p) && (!w.disk.contains_key(p) || after[p]
                    != w.disk[p]) implies exists|x: Seq<char>|
                is_plain_name_of(x) && p == upload_path_of(x) by {
                if p == path {
                    assert(is_plain_name_of(name) && p == upload_path_of(name));
                } else {
                    assert(next.disk.contains_key(p) == w.disk.contains_key(p));
                    if w.disk.contains_key(p) {
                        assert(next.disk[p] == w.disk[p]);
                    }
                }
            }
            assert forall|k: int|
                0 <= k < w.tables.files.len() && (#[trigger] w.tables.files[k]).owner_id
                    != owner_id implies after.contains_key(w.tables.files[k].disk_path)
                == w.disk.contains_key(w.tables.files[k].disk_path) && (w.disk.contains_key(
                w.tables.files[k].disk_path,
            ) ==> after[w.tables.files[k].disk_path] == w.disk[w.tables.files[k].disk_path]) by {
                let q = w.tables.files[k].disk_path;
                assert(rest.tables.files[k] == w.tables.files[k]);
                assert(q != path);
                assert(next.tables.files[k] == w.tables.files[k]);
                assert(next.disk.contains_key(q) == w.disk.contains_key(q));
                if w.disk.contains_key(q) {
                    assert(next.disk[q] == w.disk[q]);
                }
            }
        } else {
            assert(after == rest.disk);
        }
    }
}

/// A later part with the same name replaces the bytes of an earlier one:
/// an upload of two parts under one name stores both rows, at one path,
/// which holds the second part's bytes.
pub proof fn law_later_part_wins(w: World, owner_id: i32, name: Seq<char>, first: Seq<u8>, second: Seq<u8>)
    requires
        w.parts == seq![
            crate::protocol::PartView { file_name: Some(name), data: first },
            crate::protocol::PartView { file_name: Some(name), data: second },
        ],
        first.len() > 0,
        second.len() > 0,
        is_plain_name_of(name),
        w.writable.contains(upload_path_of(name)),
        !path_of_other_owner(w.tables, upload_path_of(name), owner_id),
    ensures
        ({
            let (reply, after) = upload_outcome(w, owner_id);
            let n = w.tables.files.len() as int;
            &&& reply == says(OK, Message::Uploaded)
            &&& after.disk[upload_path_of(name)] == second
            &&& after.tables.files.len() == n + 2
            &&& after.tables.files[n].disk_path == upload_path_of(name)
            &&& after.tables.files[n + 1].disk_path == upload_path_of(name)
            &&& after.tables.files.take(n) == w.tables.files
        }),
{
    let path = upload_path_of(name);
    let rest = World { parts: w.parts.drop_first(), ..w };
    let written = World { disk: rest.disk.insert(path, first), ..rest };
    let next = with_tables(written, add_file(written.tables, owner_id, name, path));
    assert(next.parts =~= seq![crate::protocol::PartView { file_name: Some(name), data: second }]);
    assert(next.parts[0].data == second);
    let n = w.tables.files.len() as int;
    assert(!path_of_other_owner(next.tables, path, owner_id)) by {
        if path_of_other_owner(next.tables, path, owner_id) {
            let i = choose|i: int|
                0 <= i < next.tables.files.len() && (#[trigger] next.tables.files[i]).disk_path == path
                    && next.tables.files[i].owner_id != owner_id;
            assert(i != n);
            assert(next.tables.files[i] == w.tables.files[i]);
        }
    }
    let rest2 = World { parts: next.parts.drop_first(), ..next };
    let written2 = World { disk: rest2.disk.insert(path, second), ..rest2 };
    let last = with_tables(written2, add_file(written2.tables, owner_id, name, path));
    assert(rest2.parts.len() == 0);
    assert(upload_outcome(last, owner_id) == (says(OK, Message::Uploaded), last));
    assert(upload_outcome(next, owner_id) == upload_outcome(last, owner_id));
    assert(upload_outcome(w, owner_id) == upload_outcome(next, owner_id));
    assert(last.tables.files.take(n) =~= w.tables.files);
}

/// Which names an upload stores: a part with bytes is refused with 400,
/// and nothing is written or recorded, exactly when its name is `..` or
/// holds a `/`; any other name (one with spaces, say) is written to
/// `uploads/<name>` and recorded as a private file of the uploader.
pub proof fn law_upload_name_rule(w: World, owner_id: i32, name: Seq<char>, data: Seq<u8>)
    requires
        w.parts == seq![crate::protocol::PartView { file_name: Some(name), data }],
        data.len() > 0,
        w.writable.contains(upload_path_of(name)),
        !path_of_other_owner(w.tables, upload_path_of(name), owner_id),
    ensures
        ({
            let (reply, after) = upload_outcome(w, owner_id);
            let path = upload_path_of(name);
            let refused = name == seq!['.', '.'] || name.contains('/');
            &&& refused ==> reply == says(BAD_REQUEST, Message::InvalidFileName)
                && after.disk == w.disk && after.tables == w.tables
            &&& !refused ==> reply == says(OK, Message::Uploaded) && after.disk == w.disk.insert(
                path,
                data,
            ) && after.tables == add_file(w.tables, owner_id, name, path)
                && after.tables.files.last() == new_file(w.tables, owner_id, name, path)
                && after.tables.files.last().visibility == private_visibility()
        }),
{
    let path = upload_path_of(name);
    let rest = World { parts: w.parts.drop_first(), ..w };
    assert(rest.parts.len() == 0);
    assert(w.parts[0].data == data);
    assert(is_plain_name_of(name) == !(name == seq!['.', '.'] || name.contains('/')));
    if is_plain_name_of(name) {
        let written = World { disk: rest.disk.insert(path, data), ..rest };
        let next = with_tables(written, add_file(written.tables, owner_id, name, path));
        assert(next.parts.len() == 0);
        assert(upload_outcome(next, owner_id) == (says(OK, Message::Uploaded), next));
    }
}

/// With unique ids, the owner's revoking ends another user's access to a
/// private file at once: that user's next download gets 403.
pub proof fn law_revoke_ends_access(
    w: World,
    owner_authorization: Option<Seq<char>>,
    file_id: i32,
    target: Seq<char>,
    target_authorization: Option<Seq<char>>,
    target_query_token: Option<Seq<char>>,
)
    requires
        well_formed(w.tables),
        signed_in(w, bearer_of_header(owner_authorization)) matches Some(owner) && has_user(
            w.tables,
            owner,
        ) && owns(w.tables, file_id, user_named(w.tables, owner).id) && owner != target,
        has_user(w.tables, target),
        signed_in(w, presented_token(target_authorization, target_query_token)) == Some(target),
        file_with_id(w.tables, file_id).visibility == private_visibility(),
    ensures
        serve(
            w,
            RequestView::Revoke { authorization: owner_authorization, file_id, target_username: target },
            5,
        ) matches Some((reply, revoked)) && reply == says(OK, Message::Revoked) && serve(
            revoked,
            RequestView::Download {
                authorization: target_authorization,
                query_token: target_query_token,
                file_id,
            },
            5,
        ) == Some((says(FORBIDDEN, Message::AccessDenied), revoked)),
{
    law_revoked_file_cannot_be_downloaded(
        w,
        owner_authorization,
        file_id,
        target,
        target_authorization,
        target_query_token,
    );
    let t = w.tables;
    let owner = signed_in(w, bearer_of_header(owner_authorization)).unwrap();
    let u = user_named(t, owner).id;
    let k = choose|k: int| 0 <= k < t.files.len() && (#[trigger] t.files[k]).id == file_id
        && t.files[k].owner_id == u;
    assert(has_file(t, file_id));
    let j = choose|j: int| 0 <= j < t.files.len() && (#[trigger] t.files[j]).id == file_id;
    assert(j == k);
    let a = choose|a: int| 0 <= a < t.users.len() && (#[trigger] t.users[a]).username == owner;
    let b = choose|b: int| 0 <= b < t.users.len() && (#[trigger] t.users[b]).username == target;
    assert(a != b);
    assert(user_named(t, target).id != u);
    assert(private_visibility() != public_visibility()) by {
        assert(private_visibility()[1] != public_visibility()[1]);
    }
}

/// With unique file ids, every file that a user's listing shows is sent to
/// them when they download it with the same token.
pub proof fn law_listed_file_downloads(
    w: World,
    authorization: Option<Seq<char>>,
    i: int,
)
    requires
        well_formed(w.tables),
        signed_in(w, bearer_of_header(authorization)) matches Some(name) && has_user(w.tables, name)
            && 0 <= i < accessible_files(w.tables, user_named(w.tables, name).id).len(),
    ensures
        serve(w, RequestView::List { authorization }, 3) matches Some((reply, after))
            && reply.body matches BodyView::Files(listed) && after == w && serve(
            w,
            RequestView::Download { authorization, query_token: None, file_id: listed[i].id },
            5,
        ) == sent(w, listed[i]),
{
    let t = w.tables;
    let name = signed_in(w, bearer_of_header(authorization)).unwrap();
    let u = user_named(t, name).id;
    let listed = accessible_files(t, u);
    law_list(w, authorization, 3);
    law_listed_files_can_be_downloaded(t, u, i);
    let pred = |f: FileView| f.owner_id == u || t.grants.contains((f.id, u));
    assert(listed.contains(listed[i]));
    t.files.lemma_filter_contains_rev(pred, listed[i]);
    let k = choose|k: int| 0 <= k < t.files.len() && t.files[k] == listed[i];
    assert(t.files[k].id == listed[i].id);
    assert(has_file(t, listed[i].id));
    let j = choose|j: int| 0 <= j < t.files.len() && (#[trigger] t.files[j]).id == listed[i].id;
    assert(j == k);
    law_download(w, authorization, None, listed[i].id, 5);
}

/// A file just uploaded, on its own, under a name that stays inside
/// `uploads/` and where no other user's file is kept, is sent back to its
/// uploader under that name, and is private: the public link refuses it.
pub proof fn law_uploaded_file_downloads(
    w: World,
    authorization: Option<Seq<char>>,
    file_name: Option<Seq<char>>,
    data: Seq<u8>,
)
    requires
        well_formed(w.tables),
        w.parts == seq![crate::protocol::PartView { file_name, data }],
        data.len() > 0,
        is_plain_name_of(upload_name_of(file_name)),
        w.writable.contains(upload_path_of(upload_name_of(file_name))),
        signed_in(w, bearer_of_header(authorization)) matches Some(name) && has_user(w.tables, name)
            && !path_of_other_owner(
            w.tables,
            upload_path_of(upload_name_of(file_name)),
            user_named(w.tables, name).id,
        ),
    ensures
        serve(w, RequestView::Upload { authorization }, 7) matches Some((reply, after))
            && reply == says(OK, Message::Uploaded) && serve(
            after,
            RequestView::Download {
                authorization,
                query_token: None,
                file_id: w.tables.next_file_id,
            },
            5,
        ) == Some(
            (
                ReplyView {
                    status: OK,
                    body: BodyView::Attachment { name: upload_name_of(file_name), data },
                },
                after,
            ),
        ) && serve(after, RequestView::DownloadPublic { file_id: w.tables.next_file_id }, 2)
            == Some((says(FORBIDDEN, Message::FilePrivate), after)),
{
    let t = w.tables;
    let name = signed_in(w, bearer_of_header(authorization)).unwrap();
    let u = user_named(t, name).id;
    law_upload(w, authorization, 7);
    let fname = upload_name_of(file_name);
    let path = upload_path_of(fname);
    let rest = World { parts: w.parts.drop_first(), ..w };
    let written = World { disk: rest.disk.insert(path, data), ..rest };
    let t2 = add_file(written.tables, u, fname, path);
    let after = with_tables(written, t2);
    assert(rest.parts.len() == 0);
    assert(upload_outcome(after, u) == (says(OK, Message::Uploaded), after));
    assert(upload_outcome(w, u) == upload_outcome(after, u));
    let id = t.next_file_id;
    let n = t.files.len() as int;
    assert(t2.files[n].id == id);
    assert(has_file(t2, id));
    let j = choose|j: int| 0 <= j < t2.files.len() && (#[trigger] t2.files[j]).id == id;
    if j < n {
        assert(t2.files[j] == t.files[j]);
    }
    assert(j == n);
    assert(file_by_id(t2, id) == Some(new_file(t, u, fname, path)));
    assert(t2.users == t.users);
    law_download(after, authorization, None, id, 5);
    law_download_public(after, id, 2);
    assert(private_visibility() != public_visibility()) by {
        assert(private_visibility()[1] != public_visibility()[1]);
    }
}

/// More operations allowed change nothing about a run that already ends.
pub proof fn lemma_drive_more_fuel(w: World, flow: FlowView, step: StepView, n: nat, m: nat)
    requires
        n <= m,
        drive(w, flow, step, n) is Some,
    ensures
        drive(w, flow, step, m) == drive(w, flow, step, n),
    decreases n,
{
    if let StepView::Ask(q) = step {
        if let Some((answer, w2)) = respond(w, q) {
            let (flow2, step2) = resume_spec(flow, answer);
            lemma_drive_more_fuel(w2, flow2, step2, (n - 1) as nat, (m - 1) as nat);
        }
    }
}

/// Room for the ids that a request may give out: one more user, and one
/// more file per upload part still to be read.
pub open spec fn has_room(w: World) -> bool {
    &&& w.tables.next_user_id < i32::MAX - 1
    &&& w.tables.next_file_id + w.parts.len() < i32::MAX
}

proof fn lemma_upload_keeps_well_formed(w: World, owner_id: i32)
    requires
        well_formed(w.tables),
        w.tables.next_file_id + w.parts.len() < i32::MAX,
    ensures
        well_formed(upload_outcome(w, owner_id).1.tables),
    decreases w.parts.len(),
{
    if w.parts.len() > 0 {
        let part = w.parts[0];
        let rest = World { parts: w.parts.drop_first(), ..w };
        let name = upload_name_of(part.file_name);
        let path = upload_path_of(name);
        if part.data.len() == 0 {
            lemma_upload_keeps_well_formed(rest, owner_id);
        } else if part_stored(rest, owner_id, name, path) {
            let written = World { disk: rest.disk.insert(path, part.data), ..rest };
            let t = written.tables;
            let t2 = add_file(t, owner_id, name, path);
            let next = with_tables(written, t2);
            assert forall|g: (i32, i32)| #[trigger] t2.grants.contains(g) implies has_file(t2, g.0)
                && has_user_id(t2, g.1) by {
                let i = choose|i: int| 0 <= i < t.files.len() && (#[trigger] t.files[i]).id == g.0;
                assert(t2.files[i] == t.files[i]);
                assert(t2.users == t.users);
                let j = choose|j: int| 0 <= j < t.users.len() && (#[trigger] t.users[j]).id == g.1;
                assert(t2.users[j].id == g.1);
            }
            assert(well_formed(t2));
            lemma_upload_keeps_well_formed(next, owner_id);
        }
    }
}

/// The outcome of a request, given as many operations as it can need.
pub open spec fn outcome(w: World, req: RequestView) -> Option<(ReplyView, World)> {
    serve(w, req, 4 * w.parts.len() + 5)
}

/// Every request that gets a reply, whatever operations it was allowed,
/// got the reply that `outcome` gives.
pub proof fn law_serve_is_outcome(w: World, req: RequestView, fuel: nat)
    requires
        serve(w, req, fuel) is Some,
    ensures
        serve(w, req, fuel) == outcome(w, req),
{
    let k = 4 * w.parts.len() + 5;
    let (flow, step) = start_spec(req);
    if fuel <= k {
        lemma_drive_more_fuel(w, flow, step, fuel, k);
    } else {
        reveal_with_fuel(drive, 6);
        match req {
            RequestView::Register { username, password_hash } => {
                law_register(w, username, password_hash, k);
                law_register(w, username, password_hash, fuel);
            },
            RequestView::Login { username, password, now } => {
                law_login(w, username, password, now, k);
                law_login(w, username, password, now, fuel);
            },
            RequestView::Refresh { authorization, now } => {
                law_refresh(w, authorization, now, k);
                law_refresh(w, authorization, now, fuel);
            },
            RequestView::Upload { authorization } => {
                law_upload(w, authorization, k);
                law_upload(w, authorization, fuel);
            },
            RequestView::List { authorization } => {
                law_list(w, authorization, k);
                law_list(w, authorization, fuel);
            },
            RequestView::Share { authorization, file_id, target_username } => {
                law_share(w, authorization, file_id, target_username, k);
                law_share(w, authorization, file_id, target_username, fuel);
            },
            RequestView::Revoke { authorization, file_id, target_username } => {
                law_revoke(w, authorization, file_id, target_username, k);
                law_revoke(w, authorization, file_id, target_username, fuel);
            },
            RequestView::MakePublic { authorization, file_id } => {
                law_make_public(w, authorization, file_id, k);
                law_make_public(w, authorization, file_id, fuel);
            },
            RequestView::Download { authorization, query_token, file_id } => {
                law_download(w, authorization, query_token, file_id, k);
                law_download(w, authorization, query_token, file_id, fuel);
            },
            RequestView::DownloadPublic { file_id } => {
                law_download_public(w, file_id, k);
                law_download_public(w, file_id, fuel);
            },
        }
    }
}

/// Every request keeps the tables' constraints: names and ids stay unique,
/// and every access grant keeps naming an existing file and user. This
/// holds as long as there is room for the ids the request may give out.
pub proof fn law_requests_keep_tables_well_formed(w: World, req: RequestView, fuel: nat)
    requires
        well_formed(w.tables),
        has_room(w),
    ensures
        serve(w, req, fuel) matches Some((_, after)) ==> well_formed(after.tables),
{
    let k = 4 * w.parts.len() + 5;
    let t = w.tables;
    if serve(w, req, fuel) is Some {
        law_serve_is_outcome(w, req, fuel);
        match req {
            RequestView::Register { username, password_hash } => {
                law_register(w, username, password_hash, k);
                if !has_user(t, username) {
                    let t2 = add_user(t, username, password_hash);
                    let n = t.users.len() as int;
                    assert forall|g: (i32, i32)| #[trigger] t2.grants.contains(g) implies has_file(
                        t2,
                        g.0,
                    ) && has_user_id(t2, g.1) by {
                        let i = choose|i: int| 0 <= i < t.users.len() && (#[trigger] t.users[i]).id == g.1;
                        assert(t2.users[i] == t.users[i]);
                        assert(t2.files == t.files);
                        let j = choose|j: int| 0 <= j < t.files.len() && (#[trigger] t.files[j]).id == g.0;
                        assert(t2.files[j].id == g.0);
                    }
                    assert forall|i: int, j: int|
                        0 <= i < t2.users.len() && 0 <= j < t2.users.len() && i != j
                            implies #[trigger] t2.users[i].username != #[trigger] t2.users[j].username by {
                        if i == n {
                            assert(t.users[j] == t2.users[j]);
                        } else if j == n {
                            assert(t.users[i] == t2.users[i]);
                        }
                    }
                    assert(well_formed(t2));
                }
            },
            RequestView::Login { username, password, now } => {
                law_login(w, username, password, now, k);
            },
            RequestView::Refresh { authorization, now } => {
                law_refresh(w, authorization, now, k);
            },
            RequestView::Upload { authorization } => {
                law_upload(w, authorization, k);
                if let Some(name) = signed_in(w, bearer_of_header(authorization)) {
                    if has_user(t, name) {
                        lemma_upload_keeps_well_formed(w, user_named(t, name).id);
                    }
                }
            },
            RequestView::List { authorization } => {
                law_list(w, authorization, k);
            },
            RequestView::Share { authorization, file_id, target_username } => {
                law_share(w, authorization, file_id, target_username, k);
                if let Some(name) = signed_in(w, bearer_of_header(authorization)) {
                    if has_user(t, name) && owns(t, file_id, user_named(t, name).id) {
                        if let Some(v) = user_id_of(t, target_username) {
                            let t2 = grant(t, file_id, v);
                            let i = choose|i: int|
                                0 <= i < t.files.len() && (#[trigger] t.files[i]).id == file_id
                                    && t.files[i].owner_id == user_named(t, name).id;
                            assert(t2.files[i].id == file_id);
                            let j = choose|j: int|
                                0 <= j < t.users.len() && (#[trigger] t.users[j]).username
                                    == target_username;
                            assert(t2.users[j].id == v);
                            assert(has_file(t2, file_id) && has_user_id(t2, v));
                            assert(well_formed(t2));
                        }
                    }
                }
            },
            RequestView::Revoke { authorization, file_id, target_username } => {
                law_revoke(w, authorization, file_id, target_username, k);
                if let Some(name) = signed_in(w, bearer_of_header(authorization)) {
                    if has_user(t, name) && owns(t, file_id, user_named(t, name).id) {
                        if let Some(v) = user_id_of(t, target_username) {
                            let t2 = revoke(t, file_id, v);
                            assert forall|g: (i32, i32)| #[trigger] t2.grants.contains(g) implies has_file(
                                t2,
                                g.0,
                            ) && has_user_id(t2, g.1) by {
                                assert(t.grants.contains(g));
                                assert(t2.files == t.files && t2.users == t.users);
                            }
                            assert(well_formed(t2));
                        }
                    }
                }
            },
            RequestView::MakePublic { authorization, file_id } => {
                law_make_public(w, authorization, file_id, k);
                if let Some(name) = signed_in(w, bearer_of_header(authorization)) {
                    if has_user(t, name) && owns(t, file_id, user_named(t, name).id) {
                        let t2 = publish(t, file_id, user_named(t, name).id);
                        assert forall|i: int| 0 <= i < t2.files.len() implies (#[trigger] t2.files[i]).id
                            == t.files[i].id by {}
                        assert forall|g: (i32, i32)| #[trigger] t2.grants.contains(g) implies has_file(
                            t2,
                            g.0,
                        ) && has_user_id(t2, g.1) by {
                            assert(t.grants.contains(g));
                            let i = choose|i: int| 0 <= i < t.files.len() && (#[trigger] t.files[i]).id == g.0;
                            assert(t2.files[i].id == g.0);
                            assert(t2.users == t.users);
                        }
                        assert(well_formed(t2));
                    }
                }
            },
            RequestView::Download { authorization, query_token, file_id } => {
                law_download(w, authorization, query_token, file_id, k);
            },
            RequestView::DownloadPublic { file_id } => {
                law_download_public(w, file_id, k);
            },
        }
    }
}

/// Runs the requests one after another, each given as many operations as
/// it can need: the world after the last, or `None` if one of them gets no
/// reply.
pub open spec fn run_all(w: World, reqs: Seq<RequestView>) -> Option<World>
    decreases reqs.len(),
{
    if reqs.len() == 0 {
        Some(w)
    } else {
        match outcome(w, reqs[0]) {
            Some((_, w2)) => run_all(w2, reqs.drop_first()),
            None => None,
        }
    }
}

/// Whether the request asks to make the file public.
pub open spec fn publishes(req: RequestView, file_id: i32) -> bool {
    req matches RequestView::MakePublic { file_id: f, .. } && f == file_id
}

proof fn lemma_request_keeps_row(w: World, req: RequestView, k: int)
    requires
        0 <= k < w.tables.files.len(),
        outcome(w, req) is Some,
        !publishes(req, w.tables.files[k].id),
    ensures
        ({
            let after = outcome(w, req).unwrap().1;
            after.tables.files.len() > k && after.tables.files[k] == w.tables.files[k]
        }),
{
    let fuel = 4 * w.parts.len() + 5;
    let t = w.tables;
    match req {
        RequestView::Register { username, password_hash } => {
            law_register(w, username, password_hash, fuel);
        },
        RequestView::Login { username, password, now } => {
            law_login(w, username, password, now, fuel);
        },
        RequestView::Refresh { authorization, now } => {
            law_refresh(w, authorization, now, fuel);
        },
        RequestView::Upload { authorization } => {
            law_upload(w, authorization, fuel);
            if let Some(name) = signed_in(w, bearer_of_header(authorization)) {
                if has_user(t, name) {
                    let u = user_named(t, name).id;
                    law_uploads_are_private(w, u);
                    let files = upload_outcome(w, u).1.tables.files;
                    assert(files.take(t.files.len() as int)[k] == files[k]);
                }
            }
        },
        RequestView::List { authorization } => {
            law_list(w, authorization, fuel);
        },
        RequestView::Share { authorization, file_id, target_username } => {
            law_share(w, authorization, file_id, target_username, fuel);
        },
        RequestView::Revoke { authorization, file_id, target_username } => {
            law_revoke(w, authorization, file_id, target_username, fuel);
        },
        RequestView::MakePublic { authorization, file_id } => {
            law_make_public(w, authorization, file_id, fuel);
        },
        RequestView::Download { authorization, query_token, file_id } => {
            law_download(w, authorization, query_token, file_id, fuel);
        },
        RequestView::DownloadPublic { file_id } => {
            law_download_public(w, file_id, fuel);
        },
    }
}

/// A file stays as it is, private ones private, through any requests that
/// do not ask to make it public: its row keeps its place and contents, and
/// (while ids stay unique) the public link keeps refusing a private file.
pub proof fn law_stays_private_until_published(w: World, reqs: Seq<RequestView>, k: int)
    requires
        0 <= k < w.tables.files.len(),
        forall|j: int| 0 <= j < reqs.len() ==> !publishes(#[trigger] reqs[j], w.tables.files[k].id),
    ensures
        run_all(w, reqs) matches Some(after) ==> after.tables.files.len() > k
            && after.tables.files[k] == w.tables.files[k] && (well_formed(after.tables)
            && w.tables.files[k].visibility == private_visibility() ==> serve(
            after,
            RequestView::DownloadPublic { file_id: w.tables.files[k].id },
            2,
        ) == Some((says(FORBIDDEN, Message::FilePrivate), after))),
    decreases reqs.len(),
{
    if reqs.len() > 0 {
        if let Some((_, w2)) = outcome(w, reqs[0]) {
            assert(!publishes(reqs[0], w.tables.files[k].id));
            lemma_request_keeps_row(w, reqs[0], k);
            assert forall|j: int| 0 <= j < reqs.drop_first().len() implies !publishes(
                #[trigger] reqs.drop_first()[j],
                w2.tables.files[k].id,
            ) by {
                assert(reqs.drop_first()[j] == reqs[j + 1]);
            }
            law_stays_private_until_published(w2, reqs.drop_first(), k);
        }
    } else {
        let after = w;
        let t = after.tables;
        if well_formed(t) && t.files[k].visibility == private_visibility() {
            let id = t.files[k].id;
            law_download_public(after, id, 2);
            assert(has_file(t, id));
            let j = choose|j: int| 0 <= j < t.files.len() && (#[trigger] t.files[j]).id == id;
            assert(j == k);
            assert(private_visibility() != public_visibility()) by {
                assert(private_visibility()[1] != public_visibility()[1]);
            }
        }
    }
}

/// Whether every answer that the asked operation can give is one that the
/// flow waits for.
pub open spec fn well_asked(flow: FlowView, step: StepView) -> bool {
    step matches StepView::Ask(q) ==> forall|a: AnswerView| answer_fits(q, a) ==> awaits(flow, a)
}

/// The model answers each operation with the kind of answer it gives.
pub proof fn law_answers_fit(w: World, q: QueryView)
    ensures
        respond(w, q) matches Some((a, _)) ==> answer_fits(q, a),
{
}

/// Every endpoint asks, at its first step and at each step after an answer
/// it waits for, only for an operation whose answers it waits for: a
/// server that answers each operation with the right kind of answer never
/// hands a flow an answer it does not accept.
pub proof fn law_flows_ask_well(req: RequestView, flow: FlowView, answer: AnswerView)
    ensures
        well_asked(start_spec(req).0, start_spec(req).1),
        awaits(flow, answer) ==> well_asked(resume_spec(flow, answer).0, resume_spec(flow, answer).1),
{
}

} // verus!
