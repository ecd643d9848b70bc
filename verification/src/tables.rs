//! A model of what the endpoints' operations read and write: the three
//! tables (`users`, `files`, `file_permissions`), the files on disk, the
//! token signer, and the parts of an upload in progress. `respond` says
//! what each `Query` answers and changes; `serve` runs an endpoint against
//! the model from its first step to its reply.
use vstd::prelude::*;
use crate::models::{UserView, FileView, ClaimsView, public_visibility, private_visibility};
use crate::protocol::{QueryView, AnswerView, StepView, FlowView, RequestView, ReplyView, PartView};
use crate::endpoints::{start_spec, resume_spec};

verus! {

/// A stored user.
pub struct UserRow {
    pub id: i32,
    pub username: Seq<char>,
    pub password_hash: Seq<char>,
}

/// The three tables. Rows are kept in insertion order; ids are given out
/// in increasing order and never reused.
pub struct Tables {
    pub users: Seq<UserRow>,
    pub files: Seq<FileView>,
    /// `(file_id, user_id)`: the user was given access to the file.
    pub grants: Set<(i32, i32)>,
    pub next_user_id: i32,
    pub next_file_id: i32,
}

/// Everything outside the endpoints that their operations touch.
pub struct World {
    pub tables: Tables,
    /// The files on disk, by path.
    pub disk: Map<Seq<char>, Seq<u8>>,
    /// The paths that can be written.
    pub writable: Set<Seq<char>>,
    /// The subject that a token carries when its signature checks out
    /// (and, when asked, it has not expired): `decode(token, check_expiry)`.
    pub decode: spec_fn(Seq<char>, bool) -> Option<Seq<char>>,
    /// The token that is signed with the given claims.
    pub sign: spec_fn(ClaimsView) -> Seq<char>,
    /// The parts of the upload that are still to be read.
    pub parts: Seq<PartView>,
}

/// Whether a user with this id exists.
pub open spec fn has_user_id(t: Tables, id: i32) -> bool {
    exists|i: int| 0 <= i < t.users.len() && (#[trigger] t.users[i]).id == id
}

/// The tables' constraints: user names, user ids and file ids are unique,
/// every id is below the next one to be given out, and every access grant
/// names an existing file and an existing user.
pub open spec fn well_formed(t: Tables) -> bool {
    &&& forall|i: int, j: int|
        0 <= i < t.users.len() && 0 <= j < t.users.len() && i != j ==> #[trigger] t.users[i].username
            != #[trigger] t.users[j].username
    &&& forall|i: int, j: int|
        0 <= i < t.users.len() && 0 <= j < t.users.len() && i != j ==> #[trigger] t.users[i].id
            != #[trigger] t.users[j].id
    &&& forall|g: (i32, i32)| #[trigger] t.grants.contains(g) ==> has_file(t, g.0) && has_user_id(t, g.1)
    &&& forall|i: int, j: int|
        0 <= i < t.files.len() && 0 <= j < t.files.len() && i != j ==> #[trigger] t.files[i].id
            != #[trigger] t.files[j].id
    &&& forall|i: int| 0 <= i < t.users.len() ==> #[trigger] t.users[i].id < t.next_user_id
    &&& forall|i: int| 0 <= i < t.files.len() ==> #[trigger] t.files[i].id < t.next_file_id
    &&& t.next_user_id < i32::MAX
    &&& t.next_file_id < i32::MAX
}

pub open spec fn has_user(t: Tables, name: Seq<char>) -> bool {
    exists|i: int| 0 <= i < t.users.len() && (#[trigger] t.users[i]).username == name
}

/// The row of the user with this name (meaningful when `has_user`).
pub open spec fn user_named(t: Tables, name: Seq<char>) -> UserRow {
    t.users[choose|i: int| 0 <= i < t.users.len() && (#[trigger] t.users[i]).username == name]
}

/// The id of the user with this name, if there is one.
pub open spec fn user_id_of(t: Tables, name: Seq<char>) -> Option<i32> {
    if has_user(t, name) {
        Some(user_named(t, name).id)
    } else {
        None
    }
}

pub open spec fn has_file(t: Tables, id: i32) -> bool {
    exists|i: int| 0 <= i < t.files.len() && (#[trigger] t.files[i]).id == id
}

/// The row of the file with this id (meaningful when `has_file`).
pub open spec fn file_with_id(t: Tables, id: i32) -> FileView {
    t.files[choose|i: int| 0 <= i < t.files.len() && (#[trigger] t.files[i]).id == id]
}

/// The file with this id, if there is one.
pub open spec fn file_by_id(t: Tables, id: i32) -> Option<FileView> {
    if has_file(t, id) {
        Some(file_with_id(t, id))
    } else {
        None
    }
}

/// Whether the file exists and belongs to the user.
pub open spec fn owns(t: Tables, file_id: i32, user_id: i32) -> bool {
    exists|i: int|
        0 <= i < t.files.len() && (#[trigger] t.files[i]).id == file_id && t.files[i].owner_id
            == user_id
}

/// Who may download a file: its owner, anyone once it is public, and the
/// users it was shared with.
pub open spec fn may_download(t: Tables, user_id: i32, file: FileView) -> bool {
    ||| file.owner_id == user_id
    ||| file.visibility == public_visibility()
    ||| t.grants.contains((file.id, user_id))
}

/// The files that a user may see in the listing: those they own and those
/// shared with them, in table order.
pub open spec fn accessible_files(t: Tables, user_id: i32) -> Seq<FileView> {
    t.files.filter(|f: FileView| f.owner_id == user_id || t.grants.contains((f.id, user_id)))
}

/// The file row after a successful make-public.
pub open spec fn published(f: FileView) -> FileView {
    FileView {
        id: f.id,
        owner_id: f.owner_id,
        name: f.name,
        disk_path: f.disk_path,
        visibility: public_visibility(),
    }
}

/// The tables after storing a new user, who gets the next user id.
pub open spec fn add_user(t: Tables, username: Seq<char>, password_hash: Seq<char>) -> Tables {
    Tables {
        users: t.users.push(UserRow { id: t.next_user_id, username, password_hash }),
        next_user_id: (t.next_user_id + 1) as i32,
        ..t
    }
}

/// The tables after giving the user access to the file.
pub open spec fn grant(t: Tables, file_id: i32, user_id: i32) -> Tables {
    Tables { grants: t.grants.insert((file_id, user_id)), ..t }
}

/// The tables after taking the user's access to the file away.
pub open spec fn revoke(t: Tables, file_id: i32, user_id: i32) -> Tables {
    Tables { grants: t.grants.remove((file_id, user_id)), ..t }
}

/// The tables after making the owner's file public.
pub open spec fn publish(t: Tables, file_id: i32, owner_id: i32) -> Tables {
    Tables {
        files: t.files.map_values(
            |f: FileView|
                if f.id == file_id && f.owner_id == owner_id {
                    published(f)
                } else {
                    f
                },
        ),
        ..t
    }
}

/// The row of a newly uploaded file: private, with the next file id.
pub open spec fn new_file(t: Tables, owner_id: i32, name: Seq<char>, disk_path: Seq<char>) -> FileView {
    FileView { id: t.next_file_id, owner_id, name, disk_path, visibility: private_visibility() }
}

/// The tables after storing a newly uploaded file.
pub open spec fn add_file(t: Tables, owner_id: i32, name: Seq<char>, disk_path: Seq<char>) -> Tables {
    Tables {
        files: t.files.push(new_file(t, owner_id, name, disk_path)),
        next_file_id: (t.next_file_id + 1) as i32,
        ..t
    }
}

/// Whether a file of a user other than `owner_id` is kept at the path.
pub open spec fn path_of_other_owner(t: Tables, path: Seq<char>, owner_id: i32) -> bool {
    exists|i: int|
        0 <= i < t.files.len() && (#[trigger] t.files[i]).disk_path == path && t.files[i].owner_id
            != owner_id
}

pub open spec fn with_tables(w: World, t: Tables) -> World {
    World { tables: t, ..w }
}

/// What each operation answers, and the world after it. `None` where the
/// server gives up: `UserIdOf` for a name that no user has.
pub open spec fn respond(w: World, q: QueryView) -> Option<(AnswerView, World)> {
    let t = w.tables;
    match q {
        QueryView::DecodeToken { token, check_expiry } => Some(
            (AnswerView::Subject((w.decode)(token, check_expiry)), w),
        ),
        QueryView::SignToken { claims } => Some((AnswerView::Token((w.sign)(claims)), w)),
        QueryView::FindUser { username } => Some(
            (
                AnswerView::User(
                    if has_user(t, username) {
                        let row = user_named(t, username);
                        Some(
                            UserView {
                                id: Some(row.id),
                                username: row.username,
                                password_hash: row.password_hash,
                            },
                        )
                    } else {
                        None
                    },
                ),
                w,
            ),
        ),
        QueryView::InsertUser { username, password_hash } => if has_user(t, username) {
            Some((AnswerView::Inserted(false), w))
        } else {
            Some((AnswerView::Inserted(true), with_tables(w, add_user(t, username, password_hash))))
        },
        QueryView::UserIdOf { username } => if has_user(t, username) {
            Some((AnswerView::UserId(user_named(t, username).id), w))
        } else {
            None
        },
        QueryView::LookupUserId { username } => Some(
            (AnswerView::MaybeUserId(user_id_of(t, username)), w),
        ),
        QueryView::OwnsFile { file_id, owner_id } => Some(
            (AnswerView::Exists(owns(t, file_id, owner_id)), w),
        ),
        QueryView::GrantAccess { file_id, user_id } => Some(
            (AnswerView::Done, with_tables(w, grant(t, file_id, user_id))),
        ),
        QueryView::RevokeAccess { file_id, user_id } => Some(
            (AnswerView::Done, with_tables(w, revoke(t, file_id, user_id))),
        ),
        QueryView::MakePublic { file_id, owner_id } => if owns(t, file_id, owner_id) {
            Some((AnswerView::Affected(1), with_tables(w, publish(t, file_id, owner_id))))
        } else {
            Some((AnswerView::Affected(0), w))
        },
        QueryView::FileById { file_id } => Some((AnswerView::File(file_by_id(t, file_id)), w)),
        QueryView::HasAccess { file_id, user_id } => Some(
            (AnswerView::Exists(t.grants.contains((file_id, user_id))), w),
        ),
        QueryView::AccessibleFiles { user_id } => Some(
            (AnswerView::Files(accessible_files(t, user_id)), w),
        ),
        QueryView::NextPart => if w.parts.len() == 0 {
            Some((AnswerView::Part(None), w))
        } else {
            Some((AnswerView::Part(Some(w.parts[0])), World { parts: w.parts.drop_first(), ..w }))
        },
        QueryView::OtherOwnersPath { path, owner_id } => Some(
            (AnswerView::Exists(path_of_other_owner(t, path, owner_id)), w),
        ),
        QueryView::WriteDisk { path, data } => if w.writable.contains(path) {
            Some((AnswerView::Saved(true), World { disk: w.disk.insert(path, data), ..w }))
        } else {
            Some((AnswerView::Saved(false), w))
        },
        QueryView::InsertFile { owner_id, name, disk_path } => Some(
            (AnswerView::Done, with_tables(w, add_file(t, owner_id, name, disk_path))),
        ),
        QueryView::ReadDisk { path } => Some(
            (
                AnswerView::Bytes(
                    if w.disk.contains_key(path) {
                        Some(w.disk[path])
                    } else {
                        None
                    },
                ),
                w,
            ),
        ),
    }
}

/// Runs a flow against the world for at most `fuel` operations: the reply
/// and the world after it, or `None` when the flow aborts, the server gives
/// up, or the fuel runs out.
pub open spec fn drive(w: World, flow: FlowView, step: StepView, fuel: nat) -> Option<(ReplyView, World)>
    decreases fuel,
{
    match step {
        StepView::Reply(r) => Some((r, w)),
        StepView::Abort => None,
        StepView::Ask(q) => if fuel == 0 {
            None
        } else {
            match respond(w, q) {
                None => None,
                Some((answer, w2)) => {
                    let (flow2, step2) = resume_spec(flow, answer);
                    drive(w2, flow2, step2, (fuel - 1) as nat)
                },
            }
        },
    }
}

/// Serves a request against the world, allowing up to `fuel` operations.
pub open spec fn serve(w: World, req: RequestView, fuel: nat) -> Option<(ReplyView, World)> {
    let (flow, step) = start_spec(req);
    drive(w, flow, step, fuel)
}

} // verus!
