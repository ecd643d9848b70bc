use std::collections::{HashMap, HashSet};

use file_share::endpoints::{accepts, registration, resume, start};
use file_share::endpoints::{login_user, refresh_token};
use file_share::models::{AuthRequest, Claims, FileRecord, User};
use file_share::password::hash_password;
use file_share::protocol::{Answer, Body, Message, Part, Query, Reply, Request, Step};
use file_share::sql::statement;

/// A server kept in memory, answering the endpoints' operations.
struct Server {
    users: Vec<User>,
    files: Vec<FileRecord>,
    grants: HashSet<(i32, i32)>,
    disk: HashMap<String, Vec<u8>>,
    unwritable: HashSet<String>,
    tokens: HashMap<String, String>,
    expired: HashSet<String>,
    parts: Vec<Part>,
    issued: Vec<Claims>,
}

impl Server {
    fn new() -> Self {
        Server {
            users: vec![],
            files: vec![],
            grants: HashSet::new(),
            disk: HashMap::new(),
            unwritable: HashSet::new(),
            tokens: HashMap::new(),
            expired: HashSet::new(),
            parts: vec![],
            issued: vec![],
        }
    }

    fn add_user(&mut self, name: &str, password: &str) -> i32 {
        let id = self.users.len() as i32 + 1;
        self.users.push(User {
            id: Some(id),
            username: name.to_string(),
            password_hash: hash_password(password).unwrap(),
        });
        self.tokens.insert(format!("tok-{}", name), name.to_string());
        id
    }

    fn add_file(&mut self, owner: i32, name: &str, data: &[u8]) -> i32 {
        let id = self.files.len() as i32 + 1;
        let path = format!("uploads/{}", name);
        self.files.push(FileRecord {
            id,
            owner_id: owner,
            name: name.to_string(),
            disk_path: path.clone(),
            visibility: "private".to_string(),
        });
        self.disk.insert(path, data.to_vec());
        id
    }

    fn id_of(&self, name: &str) -> Option<i32> {
        self.users.iter().find(|u| u.username == name).map(|u| u.id.unwrap())
    }

    fn answer(&mut self, q: Query) -> Answer {
        match q {
            Query::DecodeToken { token, check_expiry } => {
                if check_expiry && self.expired.contains(&token) {
                    Answer::Subject(None)
                } else {
                    Answer::Subject(self.tokens.get(&token).cloned())
                }
            }
            Query::SignToken { claims } => {
                let t = format!("new-{}", claims.sub);
                self.issued.push(claims);
                Answer::Token(t)
            }
            Query::FindUser { username } => {
                Answer::User(self.users.iter().find(|u| u.username == username).cloned())
            }
            Query::InsertUser { username, password_hash } => {
                if self.id_of(&username).is_some() {
                    Answer::Inserted(false)
                } else {
                    let id = self.users.len() as i32 + 1;
                    self.users.push(User { id: Some(id), username, password_hash });
                    Answer::Inserted(true)
                }
            }
            Query::UserIdOf { username } => Answer::UserId(self.id_of(&username).unwrap()),
            Query::LookupUserId { username } => Answer::MaybeUserId(self.id_of(&username)),
            Query::OwnsFile { file_id, owner_id } => Answer::Exists(
                self.files.iter().any(|f| f.id == file_id && f.owner_id == owner_id),
            ),
            Query::GrantAccess { file_id, user_id } => {
                self.grants.insert((file_id, user_id));
                Answer::Done
            }
            Query::RevokeAccess { file_id, user_id } => {
                self.grants.remove(&(file_id, user_id));
                Answer::Done
            }
            Query::MakePublic { file_id, owner_id } => {
                let mut n = 0;
                for f in self.files.iter_mut() {
                    if f.id == file_id && f.owner_id == owner_id {
                        f.visibility = "public".to_string();
                        n += 1;
                    }
                }
                Answer::Affected(n)
            }
            Query::FileById { file_id } => {
                Answer::File(self.files.iter().find(|f| f.id == file_id).cloned())
            }
            Query::HasAccess { file_id, user_id } => {
                Answer::Exists(self.grants.contains(&(file_id, user_id)))
            }
            Query::AccessibleFiles { user_id } => Answer::Files(
                self.files
                    .iter()
                    .filter(|f| f.owner_id == user_id || self.grants.contains(&(f.id, user_id)))
                    .cloned()
                    .collect(),
            ),
            Query::NextPart => {
                if self.parts.is_empty() {
                    Answer::Part(None)
                } else {
                    Answer::Part(Some(self.parts.remove(0)))
                }
            }
            Query::WriteDisk { path, data } => {
                if self.unwritable.contains(&path) {
                    Answer::Saved(false)
                } else {
                    self.disk.insert(path, data);
                    Answer::Saved(true)
                }
            }
            Query::OtherOwnersPath { path, owner_id } => Answer::Exists(
                self.files.iter().any(|f| f.disk_path == path && f.owner_id != owner_id),
            ),
            Query::InsertFile { owner_id, name, disk_path } => {
                let id = self.files.len() as i32 + 1;
                self.files.push(FileRecord {
                    id,
                    owner_id,
                    name,
                    disk_path,
                    visibility: "private".to_string(),
                });
                Answer::Done
            }
            Query::ReadDisk { path } => Answer::Bytes(self.disk.get(&path).cloned()),
        }
    }

    /// Runs a request to its end; `None` when it aborts.
    fn serve(&mut self, req: Request) -> Option<Reply> {
        self.run(start(req))
    }

    /// Runs a flow from its first step to its end; `None` when it aborts.
    fn run(&mut self, first: (file_share::protocol::Flow, Step)) -> Option<Reply> {
        let (mut flow, mut step) = first;
        loop {
            match step {
                Step::Reply(r) => return Some(r),
                Step::Abort => return None,
                Step::Ask(q) => {
                    let a = self.answer(q);
                    assert!(accepts(&flow, &a));
                    let next = resume(flow, a);
                    flow = next.0;
                    step = next.1;
                }
            }
        }
    }
}

const NOW: i64 = 1_700_000_000;

fn bearer(name: &str) -> Option<String> {
    Some(format!("Bearer tok-{}", name))
}

fn text(status: u16, m: Message) -> Option<Reply> {
    Some(Reply { status, body: Body::Text(m) })
}

fn download(s: &mut Server, who: &str, file_id: i32) -> Option<Reply> {
    s.serve(Request::Download { authorization: bearer(who), query_token: None, file_id })
}

fn attachment(name: &str, data: &[u8]) -> Option<Reply> {
    Some(Reply { status: 200, body: Body::Attachment { name: name.to_string(), data: data.to_vec() } })
}

#[test]
fn register_then_login() {
    let mut s = Server::new();
    let req = registration(AuthRequest { username: "alice".into(), password: "pw".into() }).unwrap();
    assert_eq!(s.serve(req), text(201, Message::UserRegistered));
    let again = registration(AuthRequest { username: "alice".into(), password: "other".into() }).unwrap();
    assert_eq!(s.serve(again), text(409, Message::UsernameTaken));
    let login = s.serve(Request::Login { username: "alice".into(), password: "pw".into(), now: NOW });
    match login {
        Some(Reply { status: 200, body: Body::Token(t) }) => assert_eq!(t.token, "new-alice"),
        other => panic!("unexpected {:?}", other),
    }
    assert_eq!(s.issued, vec![Claims { sub: "alice".into(), exp: 1_700_086_400 }]);
    assert_eq!(
        s.serve(Request::Login { username: "alice".into(), password: "wrong".into(), now: NOW }),
        text(401, Message::InvalidCredentials)
    );
    assert_eq!(
        s.serve(Request::Login { username: "nobody".into(), password: "pw".into(), now: NOW }),
        text(401, Message::InvalidCredentials)
    );
}

#[test]
fn login_with_malformed_stored_hash_aborts() {
    let mut s = Server::new();
    s.users.push(User { id: Some(1), username: "eve".into(), password_hash: "plain".into() });
    assert_eq!(
        s.serve(Request::Login { username: "eve".into(), password: "plain".into(), now: NOW }),
        None
    );
}

#[test]
fn refresh_accepts_expired_tokens() {
    let mut s = Server::new();
    s.add_user("alice", "pw");
    s.expired.insert("tok-alice".into());
    match s.serve(Request::Refresh { authorization: bearer("alice"), now: NOW + 5 }) {
        Some(Reply { status: 200, body: Body::Token(t) }) => assert_eq!(t.token, "new-alice"),
        other => panic!("unexpected {:?}", other),
    }
    assert_eq!(s.issued, vec![Claims { sub: "alice".into(), exp: 1_700_086_405 }]);
    assert_eq!(
        s.serve(Request::Refresh { authorization: None, now: NOW }),
        text(401, Message::MissingToken)
    );
    assert_eq!(
        s.serve(Request::Refresh { authorization: Some("Bearer forged".into()), now: NOW }),
        text(401, Message::InvalidSignature)
    );
    assert_eq!(
        s.serve(Request::List { authorization: bearer("alice") }),
        text(401, Message::InvalidToken)
    );
}

#[test]
fn protected_endpoints_need_a_token() {
    let mut s = Server::new();
    assert_eq!(s.serve(Request::List { authorization: None }), text(401, Message::InvalidToken));
    assert_eq!(
        s.serve(Request::Upload { authorization: Some("Basic x".into()) }),
        text(401, Message::InvalidToken)
    );
    assert_eq!(
        s.serve(Request::MakePublic { authorization: Some("Bearer bad".into()), file_id: 1 }),
        text(401, Message::InvalidToken)
    );
    assert_eq!(download(&mut s, "ghost", 1), text(401, Message::MissingOrInvalidToken));
    assert_eq!(
        s.serve(Request::Download { authorization: None, query_token: None, file_id: 1 }),
        text(401, Message::MissingOrInvalidToken)
    );
}

#[test]
fn share_revoke_and_download() {
    let mut s = Server::new();
    let alice = s.add_user("alice", "a");
    s.add_user("bob", "b");
    let f = s.add_file(alice, "notes.txt", b"hello");

    assert_eq!(download(&mut s, "alice", f), attachment("notes.txt", b"hello"));
    assert_eq!(download(&mut s, "bob", f), text(403, Message::AccessDenied));

    let share = |who: &str, target: &str| Request::Share {
        authorization: bearer(who),
        file_id: f,
        target_username: target.to_string(),
    };
    assert_eq!(s.serve(share("bob", "bob")), text(403, Message::NotOwnerOrMissing));
    assert_eq!(s.serve(share("alice", "carol")), text(404, Message::TargetNotFound));
    assert_eq!(s.serve(share("alice", "bob")), text(200, Message::Shared));
    assert_eq!(download(&mut s, "bob", f), attachment("notes.txt", b"hello"));
    assert_eq!(
        s.serve(Request::Download {
            authorization: None,
            query_token: Some("tok-bob".into()),
            file_id: f
        }),
        attachment("notes.txt", b"hello")
    );

    let revoke = |who: &str, target: &str| Request::Revoke {
        authorization: bearer(who),
        file_id: f,
        target_username: target.to_string(),
    };
    assert_eq!(s.serve(revoke("bob", "bob")), text(403, Message::OnlyOwnerRevokes));
    assert_eq!(s.serve(revoke("alice", "carol")), text(404, Message::UserNotFound));
    assert_eq!(s.serve(revoke("alice", "bob")), text(200, Message::Revoked));
    assert_eq!(download(&mut s, "bob", f), text(403, Message::AccessDenied));
    assert_eq!(download(&mut s, "bob", 99), text(404, Message::FileNotFound));
}

#[test]
fn make_public_and_public_download() {
    let mut s = Server::new();
    let alice = s.add_user("alice", "a");
    s.add_user("bob", "b");
    let f = s.add_file(alice, "pic.png", &[1, 2, 3]);

    assert_eq!(s.serve(Request::DownloadPublic { file_id: f }), text(403, Message::FilePrivate));
    assert_eq!(s.serve(Request::DownloadPublic { file_id: 7 }), text(404, Message::FileNotFound));
    assert_eq!(
        s.serve(Request::MakePublic { authorization: bearer("bob"), file_id: f }),
        text(403, Message::NotOwner)
    );
    assert_eq!(
        s.serve(Request::MakePublic { authorization: bearer("alice"), file_id: f }),
        text(200, Message::NowPublic)
    );
    assert_eq!(s.serve(Request::DownloadPublic { file_id: f }), attachment("pic.png", &[1, 2, 3]));
    assert_eq!(download(&mut s, "bob", f), attachment("pic.png", &[1, 2, 3]));
}

#[test]
fn missing_bytes_on_disk() {
    let mut s = Server::new();
    let alice = s.add_user("alice", "a");
    let f = s.add_file(alice, "gone", b"x");
    s.disk.clear();
    assert_eq!(download(&mut s, "alice", f), text(500, Message::ReadFailed));
}

#[test]
fn list_shows_owned_and_shared_files() {
    let mut s = Server::new();
    let alice = s.add_user("alice", "a");
    let bob = s.add_user("bob", "b");
    let a1 = s.add_file(alice, "a1", b"1");
    let _b1 = s.add_file(bob, "b1", b"2");
    let b2 = s.add_file(bob, "b2", b"3");
    s.grants.insert((b2, alice));
    match s.serve(Request::List { authorization: bearer("alice") }) {
        Some(Reply { status: 200, body: Body::Files(files) }) => {
            let ids: Vec<i32> = files.iter().map(|f| f.id).collect();
            assert_eq!(ids, vec![a1, b2]);
        }
        other => panic!("unexpected {:?}", other),
    }
}

#[test]
fn upload_stores_private_files() {
    let mut s = Server::new();
    let alice = s.add_user("alice", "a");
    s.parts = vec![
        Part { file_name: Some("a.txt".into()), data: b"aaa".to_vec() },
        Part { file_name: Some("empty.txt".into()), data: vec![] },
        Part { file_name: None, data: b"zzz".to_vec() },
    ];
    assert_eq!(s.serve(Request::Upload { authorization: bearer("alice") }), text(200, Message::Uploaded));
    assert_eq!(s.files.len(), 2);
    assert_eq!(s.files[0].name, "a.txt");
    assert_eq!(s.files[0].disk_path, "uploads/a.txt");
    assert_eq!(s.files[1].name, "unknown");
    assert_eq!(s.files[1].disk_path, "uploads/unknown");
    for f in &s.files {
        assert_eq!(f.owner_id, alice);
        assert_eq!(f.visibility, "private");
    }
    assert_eq!(s.disk.get("uploads/a.txt"), Some(&b"aaa".to_vec()));
}

#[test]
fn upload_stops_when_a_write_fails() {
    let mut s = Server::new();
    s.add_user("alice", "a");
    s.unwritable.insert("uploads/b.txt".into());
    s.parts = vec![
        Part { file_name: Some("a.txt".into()), data: b"a".to_vec() },
        Part { file_name: Some("b.txt".into()), data: b"b".to_vec() },
        Part { file_name: Some("c.txt".into()), data: b"c".to_vec() },
    ];
    assert_eq!(s.serve(Request::Upload { authorization: bearer("alice") }), text(500, Message::SaveFailed));
    assert_eq!(s.files.len(), 1);
    assert_eq!(s.parts.len(), 1);
}

#[test]
fn messages_and_statements() {
    assert_eq!(Message::UserRegistered.text(), "user registered successfully");
    assert_eq!(Message::NotOwnerOrMissing.text(), "you are not the owner or file not found");
    assert_eq!(Message::ReadFailed.text(), "failed to read file from disk");
    assert_eq!(
        statement(&Query::OwnsFile { file_id: 1, owner_id: 2 }),
        Some("SELECT 1 FROM files WHERE id = ? AND owner_id = ?")
    );
    assert_eq!(statement(&Query::NextPart), None);
}

#[test]
fn answers_of_the_wrong_kind_are_not_accepted() {
    let (flow, _) = start(Request::DownloadPublic { file_id: 1 });
    assert!(accepts(&flow, &Answer::File(None)));
    assert!(!accepts(&flow, &Answer::Done));
}

#[test]
fn login_and_refresh_entries_issue_tokens_for_now() {
    let mut s = Server::new();
    s.add_user("alice", "pw");
    let before = std::time::SystemTime::now()
        .duration_since(std::time::UNIX_EPOCH)
        .unwrap()
        .as_secs() as usize;
    let reply = s.run(login_user(AuthRequest { username: "alice".into(), password: "pw".into() }));
    assert!(matches!(reply, Some(Reply { status: 200, body: Body::Token(_) })));
    let reply = s.run(refresh_token(bearer("alice")));
    assert!(matches!(reply, Some(Reply { status: 200, body: Body::Token(_) })));
    assert_eq!(s.issued.len(), 2);
    for c in &s.issued {
        assert_eq!(c.sub, "alice");
        assert!(c.exp >= before + 86_400 && c.exp <= before + 86_400 + 5);
    }
}

#[test]
fn out_of_range_expiry_aborts() {
    let mut s = Server::new();
    s.add_user("alice", "pw");
    assert_eq!(
        s.serve(Request::Refresh { authorization: bearer("alice"), now: i64::MAX - 10 }),
        None
    );
}

#[test]
fn upload_refuses_names_that_leave_uploads() {
    for bad in ["../src/main.rs", "a/b", "..", "/etc/passwd"] {
        let mut s = Server::new();
        s.add_user("alice", "a");
        s.parts = vec![Part { file_name: Some(bad.to_string()), data: b"evil".to_vec() }];
        assert_eq!(
            s.serve(Request::Upload { authorization: bearer("alice") }),
            text(400, Message::InvalidFileName),
            "name {:?}",
            bad
        );
        assert!(s.disk.is_empty());
        assert!(s.files.is_empty());
    }
}

#[test]
fn upload_never_overwrites_another_users_file() {
    let mut s = Server::new();
    let alice = s.add_user("alice", "a");
    s.add_user("bob", "b");
    let f = s.add_file(alice, "notes.txt", b"alice's");
    s.parts = vec![Part { file_name: Some("notes.txt".into()), data: b"bob's".to_vec() }];
    assert_eq!(s.serve(Request::Upload { authorization: bearer("bob") }), text(409, Message::NameTaken));
    assert_eq!(download(&mut s, "alice", f), attachment("notes.txt", b"alice's"));
    assert_eq!(s.files.len(), 1);
}

#[test]
fn later_part_with_same_name_wins() {
    let mut s = Server::new();
    let alice = s.add_user("alice", "a");
    s.parts = vec![
        Part { file_name: Some("n.txt".into()), data: b"one".to_vec() },
        Part { file_name: Some("n.txt".into()), data: b"two".to_vec() },
    ];
    assert_eq!(s.serve(Request::Upload { authorization: bearer("alice") }), text(200, Message::Uploaded));
    assert_eq!(s.files.len(), 2);
    assert_eq!(s.disk.get("uploads/n.txt"), Some(&b"two".to_vec()));
    // re-uploading one's own file replaces it
    s.parts = vec![Part { file_name: Some("n.txt".into()), data: b"three".to_vec() }];
    assert_eq!(s.serve(Request::Upload { authorization: bearer("alice") }), text(200, Message::Uploaded));
    assert_eq!(download(&mut s, "alice", 1), attachment("n.txt", b"three"));
    assert!(s.files.iter().all(|f| f.owner_id == alice));
}

#[test]
fn names_with_dots_or_backslashes_stay_inside_uploads() {
    let mut s = Server::new();
    s.add_user("alice", "a");
    s.parts = vec![
        Part { file_name: Some("x\\y".into()), data: b"1".to_vec() },
        Part { file_name: Some("...".into()), data: b"2".to_vec() },
    ];
    assert_eq!(s.serve(Request::Upload { authorization: bearer("alice") }), text(200, Message::Uploaded));
    assert!(s.disk.contains_key("uploads/x\\y"));
    assert!(s.disk.contains_key("uploads/..."));
}
