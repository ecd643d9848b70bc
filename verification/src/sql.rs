//! The SQLite statements behind the table operations, and the schema they
//! run against. Each statement's text is the rendering of a small syntax
//! tree (`Stmt`), and `finds_row`, `selected_files` and `run` say what such a
//! tree reads and writes once its `?` placeholders are bound, in order, to
//! the operation's parameters (`params_of`). The laws at the end show that
//! this agrees with what `tables::respond` says of each operation.
use vstd::prelude::*;
use crate::protocol::{Query, QueryView, AnswerView};
use crate::models::{UserView, FileView, public_visibility, private_visibility};
use crate::tables::{
    Tables, UserRow, World, respond, with_tables, grant, revoke, accessible_files, owns, publish,
    published, add_file, has_user, user_named, has_file, file_with_id, well_formed,
};

verus! {

/// The `users` table: unique user names and their password hashes.
pub const CREATE_USERS: &'static str = "CREATE TABLE IF NOT EXISTS users (
            id INTEGER PRIMARY KEY AUTOINCREMENT,
            username TEXT NOT NULL UNIQUE,
            password_hash TEXT NOT NULL
        );";

/// The `files` table: each file's owner, name, place on disk and
/// visibility, private unless set otherwise.
pub const CREATE_FILES: &'static str = "CREATE TABLE IF NOT EXISTS files (
            id INTEGER PRIMARY KEY AUTOINCREMENT,
            owner_id INTEGER NOT NULL,
            name TEXT NOT NULL,
            disk_path TEXT NOT NULL,
            visibility TEXT DEFAULT 'private', 
            FOREIGN KEY (owner_id) REFERENCES users(id)
        );";

/// The `file_permissions` table: which users a file was shared with, each
/// pair at most once.
pub const CREATE_PERMISSIONS: &'static str = "CREATE TABLE IF NOT EXISTS file_permissions (
            id INTEGER PRIMARY KEY AUTOINCREMENT,
            file_id INTEGER NOT NULL,
            user_id INTEGER NOT NULL,
            UNIQUE(file_id, user_id),
            FOREIGN KEY (file_id) REFERENCES files(id),
            FOREIGN KEY (user_id) REFERENCES users(id)
        );";

/// The statement that performs a table operation; `None` for the
/// operations that do not touch the tables (tokens, disk, upload parts).
pub open spec fn statement_of(q: QueryView) -> Option<Seq<char>> {
    match q {
        QueryView::FindUser { .. } => Some("SELECT * FROM users WHERE username = ?"@),
        QueryView::InsertUser { .. } => Some("INSERT INTO users (username, password_hash) VALUES (?, ?)"@),
        QueryView::UserIdOf { .. } => Some("SELECT id FROM users WHERE username = ?"@),
        QueryView::LookupUserId { .. } => Some("SELECT id FROM users WHERE username = ?"@),
        QueryView::OwnsFile { .. } => Some("SELECT 1 FROM files WHERE id = ? AND owner_id = ?"@),
        QueryView::GrantAccess { .. } => Some("INSERT OR IGNORE INTO file_permissions (file_id, user_id) VALUES (?, ?)"@),
        QueryView::RevokeAccess { .. } => Some("DELETE FROM file_permissions WHERE file_id = ? AND user_id = ?"@),
        QueryView::MakePublic { .. } => Some("UPDATE files SET visibility = 'public' WHERE id = ? AND owner_id = ?"@),
        QueryView::FileById { .. } => Some("SELECT * FROM files WHERE id = ?"@),
        QueryView::HasAccess { .. } => Some("SELECT 1 FROM file_permissions WHERE file_id = ? AND user_id = ?"@),
        QueryView::AccessibleFiles { .. } => Some("SELECT * FROM files WHERE owner_id = ? OR id IN (SELECT file_id FROM file_permissions WHERE user_id = ?)"@),
        QueryView::OtherOwnersPath { .. } => Some("SELECT 1 FROM files WHERE disk_path = ? AND owner_id != ?"@),
        QueryView::InsertFile { .. } => Some("INSERT INTO files (owner_id, name, disk_path, visibility) VALUES (?, ?, ?, ?)"@),
        _ => None,
    }
}

/// The statement that performs a table operation, if it is one.
pub fn statement(q: &Query) -> (sql: Option<&'static str>)
    ensures
        match sql {
            Some(s) => statement_of(q@) == Some(s@),
            None => statement_of(q@) is None,
        },
{
    match q {
        Query::FindUser { .. } => Some("SELECT * FROM users WHERE username = ?"),
        Query::InsertUser { .. } => Some("INSERT INTO users (username, password_hash) VALUES (?, ?)"),
        Query::UserIdOf { .. } => Some("SELECT id FROM users WHERE username = ?"),
        Query::LookupUserId { .. } => Some("SELECT id FROM users WHERE username = ?"),
        Query::OwnsFile { .. } => Some("SELECT 1 FROM files WHERE id = ? AND owner_id = ?"),
        Query::GrantAccess { .. } => Some("INSERT OR IGNORE INTO file_permissions (file_id, user_id) VALUES (?, ?)"),
        Query::RevokeAccess { .. } => Some("DELETE FROM file_permissions WHERE file_id = ? AND user_id = ?"),
        Query::MakePublic { .. } => Some("UPDATE files SET visibility = 'public' WHERE id = ? AND owner_id = ?"),
        Query::FileById { .. } => Some("SELECT * FROM files WHERE id = ?"),
        Query::HasAccess { .. } => Some("SELECT 1 FROM file_permissions WHERE file_id = ? AND user_id = ?"),
        Query::AccessibleFiles { .. } => Some("SELECT * FROM files WHERE owner_id = ? OR id IN (SELECT file_id FROM file_permissions WHERE user_id = ?)"),
        Query::OtherOwnersPath { .. } => Some("SELECT 1 FROM files WHERE disk_path = ? AND owner_id != ?"),
        Query::InsertFile { .. } => Some("INSERT INTO files (owner_id, name, disk_path, visibility) VALUES (?, ?, ?, ?)"),
        _ => None,
    }
}

/// A table of the schema.
pub enum Table {
    Users,
    Files,
    FilePermissions,
}

/// A column of the schema.
pub enum Column {
    Id,
    Username,
    PasswordHash,
    OwnerId,
    Name,
    DiskPath,
    Visibility,
    FileId,
    UserId,
}

/// A table's name as statements write it.
pub open spec fn table_name(t: Table) -> Seq<char> {
    match t {
        Table::Users => "users"@,
        Table::Files => "files"@,
        Table::FilePermissions => "file_permissions"@,
    }
}

/// A column's name as statements write it.
pub open spec fn column_name(c: Column) -> Seq<char> {
    match c {
        Column::Id => "id"@,
        Column::Username => "username"@,
        Column::PasswordHash => "password_hash"@,
        Column::OwnerId => "owner_id"@,
        Column::Name => "name"@,
        Column::DiskPath => "disk_path"@,
        Column::Visibility => "visibility"@,
        Column::FileId => "file_id"@,
        Column::UserId => "user_id"@,
    }
}

/// A `WHERE` condition. Each `?` takes the next parameter, left to right.
pub enum Cond {
    /// `column = ?`
    Eq(Column),
    /// `column != ?`
    Ne(Column),
    And(Box<Cond>, Box<Cond>),
    Or(Box<Cond>, Box<Cond>),
    /// `column IN (SELECT selected FROM table WHERE condition)`
    In(Column, Column, Table, Box<Cond>),
}

/// What a `SELECT` returns of each row: the constant `1`, one column, or `*`.
pub enum Selection {
    One,
    Col(Column),
    All,
}

/// A statement.
pub enum Stmt {
    /// `SELECT selection FROM table WHERE condition`
    Select(Selection, Table, Cond),
    /// `INSERT [OR IGNORE] INTO table (columns) VALUES (?, ..)`
    Insert(bool, Table, Seq<Column>),
    /// `DELETE FROM table WHERE condition`
    Delete(Table, Cond),
    /// `UPDATE table SET column = 'text' WHERE condition`
    Update(Table, Column, Seq<char>, Cond),
}

/// The text of a condition.
pub open spec fn cond_text(c: Cond) -> Seq<char>
    decreases c,
{
    match c {
        Cond::Eq(col) => column_name(col) + " = ?"@,
        Cond::Ne(col) => column_name(col) + " != ?"@,
        Cond::And(a, b) => cond_text(*a) + " AND "@ + cond_text(*b),
        Cond::Or(a, b) => cond_text(*a) + " OR "@ + cond_text(*b),
        Cond::In(col, sel, table, f) => column_name(col) + " IN (SELECT "@ + column_name(sel)
            + " FROM "@ + table_name(table) + " WHERE "@ + cond_text(*f) + ")"@,
    }
}

/// The text of what a `SELECT` returns.
pub open spec fn selection_text(s: Selection) -> Seq<char> {
    match s {
        Selection::One => "1"@,
        Selection::Col(c) => column_name(c),
        Selection::All => "*"@,
    }
}

/// The column names, separated by `", "`.
pub open spec fn column_list(cols: Seq<Column>) -> Seq<char>
    decreases cols.len(),
{
    if cols.len() == 0 {
        Seq::empty()
    } else if cols.len() == 1 {
        column_name(cols[0])
    } else {
        column_name(cols[0]) + ", "@ + column_list(cols.drop_first())
    }
}

/// `n` placeholders, separated by `", "`.
pub open spec fn placeholders(n: nat) -> Seq<char>
    decreases n,
{
    if n == 0 {
        Seq::empty()
    } else if n == 1 {
        "?"@
    } else {
        "?, "@ + placeholders((n - 1) as nat)
    }
}

/// The text of a statement.
pub open spec fn stmt_text(s: Stmt) -> Seq<char> {
    match s {
        Stmt::Select(sel, t, c) => "SELECT "@ + selection_text(sel) + " FROM "@ + table_name(t)
            + " WHERE "@ + cond_text(c),
        Stmt::Insert(ignore, t, cols) => (if ignore {
            "INSERT OR IGNORE INTO "@
        } else {
            "INSERT INTO "@
        }) + table_name(t) + " ("@ + column_list(cols) + ") VALUES ("@ + placeholders(cols.len())
            + ")"@,
        Stmt::Delete(t, c) => "DELETE FROM "@ + table_name(t) + " WHERE "@ + cond_text(c),
        Stmt::Update(t, col, v, c) => "UPDATE "@ + table_name(t) + " SET "@ + column_name(col)
            + " = '"@ + v + "' WHERE "@ + cond_text(c),
    }
}

/// `a = ? AND b = ?`
pub open spec fn eq2(a: Column, b: Column) -> Cond {
    Cond::And(Box::new(Cond::Eq(a)), Box::new(Cond::Eq(b)))
}

/// `SELECT 1 FROM file_permissions WHERE file_id = ? AND user_id = ?`
pub open spec fn has_access_sql() -> Stmt {
    Stmt::Select(Selection::One, Table::FilePermissions, eq2(Column::FileId, Column::UserId))
}

/// `INSERT OR IGNORE INTO file_permissions (file_id, user_id) VALUES (?, ?)`
pub open spec fn grant_access_sql() -> Stmt {
    Stmt::Insert(true, Table::FilePermissions, seq![Column::FileId, Column::UserId])
}

/// `DELETE FROM file_permissions WHERE file_id = ? AND user_id = ?`
pub open spec fn revoke_access_sql() -> Stmt {
    Stmt::Delete(Table::FilePermissions, eq2(Column::FileId, Column::UserId))
}

/// `SELECT * FROM files WHERE owner_id = ? OR id IN (SELECT file_id FROM
/// file_permissions WHERE user_id = ?)`
pub open spec fn accessible_files_sql() -> Stmt {
    Stmt::Select(
        Selection::All,
        Table::Files,
        Cond::Or(
            Box::new(Cond::Eq(Column::OwnerId)),
            Box::new(
                Cond::In(
                    Column::Id,
                    Column::FileId,
                    Table::FilePermissions,
                    Box::new(Cond::Eq(Column::UserId)),
                ),
            ),
        ),
    )
}

/// `SELECT 1 FROM files WHERE id = ? AND owner_id = ?`
pub open spec fn owns_file_sql() -> Stmt {
    Stmt::Select(Selection::One, Table::Files, eq2(Column::Id, Column::OwnerId))
}

/// `SELECT 1 FROM files WHERE disk_path = ? AND owner_id != ?`
pub open spec fn other_owners_path_sql() -> Stmt {
    Stmt::Select(
        Selection::One,
        Table::Files,
        Cond::And(Box::new(Cond::Eq(Column::DiskPath)), Box::new(Cond::Ne(Column::OwnerId))),
    )
}

/// `UPDATE files SET visibility = 'public' WHERE id = ? AND owner_id = ?`
pub open spec fn make_public_sql() -> Stmt {
    Stmt::Update(Table::Files, Column::Visibility, "public"@, eq2(Column::Id, Column::OwnerId))
}

/// `INSERT INTO files (owner_id, name, disk_path, visibility) VALUES (?, ?, ?, ?)`
pub open spec fn insert_file_sql() -> Stmt {
    Stmt::Insert(
        false,
        Table::Files,
        seq![Column::OwnerId, Column::Name, Column::DiskPath, Column::Visibility],
    )
}

/// `SELECT * FROM files WHERE id = ?`
pub open spec fn file_by_id_sql() -> Stmt {
    Stmt::Select(Selection::All, Table::Files, Cond::Eq(Column::Id))
}

/// `SELECT * FROM users WHERE username = ?`
pub open spec fn find_user_sql() -> Stmt {
    Stmt::Select(Selection::All, Table::Users, Cond::Eq(Column::Username))
}

/// `SELECT id FROM users WHERE username = ?`
pub open spec fn user_id_sql() -> Stmt {
    Stmt::Select(Selection::Col(Column::Id), Table::Users, Cond::Eq(Column::Username))
}

/// `INSERT INTO users (username, password_hash) VALUES (?, ?)`
pub open spec fn insert_user_sql() -> Stmt {
    Stmt::Insert(false, Table::Users, seq![Column::Username, Column::PasswordHash])
}

/// A parameter or column value.
pub enum Value {
    Int(i32),
    Text(Seq<char>),
}

/// A row of one of the tables.
pub enum Row {
    User(UserRow),
    File(FileView),
    /// `(file_id, user_id)`
    Grant(i32, i32),
}

/// The value a row holds in a column, if the row's table has the column.
pub open spec fn field(r: Row, c: Column) -> Option<Value> {
    match r {
        Row::User(u) => match c {
            Column::Id => Some(Value::Int(u.id)),
            Column::Username => Some(Value::Text(u.username)),
            Column::PasswordHash => Some(Value::Text(u.password_hash)),
            _ => None,
        },
        Row::File(f) => match c {
            Column::Id => Some(Value::Int(f.id)),
            Column::OwnerId => Some(Value::Int(f.owner_id)),
            Column::Name => Some(Value::Text(f.name)),
            Column::DiskPath => Some(Value::Text(f.disk_path)),
            Column::Visibility => Some(Value::Text(f.visibility)),
            _ => None,
        },
        Row::Grant(file_id, user_id) => match c {
            Column::FileId => Some(Value::Int(file_id)),
            Column::UserId => Some(Value::Int(user_id)),
            _ => None,
        },
    }
}

/// Whether the row is in the table.
pub open spec fn in_table(t: Tables, table: Table, r: Row) -> bool {
    match (table, r) {
        (Table::Users, Row::User(u)) => t.users.contains(u),
        (Table::Files, Row::File(f)) => t.files.contains(f),
        (Table::FilePermissions, Row::Grant(file_id, user_id)) => t.grants.contains((file_id, user_id)),
        _ => false,
    }
}

/// How many `?` a condition holds.
pub open spec fn holes(c: Cond) -> nat
    decreases c,
{
    match c {
        Cond::Eq(_) => 1,
        Cond::Ne(_) => 1,
        Cond::And(a, b) => holes(*a) + holes(*b),
        Cond::Or(a, b) => holes(*a) + holes(*b),
        Cond::In(_, _, _, f) => holes(*f),
    }
}

/// Whether a row meets a condition whose first `?` is bound to
/// `params[at]`. A column the row lacks meets no comparison.
pub open spec fn holds(t: Tables, c: Cond, r: Row, params: Seq<Value>, at: int) -> bool
    decreases c,
{
    match c {
        Cond::Eq(col) => 0 <= at < params.len() && field(r, col) == Some(params[at]),
        Cond::Ne(col) => 0 <= at < params.len() && field(r, col) is Some && field(r, col) != Some(
            params[at],
        ),
        Cond::And(a, b) => holds(t, *a, r, params, at) && holds(t, *b, r, params, at + holes(*a)),
        Cond::Or(a, b) => holds(t, *a, r, params, at) || holds(t, *b, r, params, at + holes(*a)),
        Cond::In(col, sel, table, f) => field(r, col) is Some && exists|r2: Row|
            #[trigger] in_table(t, table, r2) && holds(t, *f, r2, params, at) && field(r2, sel)
                == field(r, col),
    }
}

/// Whether a `SELECT` finds a row.
pub open spec fn finds_row(t: Tables, s: Stmt, params: Seq<Value>) -> bool {
    match s {
        Stmt::Select(_, table, c) => exists|r: Row|
            #[trigger] in_table(t, table, r) && holds(t, c, r, params, 0),
        _ => false,
    }
}

/// Whether a `SELECT` returns the row.
pub open spec fn selects(t: Tables, s: Stmt, params: Seq<Value>, r: Row) -> bool {
    match s {
        Stmt::Select(_, table, c) => in_table(t, table, r) && holds(t, c, r, params, 0),
        _ => false,
    }
}

/// The rows of `files` that a `SELECT` on it returns, in table order.
pub open spec fn selected_files(t: Tables, s: Stmt, params: Seq<Value>) -> Seq<FileView> {
    match s {
        Stmt::Select(_, Table::Files, c) => t.files.filter(
            |f: FileView| holds(t, c, Row::File(f), params, 0),
        ),
        _ => Seq::empty(),
    }
}

/// The parameter that an `INSERT` binds to a column.
pub open spec fn value_of(cols: Seq<Column>, params: Seq<Value>, col: Column) -> Option<Value>
    decreases cols.len(),
{
    if cols.len() == 0 || params.len() == 0 {
        None
    } else if cols[0] == col {
        Some(params[0])
    } else {
        value_of(cols.drop_first(), params.drop_first(), col)
    }
}

/// A file row with a text column set, where the column is one of its text
/// columns.
pub open spec fn set_text(f: FileView, col: Column, v: Seq<char>) -> FileView {
    match col {
        Column::Name => FileView { name: v, ..f },
        Column::DiskPath => FileView { disk_path: v, ..f },
        Column::Visibility => FileView { visibility: v, ..f },
        _ => f,
    }
}

/// The tables after an `INSERT`, `DELETE` or `UPDATE`. A new user or file
/// takes the next id; an insert into `users` whose user name is taken (the
/// column is `UNIQUE`) changes nothing, and so does one into
/// `file_permissions` of a pair that is there (`UNIQUE(file_id, user_id)`).
pub open spec fn run(t: Tables, s: Stmt, params: Seq<Value>) -> Tables {
    match s {
        Stmt::Insert(_, Table::FilePermissions, cols) => match (
            value_of(cols, params, Column::FileId),
            value_of(cols, params, Column::UserId),
        ) {
            (Some(Value::Int(file_id)), Some(Value::Int(user_id))) => Tables {
                grants: t.grants.insert((file_id, user_id)),
                ..t
            },
            _ => t,
        },
        Stmt::Insert(_, Table::Files, cols) => match (
            value_of(cols, params, Column::OwnerId),
            value_of(cols, params, Column::Name),
            value_of(cols, params, Column::DiskPath),
            value_of(cols, params, Column::Visibility),
        ) {
            (
                Some(Value::Int(owner_id)),
                Some(Value::Text(name)),
                Some(Value::Text(disk_path)),
                Some(Value::Text(visibility)),
            ) => Tables {
                files: t.files.push(
                    FileView { id: t.next_file_id, owner_id, name, disk_path, visibility },
                ),
                next_file_id: (t.next_file_id + 1) as i32,
                ..t
            },
            _ => t,
        },
        Stmt::Insert(_, Table::Users, cols) => match (
            value_of(cols, params, Column::Username),
            value_of(cols, params, Column::PasswordHash),
        ) {
            (Some(Value::Text(username)), Some(Value::Text(password_hash))) => if exists|i: int|
                0 <= i < t.users.len() && (#[trigger] t.users[i]).username == username {
                t
            } else {
                Tables {
                    users: t.users.push(UserRow { id: t.next_user_id, username, password_hash }),
                    next_user_id: (t.next_user_id + 1) as i32,
                    ..t
                }
            },
            _ => t,
        },
        Stmt::Delete(Table::FilePermissions, c) => Tables {
            grants: t.grants.filter(|g: (i32, i32)| !holds(t, c, Row::Grant(g.0, g.1), params, 0)),
            ..t
        },
        Stmt::Update(Table::Files, col, v, c) => Tables {
            files: t.files.map_values(
                |f: FileView|
                    if holds(t, c, Row::File(f), params, 0) {
                        set_text(f, col, v)
                    } else {
                        f
                    },
            ),
            ..t
        },
        _ => t,
    }
}

/// The values an operation binds to its statement's placeholders, in order.
pub open spec fn params_of(q: QueryView) -> Seq<Value> {
    match q {
        QueryView::FindUser { username } => seq![Value::Text(username)],
        QueryView::InsertUser { username, password_hash } => seq![
            Value::Text(username),
            Value::Text(password_hash),
        ],
        QueryView::UserIdOf { username } => seq![Value::Text(username)],
        QueryView::LookupUserId { username } => seq![Value::Text(username)],
        QueryView::OwnsFile { file_id, owner_id } => seq![Value::Int(file_id), Value::Int(owner_id)],
        QueryView::GrantAccess { file_id, user_id } => seq![Value::Int(file_id), Value::Int(user_id)],
        QueryView::RevokeAccess { file_id, user_id } => seq![Value::Int(file_id), Value::Int(user_id)],
        QueryView::MakePublic { file_id, owner_id } => seq![Value::Int(file_id), Value::Int(owner_id)],
        QueryView::FileById { file_id } => seq![Value::Int(file_id)],
        QueryView::HasAccess { file_id, user_id } => seq![Value::Int(file_id), Value::Int(user_id)],
        QueryView::AccessibleFiles { user_id } => seq![Value::Int(user_id), Value::Int(user_id)],
        QueryView::OtherOwnersPath { path, owner_id } => seq![Value::Text(path), Value::Int(owner_id)],
        QueryView::InsertFile { owner_id, name, disk_path } => seq![
            Value::Int(owner_id),
            Value::Text(name),
            Value::Text(disk_path),
            Value::Text("private"@),
        ],
        _ => Seq::empty(),
    }
}

/// Access to a file: the statement for `HasAccess { file_id, user_id }`,
/// with `file_id` and `user_id` bound in that order, finds a row exactly
/// when the user was given access to the file, and that is what the
/// operation answers.
pub proof fn law_has_access_statement(w: World, file_id: i32, user_id: i32)
    ensures
        ({
            let q = QueryView::HasAccess { file_id, user_id };
            &&& statement_of(q) == Some(stmt_text(has_access_sql()))
            &&& finds_row(w.tables, has_access_sql(), params_of(q)) == w.tables.grants.contains(
                (file_id, user_id),
            )
            &&& respond(w, q) == Some(
                (AnswerView::Exists(finds_row(w.tables, has_access_sql(), params_of(q))), w),
            )
        }),
{
    let q = QueryView::HasAccess { file_id, user_id };
    let t = w.tables;
    reveal_strlit("SELECT 1 FROM file_permissions WHERE file_id = ? AND user_id = ?");
    reveal_strlit("SELECT ");
    reveal_strlit(" FROM ");
    reveal_strlit(" WHERE ");
    reveal_strlit("1");
    reveal_strlit("file_permissions");
    reveal_strlit("file_id");
    reveal_strlit("user_id");
    reveal_strlit(" = ?");
    reveal_strlit(" AND ");
    reveal_with_fuel(cond_text, 2);
    assert(stmt_text(has_access_sql()) =~= "SELECT 1 FROM file_permissions WHERE file_id = ? AND user_id = ?"@);
    reveal_with_fuel(holds, 2);
    let r = Row::Grant(file_id, user_id);
    if t.grants.contains((file_id, user_id)) {
        assert(in_table(t, Table::FilePermissions, r));
        assert(holds(t, eq2(Column::FileId, Column::UserId), r, params_of(q), 0));
    }
}

/// Sharing: the statement for `GrantAccess { file_id, user_id }`, with
/// `file_id` and `user_id` bound in that order, adds exactly the pair
/// `(file_id, user_id)` to `file_permissions`, as the operation does.
pub proof fn law_grant_access_statement(w: World, file_id: i32, user_id: i32)
    ensures
        ({
            let q = QueryView::GrantAccess { file_id, user_id };
            let after = run(w.tables, grant_access_sql(), params_of(q));
            &&& statement_of(q) == Some(stmt_text(grant_access_sql()))
            &&& after.grants == w.tables.grants.insert((file_id, user_id))
            &&& after == grant(w.tables, file_id, user_id)
            &&& respond(w, q) == Some((AnswerView::Done, with_tables(w, after)))
        }),
{
    let q = QueryView::GrantAccess { file_id, user_id };
    reveal_strlit("INSERT OR IGNORE INTO file_permissions (file_id, user_id) VALUES (?, ?)");
    reveal_strlit("INSERT OR IGNORE INTO ");
    reveal_strlit("file_permissions");
    reveal_strlit(" (");
    reveal_strlit("file_id");
    reveal_strlit(", ");
    reveal_strlit("user_id");
    reveal_strlit(") VALUES (");
    reveal_strlit("?");
    reveal_strlit("?, ");
    reveal_strlit(")");
    let cols = seq![Column::FileId, Column::UserId];
    assert(cols.drop_first() =~= seq![Column::UserId]);
    reveal_strlit("file_id, user_id");
    reveal_strlit("?, ?");
    assert(column_list(cols) =~= "file_id, user_id"@) by {
        reveal_with_fuel(column_list, 2);
    }
    assert(placeholders(2) =~= "?, ?"@) by {
        reveal_with_fuel(placeholders, 2);
    }
    assert(stmt_text(grant_access_sql()) =~= "INSERT OR IGNORE INTO file_permissions (file_id, user_id) VALUES (?, ?)"@);
    let params = params_of(q);
    assert(params.drop_first() =~= seq![Value::Int(user_id)]);
    assert(value_of(cols, params, Column::FileId) == Some(Value::Int(file_id)));
    assert(value_of(cols, params, Column::UserId) == Some(Value::Int(user_id))) by {
        reveal_with_fuel(value_of, 2);
    }
}

/// Revoking: the statement for `RevokeAccess { file_id, user_id }`, with
/// `file_id` and `user_id` bound in that order, removes exactly the pair
/// `(file_id, user_id)` from `file_permissions`, as the operation does.
pub proof fn law_revoke_access_statement(w: World, file_id: i32, user_id: i32)
    ensures
        ({
            let q = QueryView::RevokeAccess { file_id, user_id };
            let after = run(w.tables, revoke_access_sql(), params_of(q));
            &&& statement_of(q) == Some(stmt_text(revoke_access_sql()))
            &&& after.grants == w.tables.grants.remove((file_id, user_id))
            &&& after == revoke(w.tables, file_id, user_id)
            &&& respond(w, q) == Some((AnswerView::Done, with_tables(w, after)))
        }),
{
    let q = QueryView::RevokeAccess { file_id, user_id };
    let t = w.tables;
    reveal_strlit("DELETE FROM file_permissions WHERE file_id = ? AND user_id = ?");
    reveal_strlit("DELETE FROM ");
    reveal_strlit(" WHERE ");
    reveal_strlit("file_permissions");
    reveal_strlit("file_id");
    reveal_strlit("user_id");
    reveal_strlit(" = ?");
    reveal_strlit(" AND ");
    reveal_with_fuel(cond_text, 2);
    assert(stmt_text(revoke_access_sql()) =~= "DELETE FROM file_permissions WHERE file_id = ? AND user_id = ?"@);
    reveal_with_fuel(holds, 2);
    let after = run(t, revoke_access_sql(), params_of(q));
    assert(after.grants =~= t.grants.remove((file_id, user_id)));
}

/// Listing: the statement for `AccessibleFiles { user_id }`, with `user_id`
/// bound to both placeholders, returns, in table order, exactly the files
/// the user owns or was given access to, as the operation does.
pub proof fn law_accessible_files_statement(w: World, user_id: i32)
    ensures
        ({
            let q = QueryView::AccessibleFiles { user_id };
            let t = w.tables;
            let rows = selected_files(t, accessible_files_sql(), params_of(q));
            &&& statement_of(q) == Some(stmt_text(accessible_files_sql()))
            &&& rows == t.files.filter(
                |f: FileView| f.owner_id == user_id || t.grants.contains((f.id, user_id)),
            )
            &&& rows == accessible_files(t, user_id)
            &&& respond(w, q) == Some((AnswerView::Files(rows), w))
        }),
{
    let q = QueryView::AccessibleFiles { user_id };
    let t = w.tables;
    let params = params_of(q);
    reveal_strlit("SELECT * FROM files WHERE owner_id = ? OR id IN (SELECT file_id FROM file_permissions WHERE user_id = ?)");
    reveal_strlit("SELECT ");
    reveal_strlit(" FROM ");
    reveal_strlit(" WHERE ");
    reveal_strlit("*");
    reveal_strlit("files");
    reveal_strlit("file_permissions");
    reveal_strlit("owner_id");
    reveal_strlit("id");
    reveal_strlit("file_id");
    reveal_strlit("user_id");
    reveal_strlit(" = ?");
    reveal_strlit(" OR ");
    reveal_strlit(" IN (SELECT ");
    reveal_strlit(")");
    reveal_with_fuel(cond_text, 3);
    assert(stmt_text(accessible_files_sql()) =~= "SELECT * FROM files WHERE owner_id = ? OR id IN (SELECT file_id FROM file_permissions WHERE user_id = ?)"@);
    let c = Cond::Or(
        Box::new(Cond::Eq(Column::OwnerId)),
        Box::new(
            Cond::In(
                Column::Id,
                Column::FileId,
                Table::FilePermissions,
                Box::new(Cond::Eq(Column::UserId)),
            ),
        ),
    );
    let p1 = |f: FileView| holds(t, c, Row::File(f), params, 0);
    let p2 = |f: FileView| f.owner_id == user_id || t.grants.contains((f.id, user_id));
    assert forall|f: FileView| #[trigger] p1(f) == p2(f) by {
        reveal_with_fuel(holds, 3);
        let g = Row::Grant(f.id, user_id);
        if t.grants.contains((f.id, user_id)) {
            assert(in_table(t, Table::FilePermissions, g));
            assert(holds(t, Cond::Eq(Column::UserId), g, params, 1));
        }
    }
    assert(p1 =~= p2);
}

/// Ownership: the statement for `OwnsFile { file_id, owner_id }`, with the
/// two bound in that order, finds a row exactly when the file exists and
/// belongs to that user, as the operation answers.
pub proof fn law_owns_file_statement(w: World, file_id: i32, owner_id: i32)
    ensures
        ({
            let q = QueryView::OwnsFile { file_id, owner_id };
            let t = w.tables;
            &&& statement_of(q) == Some(stmt_text(owns_file_sql()))
            &&& finds_row(t, owns_file_sql(), params_of(q)) == exists|i: int|
                0 <= i < t.files.len() && (#[trigger] t.files[i]).id == file_id && t.files[i].owner_id
                    == owner_id
            &&& respond(w, q) == Some(
                (AnswerView::Exists(finds_row(t, owns_file_sql(), params_of(q))), w),
            )
        }),
{
    let q = QueryView::OwnsFile { file_id, owner_id };
    let t = w.tables;
    let params = params_of(q);
    reveal_strlit("SELECT 1 FROM files WHERE id = ? AND owner_id = ?");
    reveal_strlit("SELECT ");
    reveal_strlit(" FROM ");
    reveal_strlit(" WHERE ");
    reveal_strlit("1");
    reveal_strlit("files");
    reveal_strlit("id");
    reveal_strlit("owner_id");
    reveal_strlit(" = ?");
    reveal_strlit(" AND ");
    reveal_with_fuel(cond_text, 2);
    assert(stmt_text(owns_file_sql()) =~= "SELECT 1 FROM files WHERE id = ? AND owner_id = ?"@);
    reveal_with_fuel(holds, 2);
    let c = eq2(Column::Id, Column::OwnerId);
    if finds_row(t, owns_file_sql(), params) {
        let r = choose|r: Row| #[trigger] in_table(t, Table::Files, r) && holds(t, c, r, params, 0);
        let i = choose|i: int| 0 <= i < t.files.len() && t.files[i] == r->File_0;
        assert(t.files[i].id == file_id && t.files[i].owner_id == owner_id);
    }
    if exists|i: int|
        0 <= i < t.files.len() && (#[trigger] t.files[i]).id == file_id && t.files[i].owner_id
            == owner_id {
        let i = choose|i: int|
            0 <= i < t.files.len() && (#[trigger] t.files[i]).id == file_id && t.files[i].owner_id
                == owner_id;
        assert(in_table(t, Table::Files, Row::File(t.files[i])));
        assert(holds(t, c, Row::File(t.files[i]), params, 0));
    }
}

/// Taken paths: the statement for `OtherOwnersPath { path, owner_id }`,
/// with the two bound in that order, finds a row exactly when a file of
/// another user is kept at the path, as the operation answers.
pub proof fn law_other_owners_path_statement(w: World, path: Seq<char>, owner_id: i32)
    ensures
        ({
            let q = QueryView::OtherOwnersPath { path, owner_id };
            let t = w.tables;
            &&& statement_of(q) == Some(stmt_text(other_owners_path_sql()))
            &&& finds_row(t, other_owners_path_sql(), params_of(q)) == exists|i: int|
                0 <= i < t.files.len() && (#[trigger] t.files[i]).disk_path == path
                    && t.files[i].owner_id != owner_id
            &&& respond(w, q) == Some(
                (AnswerView::Exists(finds_row(t, other_owners_path_sql(), params_of(q))), w),
            )
        }),
{
    let q = QueryView::OtherOwnersPath { path, owner_id };
    let t = w.tables;
    let params = params_of(q);
    reveal_strlit("SELECT 1 FROM files WHERE disk_path = ? AND owner_id != ?");
    reveal_strlit("SELECT ");
    reveal_strlit(" FROM ");
    reveal_strlit(" WHERE ");
    reveal_strlit("1");
    reveal_strlit("files");
    reveal_strlit("disk_path");
    reveal_strlit("owner_id");
    reveal_strlit(" = ?");
    reveal_strlit(" != ?");
    reveal_strlit(" AND ");
    reveal_with_fuel(cond_text, 2);
    assert(stmt_text(other_owners_path_sql()) =~= "SELECT 1 FROM files WHERE disk_path = ? AND owner_id != ?"@);
    reveal_with_fuel(holds, 2);
    let c = Cond::And(Box::new(Cond::Eq(Column::DiskPath)), Box::new(Cond::Ne(Column::OwnerId)));
    if finds_row(t, other_owners_path_sql(), params) {
        let r = choose|r: Row| #[trigger] in_table(t, Table::Files, r) && holds(t, c, r, params, 0);
        let i = choose|i: int| 0 <= i < t.files.len() && t.files[i] == r->File_0;
        assert(t.files[i].disk_path == path && t.files[i].owner_id != owner_id);
    }
    if exists|i: int|
        0 <= i < t.files.len() && (#[trigger] t.files[i]).disk_path == path && t.files[i].owner_id
            != owner_id {
        let i = choose|i: int|
            0 <= i < t.files.len() && (#[trigger] t.files[i]).disk_path == path
                && t.files[i].owner_id != owner_id;
        assert(in_table(t, Table::Files, Row::File(t.files[i])));
        assert(holds(t, c, Row::File(t.files[i]), params, 0));
    }
}

/// Publishing: the statement for `MakePublic { file_id, owner_id }`, with
/// the two bound in that order, sets `visibility` to `public` on exactly
/// the file with that id and owner and leaves every other row as it was,
/// as the operation does.
pub proof fn law_make_public_statement(w: World, file_id: i32, owner_id: i32)
    ensures
        ({
            let q = QueryView::MakePublic { file_id, owner_id };
            let t = w.tables;
            let after = run(t, make_public_sql(), params_of(q));
            &&& statement_of(q) == Some(stmt_text(make_public_sql()))
            &&& after.users == t.users && after.grants == t.grants
            &&& after.files.len() == t.files.len()
            &&& forall|i: int|
                0 <= i < t.files.len() ==> #[trigger] after.files[i] == if t.files[i].id == file_id
                    && t.files[i].owner_id == owner_id {
                    FileView { visibility: public_visibility(), ..t.files[i] }
                } else {
                    t.files[i]
                }
            &&& after == publish(t, file_id, owner_id)
            &&& respond(w, q) matches Some((_, w2)) && w2 == with_tables(w, after)
        }),
{
    let q = QueryView::MakePublic { file_id, owner_id };
    let t = w.tables;
    let params = params_of(q);
    reveal_strlit("UPDATE files SET visibility = 'public' WHERE id = ? AND owner_id = ?");
    reveal_strlit("UPDATE ");
    reveal_strlit(" SET ");
    reveal_strlit(" = '");
    reveal_strlit("' WHERE ");
    reveal_strlit("public");
    reveal_strlit("files");
    reveal_strlit("visibility");
    reveal_strlit("id");
    reveal_strlit("owner_id");
    reveal_strlit(" = ?");
    reveal_strlit(" AND ");
    reveal_with_fuel(cond_text, 2);
    assert(stmt_text(make_public_sql()) =~= "UPDATE files SET visibility = 'public' WHERE id = ? AND owner_id = ?"@);
    reveal_with_fuel(holds, 2);
    let c = eq2(Column::Id, Column::OwnerId);
    let p1 = |f: FileView|
        if holds(t, c, Row::File(f), params, 0) {
            set_text(f, Column::Visibility, "public"@)
        } else {
            f
        };
    let p2 = |f: FileView|
        if f.id == file_id && f.owner_id == owner_id {
            published(f)
        } else {
            f
        };
    assert(public_visibility() =~= "public"@);
    assert forall|f: FileView| #[trigger] p1(f) == p2(f) by {}
    assert(p1 =~= p2);
    if owns(t, file_id, owner_id) {
        assert(respond(w, q) == Some((AnswerView::Affected(1), with_tables(w, publish(t, file_id, owner_id)))));
    } else {
        assert forall|i: int| 0 <= i < t.files.len() implies #[trigger] p2(t.files[i]) == t.files[i] by {}
        assert(publish(t, file_id, owner_id).files =~= t.files);
        assert(publish(t, file_id, owner_id) =~= t);
    }
}

/// Recording an upload: the statement for `InsertFile { owner_id, name,
/// disk_path }`, with those three and `private` bound in that order, adds
/// one row at the end of `files`: the next file id, that owner, name and
/// path, private; as the operation does.
pub proof fn law_insert_file_statement(w: World, owner_id: i32, name: Seq<char>, disk_path: Seq<char>)
    ensures
        ({
            let q = QueryView::InsertFile { owner_id, name, disk_path };
            let t = w.tables;
            let after = run(t, insert_file_sql(), params_of(q));
            &&& statement_of(q) == Some(stmt_text(insert_file_sql()))
            &&& after.files == t.files.push(
                FileView {
                    id: t.next_file_id,
                    owner_id,
                    name,
                    disk_path,
                    visibility: private_visibility(),
                },
            )
            &&& after == add_file(t, owner_id, name, disk_path)
            &&& respond(w, q) == Some((AnswerView::Done, with_tables(w, after)))
        }),
{
    let q = QueryView::InsertFile { owner_id, name, disk_path };
    let t = w.tables;
    let params = params_of(q);
    reveal_strlit("INSERT INTO files (owner_id, name, disk_path, visibility) VALUES (?, ?, ?, ?)");
    reveal_strlit("INSERT INTO ");
    reveal_strlit("files");
    reveal_strlit(" (");
    reveal_strlit("owner_id");
    reveal_strlit("name");
    reveal_strlit("disk_path");
    reveal_strlit("visibility");
    reveal_strlit(", ");
    reveal_strlit(") VALUES (");
    reveal_strlit("?");
    reveal_strlit("?, ");
    reveal_strlit(")");
    reveal_strlit("private");
    let cols = seq![Column::OwnerId, Column::Name, Column::DiskPath, Column::Visibility];
    assert(column_list(cols) =~= "owner_id"@ + ", "@ + ("name"@ + ", "@ + ("disk_path"@ + ", "@
        + "visibility"@))) by {
        reveal_with_fuel(column_list, 4);
        assert(cols.drop_first() =~= seq![Column::Name, Column::DiskPath, Column::Visibility]);
        assert(cols.drop_first().drop_first() =~= seq![Column::DiskPath, Column::Visibility]);
        assert(cols.drop_first().drop_first().drop_first() =~= seq![Column::Visibility]);
    }
    assert(placeholders(4) =~= "?, "@ + ("?, "@ + ("?, "@ + "?"@))) by {
        reveal_with_fuel(placeholders, 4);
    }
    assert(stmt_text(insert_file_sql()) =~= "INSERT INTO files (owner_id, name, disk_path, visibility) VALUES (?, ?, ?, ?)"@);
    assert(private_visibility() =~= "private"@);
    reveal_with_fuel(value_of, 5);
    assert(params.drop_first() =~= seq![Value::Text(name), Value::Text(disk_path), Value::Text("private"@)]);
    assert(params.drop_first().drop_first() =~= seq![Value::Text(disk_path), Value::Text("private"@)]);
    assert(params.drop_first().drop_first().drop_first() =~= seq![Value::Text("private"@)]);
    assert(cols.drop_first() =~= seq![Column::Name, Column::DiskPath, Column::Visibility]);
    assert(cols.drop_first().drop_first() =~= seq![Column::DiskPath, Column::Visibility]);
    assert(cols.drop_first().drop_first().drop_first() =~= seq![Column::Visibility]);
    assert(value_of(cols, params, Column::OwnerId) == Some(Value::Int(owner_id)));
    assert(value_of(cols, params, Column::Name) == Some(Value::Text(name)));
    assert(value_of(cols, params, Column::DiskPath) == Some(Value::Text(disk_path)));
    assert(value_of(cols, params, Column::Visibility) == Some(Value::Text("private"@)));
}

/// Finding a user: the statement for `FindUser { username }` finds a row
/// exactly when a user has that name, and in well-formed tables the only
/// row it can return is that user's, which is what the operation answers.
pub proof fn law_find_user_statement(w: World, username: Seq<char>)
    ensures
        ({
            let q = QueryView::FindUser { username };
            let t = w.tables;
            &&& statement_of(q) == Some(stmt_text(find_user_sql()))
            &&& finds_row(t, find_user_sql(), params_of(q)) == has_user(t, username)
            &&& well_formed(t) ==> forall|r: Row|
                #[trigger] selects(t, find_user_sql(), params_of(q), r) ==> r == Row::User(
                    user_named(t, username),
                )
            &&& respond(w, q) == Some(
                (
                    AnswerView::User(
                        if finds_row(t, find_user_sql(), params_of(q)) {
                            Some(
                                UserView {
                                    id: Some(user_named(t, username).id),
                                    username: user_named(t, username).username,
                                    password_hash: user_named(t, username).password_hash,
                                },
                            )
                        } else {
                            None
                        },
                    ),
                    w,
                ),
            )
        }),
{
    let q = QueryView::FindUser { username };
    reveal_strlit("SELECT * FROM users WHERE username = ?");
    reveal_strlit("SELECT ");
    reveal_strlit(" FROM ");
    reveal_strlit(" WHERE ");
    reveal_strlit("*");
    reveal_strlit("users");
    reveal_strlit("username");
    reveal_strlit(" = ?");
    assert(stmt_text(find_user_sql()) =~= "SELECT * FROM users WHERE username = ?"@);
    lemma_user_by_name(w.tables, find_user_sql(), params_of(q), username);
}

/// Looking up a user's id: the statement for `UserIdOf { username }` and
/// `LookupUserId { username }` finds a row exactly when a user has that
/// name, and in well-formed tables the id it returns is that user's, which
/// is what the operations answer.
pub proof fn law_user_id_statement(w: World, username: Seq<char>)
    ensures
        ({
            let q = QueryView::UserIdOf { username };
            let lookup = QueryView::LookupUserId { username };
            let t = w.tables;
            let found = finds_row(t, user_id_sql(), params_of(q));
            &&& statement_of(q) == Some(stmt_text(user_id_sql()))
            &&& statement_of(lookup) == Some(stmt_text(user_id_sql()))
            &&& params_of(lookup) == params_of(q)
            &&& found == has_user(t, username)
            &&& well_formed(t) ==> forall|r: Row|
                #[trigger] selects(t, user_id_sql(), params_of(q), r) ==> field(r, Column::Id)
                    == Some(Value::Int(user_named(t, username).id))
            &&& respond(w, q) == if found {
                Some((AnswerView::UserId(user_named(t, username).id), w))
            } else {
                None
            }
            &&& respond(w, lookup) == Some(
                (
                    AnswerView::MaybeUserId(
                        if found {
                            Some(user_named(t, username).id)
                        } else {
                            None
                        },
                    ),
                    w,
                ),
            )
        }),
{
    let q = QueryView::UserIdOf { username };
    reveal_strlit("SELECT id FROM users WHERE username = ?");
    reveal_strlit("SELECT ");
    reveal_strlit(" FROM ");
    reveal_strlit(" WHERE ");
    reveal_strlit("id");
    reveal_strlit("users");
    reveal_strlit("username");
    reveal_strlit(" = ?");
    assert(stmt_text(user_id_sql()) =~= "SELECT id FROM users WHERE username = ?"@);
    lemma_user_by_name(w.tables, user_id_sql(), params_of(q), username);
}

/// A `SELECT` on `users` by `username = ?`, bound to a name, selects a row
/// exactly when a user has the name, and, the names being unique, only
/// that user's row.
proof fn lemma_user_by_name(t: Tables, s: Stmt, params: Seq<Value>, username: Seq<char>)
    requires
        s matches Stmt::Select(_, Table::Users, Cond::Eq(Column::Username)),
        params == seq![Value::Text(username)],
    ensures
        finds_row(t, s, params) == has_user(t, username),
        well_formed(t) ==> forall|r: Row| #[trigger] selects(t, s, params, r) ==> r == Row::User(
            user_named(t, username),
        ),
{
    let c = Cond::Eq(Column::Username);
    if finds_row(t, s, params) {
        let r = choose|r: Row| #[trigger] in_table(t, Table::Users, r) && holds(t, c, r, params, 0);
        let i = choose|i: int| 0 <= i < t.users.len() && t.users[i] == r->User_0;
        assert(t.users[i].username == username);
    }
    if has_user(t, username) {
        let i = choose|i: int| 0 <= i < t.users.len() && (#[trigger] t.users[i]).username == username;
        assert(in_table(t, Table::Users, Row::User(t.users[i])));
        assert(holds(t, c, Row::User(t.users[i]), params, 0));
    }
    if well_formed(t) {
        assert forall|r: Row| #[trigger] selects(t, s, params, r) implies r == Row::User(
            user_named(t, username),
        ) by {
            let i = choose|i: int| 0 <= i < t.users.len() && t.users[i] == r->User_0;
            assert(t.users[i].username == username);
            assert(has_user(t, username));
            let j = choose|j: int|
                0 <= j < t.users.len() && (#[trigger] t.users[j]).username == username;
            if i != j {
                assert(t.users[i].username != t.users[j].username);
            }
        }
    }
}

/// Fetching a file: the statement for `FileById { file_id }` finds a row
/// exactly when a file has that id, and in well-formed tables the only row
/// it can return is that file, which is what the operation answers.
pub proof fn law_file_by_id_statement(w: World, file_id: i32)
    ensures
        ({
            let q = QueryView::FileById { file_id };
            let t = w.tables;
            let found = finds_row(t, file_by_id_sql(), params_of(q));
            &&& statement_of(q) == Some(stmt_text(file_by_id_sql()))
            &&& found == has_file(t, file_id)
            &&& well_formed(t) ==> forall|r: Row|
                #[trigger] selects(t, file_by_id_sql(), params_of(q), r) ==> r == Row::File(
                    file_with_id(t, file_id),
                )
            &&& respond(w, q) == Some(
                (
                    AnswerView::File(
                        if found {
                            Some(file_with_id(t, file_id))
                        } else {
                            None
                        },
                    ),
                    w,
                ),
            )
        }),
{
    let q = QueryView::FileById { file_id };
    let t = w.tables;
    let params = params_of(q);
    let s = file_by_id_sql();
    reveal_strlit("SELECT * FROM files WHERE id = ?");
    reveal_strlit("SELECT ");
    reveal_strlit(" FROM ");
    reveal_strlit(" WHERE ");
    reveal_strlit("*");
    reveal_strlit("files");
    reveal_strlit("id");
    reveal_strlit(" = ?");
    assert(stmt_text(s) =~= "SELECT * FROM files WHERE id = ?"@);
    let c = Cond::Eq(Column::Id);
    if finds_row(t, s, params) {
        let r = choose|r: Row| #[trigger] in_table(t, Table::Files, r) && holds(t, c, r, params, 0);
        let i = choose|i: int| 0 <= i < t.files.len() && t.files[i] == r->File_0;
        assert(t.files[i].id == file_id);
    }
    if has_file(t, file_id) {
        let i = choose|i: int| 0 <= i < t.files.len() && (#[trigger] t.files[i]).id == file_id;
        assert(in_table(t, Table::Files, Row::File(t.files[i])));
        assert(holds(t, c, Row::File(t.files[i]), params, 0));
    }
    if well_formed(t) {
        assert forall|r: Row| #[trigger] selects(t, s, params, r) implies r == Row::File(
            file_with_id(t, file_id),
        ) by {
            let i = choose|i: int| 0 <= i < t.files.len() && t.files[i] == r->File_0;
            assert(t.files[i].id == file_id);
            assert(has_file(t, file_id));
            let j = choose|j: int| 0 <= j < t.files.len() && (#[trigger] t.files[j]).id == file_id;
            if i != j {
                assert(t.files[i].id != t.files[j].id);
            }
        }
    }
}

/// Registering: the statement for `InsertUser { username, password_hash }`,
/// with the two bound in that order, adds a user with the next id, that
/// name and that hash, unless the name is taken, in which case it changes
/// nothing; as the operation does.
pub proof fn law_insert_user_statement(w: World, username: Seq<char>, password_hash: Seq<char>)
    ensures
        ({
            let q = QueryView::InsertUser { username, password_hash };
            let t = w.tables;
            let after = run(t, insert_user_sql(), params_of(q));
            &&& statement_of(q) == Some(stmt_text(insert_user_sql()))
            &&& after == if has_user(t, username) {
                t
            } else {
                Tables {
                    users: t.users.push(UserRow { id: t.next_user_id, username, password_hash }),
                    next_user_id: (t.next_user_id + 1) as i32,
                    ..t
                }
            }
            &&& respond(w, q) matches Some((_, w2)) && w2 == with_tables(w, after)
        }),
{
    let q = QueryView::InsertUser { username, password_hash };
    let params = params_of(q);
    reveal_strlit("INSERT INTO users (username, password_hash) VALUES (?, ?)");
    reveal_strlit("INSERT INTO ");
    reveal_strlit("users");
    reveal_strlit(" (");
    reveal_strlit("username");
    reveal_strlit(", ");
    reveal_strlit("password_hash");
    reveal_strlit(") VALUES (");
    reveal_strlit("?");
    reveal_strlit("?, ");
    reveal_strlit(")");
    let cols = seq![Column::Username, Column::PasswordHash];
    assert(cols.drop_first() =~= seq![Column::PasswordHash]);
    assert(column_list(cols) =~= "username"@ + ", "@ + "password_hash"@) by {
        reveal_with_fuel(column_list, 2);
    }
    assert(placeholders(2) =~= "?, "@ + "?"@) by {
        reveal_with_fuel(placeholders, 2);
    }
    assert(stmt_text(insert_user_sql()) =~= "INSERT INTO users (username, password_hash) VALUES (?, ?)"@);
    assert(params.drop_first() =~= seq![Value::Text(password_hash)]);
    assert(value_of(cols, params, Column::Username) == Some(Value::Text(username)));
    assert(value_of(cols, params, Column::PasswordHash) == Some(Value::Text(password_hash))) by {
        reveal_with_fuel(value_of, 2);
    }
}

} // verus!
