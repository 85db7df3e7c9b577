//! Subject-scoped SQL table store: identifier safety, the exact SQL text
//! that is executed, per-row inserts, and the column coercion of reads.
//!
//! Every table is named `{subject}_{epoch}`; both parts and every field
//! name must be valid SQL identifiers before any statement is prepared.

use vstd::prelude::*;

use crate::util::append_u64_dec;
use crate::util::dec_str;
use crate::util::is_digit;
use crate::util::is_letter;
use crate::util::push_char;

verus! {

/// How a storage operation failed.
#[derive(Debug)]
pub enum StorageError {
    /// The composed table name is not a valid SQL identifier.
    InvalidTableName(String),
    /// A field name is not a valid SQL identifier.
    InvalidFieldName(String),
    /// A column's Arrow type cannot be bound, with the field's name.
    UnsupportedColumnType(String),
    /// The database reported an error.
    Db(String),
    /// No policy row exists for the table.
    NoPolicy(String),
    /// The stored policy row is not valid JSON.
    MalformedPolicy(String),
}

/// Arrow column types the store distinguishes.
#[derive(Debug, Clone, Copy, PartialEq, Eq, Structural)]
pub enum ColumnType {
    Boolean,
    Int32,
    Float32,
    Utf8,
    Binary,
    /// Any other Arrow type; stored as a blob at table creation and refused
    /// at insertion.
    Other,
}

/// One field of a schema: its name and its column type.
#[derive(Debug, Clone)]
pub struct FieldDef {
    pub name: String,
    pub ty: ColumnType,
}

/// A valid SQL identifier: a letter, then letters, digits and underscores.
pub open spec fn sqlid_ok(s: Seq<char>) -> bool {
    s.len() >= 1 && is_letter(s[0]) && (forall|i: int|
        1 <= i < s.len() ==> is_letter(#[trigger] s[i]) || is_digit(s[i]) || s[i] == '_')
}

/// The only guard between caller-supplied strings and SQL text.
pub fn is_valid_sqlid(name: &str) -> (r: bool)
    ensures
        r == sqlid_ok(name@),
{
    let n: usize = name.unicode_len();
    if n == 0 {
        return false;
    }
    let first = name.get_char(0);
    if !(('a' <= first && first <= 'z') || ('A' <= first && first <= 'Z')) {
        return false;
    }
    let mut i: usize = 1;
    while i < n
        invariant
            1 <= i <= n,
            n == name@.len(),
            is_letter(name@[0]),
            forall|j: int|
                1 <= j < i ==> is_letter(#[trigger] name@[j]) || is_digit(name@[j]) || name@[j]
                    == '_',
        decreases n - i,
    {
        let c = name.get_char(i);
        if !(('a' <= c && c <= 'z') || ('A' <= c && c <= 'Z') || ('0' <= c && c <= '9') || c
            == '_') {
            return false;
        }
        i = i + 1;
    }
    true
}

/// `{subject}_{target}`, the stored name of a subject's table.
pub open spec fn table_name_of(subject: Seq<char>, target: Seq<char>) -> Seq<char> {
    subject + "_"@ + target
}

/// Composes the stored table name of a subject and a target.
pub fn make_table_name(subject: &str, target: &str) -> (r: String)
    ensures
        r@ == table_name_of(subject@, target@),
{
    let mut s = subject.to_owned();
    s.append("_");
    s.append(target);
    s
}

/// SQL type keyword a column is created with.
pub open spec fn type_sql(t: ColumnType) -> Seq<char> {
    match t {
        ColumnType::Int32 => "INTEGER"@,
        ColumnType::Float32 => "REAL"@,
        ColumnType::Utf8 => "TEXT"@,
        _ => "BLOB"@,
    }
}

fn type_sql_exec(t: &ColumnType) -> (r: &'static str)
    ensures
        r@ == type_sql(*t),
{
    match t {
        ColumnType::Int32 => "INTEGER",
        ColumnType::Float32 => "REAL",
        ColumnType::Utf8 => "TEXT",
        _ => "BLOB",
    }
}

/// `name TYPE` for one field.
pub open spec fn field_sql(f: FieldDef) -> Seq<char> {
    f.name@ + " "@ + type_sql(f.ty)
}

/// The column definitions of a CREATE statement, comma-separated.
pub open spec fn cols_sql(fields: Seq<FieldDef>) -> Seq<char>
    decreases fields.len(),
{
    if fields.len() == 0 {
        Seq::empty()
    } else if fields.len() == 1 {
        field_sql(fields[0])
    } else {
        cols_sql(fields.drop_last()) + ", "@ + field_sql(fields.last())
    }
}

/// The field names of an INSERT statement, comma-separated.
pub open spec fn names_sql(fields: Seq<FieldDef>) -> Seq<char>
    decreases fields.len(),
{
    if fields.len() == 0 {
        Seq::empty()
    } else if fields.len() == 1 {
        fields[0].name@
    } else {
        names_sql(fields.drop_last()) + ", "@ + fields.last().name@
    }
}

/// The placeholders of an INSERT statement, one per field.
pub open spec fn marks_sql(n: nat) -> Seq<char>
    decreases n,
{
    if n == 0 {
        Seq::empty()
    } else if n == 1 {
        "?"@
    } else {
        marks_sql((n - 1) as nat) + ", ?"@
    }
}

/// The exact CREATE TABLE statement executed for a schema.
pub open spec fn create_table_sql(tbl: Seq<char>, fields: Seq<FieldDef>) -> Seq<char> {
    "CREATE TABLE "@ + tbl + " ("@ + cols_sql(fields) + ")"@
}

/// The exact INSERT statement executed for each row.
pub open spec fn insert_sql(tbl: Seq<char>, fields: Seq<FieldDef>) -> Seq<char> {
    "INSERT INTO "@ + tbl + " ("@ + names_sql(fields) + ") VALUES ("@ + marks_sql(fields.len())
        + ")"@
}

/// The exact SELECT statement executed for a read.
pub open spec fn select_sql(column: Seq<char>, tbl: Seq<char>) -> Seq<char> {
    "SELECT "@ + column + " FROM "@ + tbl
}

fn build_cols_clause(fields: &Vec<FieldDef>) -> (r: String)
    ensures
        r@ == cols_sql(fields@),
{
    let mut out = String::new();
    let mut i: usize = 0;
    while i < fields.len()
        invariant
            0 <= i <= fields@.len(),
            out@ == cols_sql(fields@.subrange(0, i as int)),
        decreases fields@.len() - i,
    {
        proof {
            let t = fields@.subrange(0, i as int + 1);
            assert(t.drop_last() =~= fields@.subrange(0, i as int));
            assert(t.last() == fields@[i as int]);
        }
        if i > 0 {
            out.append(", ");
        }
        out.append(fields[i].name.as_str());
        out.append(" ");
        out.append(type_sql_exec(&fields[i].ty));
        proof {
            let t = fields@.subrange(0, i as int + 1);
            if i == 0 {
                assert(out@ =~= cols_sql(t));
            } else {
                assert(out@ =~= cols_sql(t));
            }
        }
        i = i + 1;
    }
    proof {
        assert(fields@.subrange(0, fields@.len() as int) =~= fields@);
    }
    out
}

fn build_names_clause(fields: &Vec<FieldDef>) -> (r: String)
    ensures
        r@ == names_sql(fields@),
{
    let mut out = String::new();
    let mut i: usize = 0;
    while i < fields.len()
        invariant
            0 <= i <= fields@.len(),
            out@ == names_sql(fields@.subrange(0, i as int)),
        decreases fields@.len() - i,
    {
        proof {
            let t = fields@.subrange(0, i as int + 1);
            assert(t.drop_last() =~= fields@.subrange(0, i as int));
            assert(t.last() == fields@[i as int]);
        }
        if i > 0 {
            out.append(", ");
        }
        out.append(fields[i].name.as_str());
        proof {
            let t = fields@.subrange(0, i as int + 1);
            assert(out@ =~= names_sql(t));
        }
        i = i + 1;
    }
    proof {
        assert(fields@.subrange(0, fields@.len() as int) =~= fields@);
    }
    out
}

fn build_marks_clause(n: usize) -> (r: String)
    ensures
        r@ == marks_sql(n as nat),
{
    let mut out = String::new();
    let mut i: usize = 0;
    while i < n
        invariant
            0 <= i <= n,
            out@ == marks_sql(i as nat),
        decreases n - i,
    {
        if i > 0 {
            out.append(", ?");
        } else {
            out.append("?");
        }
        proof {
            assert(out@ =~= marks_sql((i + 1) as nat));
        }
        i = i + 1;
    }
    out
}

/// The CREATE TABLE statement for `tbl` and `fields`.
pub fn build_create_table(tbl: &String, fields: &Vec<FieldDef>) -> (r: String)
    ensures
        r@ == create_table_sql(tbl@, fields@),
{
    let mut out = "CREATE TABLE ".to_owned();
    out.append(tbl.as_str());
    out.append(" (");
    let cols = build_cols_clause(fields);
    out.append(cols.as_str());
    out.append(")");
    proof {
        assert(out@ =~= create_table_sql(tbl@, fields@));
    }
    out
}

/// The INSERT statement for `tbl` and `fields`.
pub fn build_insert(tbl: &String, fields: &Vec<FieldDef>) -> (r: String)
    ensures
        r@ == insert_sql(tbl@, fields@),
{
    let mut out = "INSERT INTO ".to_owned();
    out.append(tbl.as_str());
    out.append(" (");
    let names = build_names_clause(fields);
    out.append(names.as_str());
    out.append(") VALUES (");
    let marks = build_marks_clause(fields.len());
    out.append(marks.as_str());
    out.append(")");
    proof {
        assert(out@ =~= insert_sql(tbl@, fields@));
    }
    out
}

/// The SELECT statement for one column of `tbl`.
pub fn build_select(column: &str, tbl: &String) -> (r: String)
    ensures
        r@ == select_sql(column@, tbl@),
{
    let mut out = "SELECT ".to_owned();
    out.append(column);
    out.append(" FROM ");
    out.append(tbl.as_str());
    proof {
        assert(out@ =~= select_sql(column@, tbl@));
    }
    out
}

#[verifier::external_type_specification]
#[verifier::external_body]
pub struct ExConnection(rusqlite::Connection);

#[verifier::external_type_specification]
#[verifier::external_body]
pub struct ExSqlValue(rusqlite::types::Value);

/// Relies on rusqlite's derived `Clone` for `Value`: the copy equals the
/// original.
pub assume_specification[ <rusqlite::types::Value as Clone>::clone ](
    v: &rusqlite::types::Value,
) -> (r: rusqlite::types::Value)
    ensures
        r == *v,
;

/// How a database is opened.
#[derive(Debug, Clone, Copy)]
pub enum DbMode {
    ReadOnly,
    ReadWrite,
    ReadWriteCreate,
}

/// Relies on rusqlite's `Connection::open_with_flags`; the mode selects the
/// read-only, read-write, or read-write-and-create flag set.
#[verifier::external_body]
pub fn open_db(path: &str, mode: DbMode) -> (r: Result<rusqlite::Connection, String>) {
    let flags = match mode {
        DbMode::ReadOnly => rusqlite::OpenFlags::SQLITE_OPEN_READ_ONLY,
        DbMode::ReadWrite => rusqlite::OpenFlags::SQLITE_OPEN_READ_WRITE,
        DbMode::ReadWriteCreate => rusqlite::OpenFlags::SQLITE_OPEN_READ_WRITE
            | rusqlite::OpenFlags::SQLITE_OPEN_CREATE,
    };
    rusqlite::Connection::open_with_flags(path, flags).map_err(|e| e.to_string())
}

/// Relies on rusqlite's `Connection::execute` to run one parameterless
/// statement.
#[verifier::external_body]
fn execute_sql(conn: &rusqlite::Connection, sql: &String) -> (r: Result<usize, String>) {
    conn.execute(sql.as_str(), []).map_err(|e| e.to_string())
}

/// Relies on rusqlite's `Connection::execute` to run one statement with the
/// given parameter values bound in order.
#[verifier::external_body]
fn execute_with_values(
    conn: &rusqlite::Connection,
    sql: &String,
    params: &Vec<rusqlite::types::Value>,
) -> (r: Result<usize, String>) {
    conn.execute(sql.as_str(), rusqlite::params_from_iter(params.iter())).map_err(
        |e| e.to_string(),
    )
}

/// Wraps a string as a text parameter value.
#[verifier::external_body]
fn text_value(s: &String) -> (r: rusqlite::types::Value) {
    rusqlite::types::Value::Text(s.clone())
}

/// The statement that records a policy beside its table.
fn policy_insert_sql() -> (r: String)
    ensures
        r@ == "INSERT INTO policy (table_name, json) VALUES (?, ?)"@,
{
    "INSERT INTO policy (table_name, json) VALUES (?, ?)".to_owned()
}

/// The statement that reads the policy rows of one table.
fn policy_select_sql() -> (r: String)
    ensures
        r@ == "SELECT json FROM policy WHERE table_name = ?"@,
{
    "SELECT json FROM policy WHERE table_name = ?".to_owned()
}

/// Relies on rusqlite's `Statement::query_map` to run one statement with a
/// single text parameter and collect its text rows, in row order.
#[verifier::external_body]
fn query_strings(conn: &rusqlite::Connection, sql: &String, param: &String) -> (r: Result<
    Vec<String>,
    String,
>) {
    let mut stmt = conn.prepare(sql.as_str()).map_err(|e| e.to_string())?;
    let rows = stmt.query_map([param.as_str()], |row| row.get::<_, String>(0)).map_err(
        |e| e.to_string(),
    )?;
    rows.collect::<Result<Vec<String>, _>>().map_err(|e| e.to_string())
}

/// Relies on rusqlite's `Statement::query_map` to read one column; rows
/// whose value cannot be read are dropped, as the store's readers do.
#[verifier::external_body]
fn query_values(conn: &rusqlite::Connection, sql: &String) -> (r: Result<
    Vec<rusqlite::types::Value>,
    String,
>) {
    let mut stmt = conn.prepare(sql.as_str()).map_err(|e| e.to_string())?;
    let rows = stmt.query_map([], |row| row.get::<_, rusqlite::types::Value>(0)).map_err(
        |e| e.to_string(),
    )?;
    Ok(rows.filter_map(|v| v.ok()).collect())
}

/// One cell read back from the store, classified the way the readers coerce
/// it: numeric cells keep their raw value, text cells their string, blob
/// cells their bytes; NULL cells are dropped before this point.
pub enum StoredCell {
    /// An INTEGER or REAL cell, read back as a number.
    Real(rusqlite::types::Value),
    /// A TEXT cell.
    Text(String),
    /// A BLOB cell.
    Blob(Vec<u8>),
}

/// Classifies one raw cell: INTEGER and REAL read as numbers, TEXT as a
/// string, BLOB as bytes, NULL as nothing — the classification rusqlite's
/// column readers apply.
#[verifier::external_body]
fn cell_of_value(v: rusqlite::types::Value) -> (r: Option<StoredCell>) {
    match v {
        rusqlite::types::Value::Null => None,
        rusqlite::types::Value::Integer(_) => Some(StoredCell::Real(v)),
        rusqlite::types::Value::Real(_) => Some(StoredCell::Real(v)),
        rusqlite::types::Value::Text(s) => Some(StoredCell::Text(s)),
        rusqlite::types::Value::Blob(b) => Some(StoredCell::Blob(b)),
    }
}

/// A read column after coercion to its dominant kind.
pub enum TypedColumn {
    /// The column reads as 32-bit floats; non-numeric cells are nulls.
    Float32(Vec<Option<rusqlite::types::Value>>),
    /// The column reads as strings; non-text cells are nulls.
    Utf8(Vec<Option<String>>),
    /// The column reads as byte strings; non-blob cells are nulls.
    Binary(Vec<Option<Vec<u8>>>),
}

/// Some cell of the column is numeric.
pub open spec fn has_real(cells: Seq<StoredCell>) -> bool {
    exists|i: int| 0 <= i < cells.len() && cells[i] is Real
}

/// Some cell of the column is text.
pub open spec fn has_text(cells: Seq<StoredCell>) -> bool {
    exists|i: int| 0 <= i < cells.len() && cells[i] is Text
}

/// The numeric coercion kept every numeric cell in place and nulled the rest.
pub open spec fn float_coercion(cells: Seq<StoredCell>, col: Seq<Option<rusqlite::types::Value>>) -> bool {
    col.len() == cells.len() && (forall|i: int|
        0 <= i < cells.len() ==> match #[trigger] cells[i] {
            StoredCell::Real(v) => col[i] == Some(v),
            _ => col[i] is None,
        })
}

/// The text coercion kept every text cell in place and nulled the rest.
pub open spec fn text_coercion(cells: Seq<StoredCell>, col: Seq<Option<String>>) -> bool {
    col.len() == cells.len() && (forall|i: int|
        0 <= i < cells.len() ==> match #[trigger] cells[i] {
            StoredCell::Text(s) => col[i] == Some(s),
            _ => col[i] is None,
        })
}

/// The blob coercion kept every blob cell in place and nulled the rest.
pub open spec fn blob_coercion(cells: Seq<StoredCell>, col: Seq<Option<Vec<u8>>>) -> bool {
    col.len() == cells.len() && (forall|i: int|
        0 <= i < cells.len() ==> match #[trigger] cells[i] {
            StoredCell::Blob(b) => col[i] matches Some(bb) && bb@ == b@,
            _ => col[i] is None,
        })
}

/// Coerces a read column to one homogeneous kind: floats dominate text,
/// text dominates binary; cells of another kind become nulls, in place.
pub fn coerce_column(cells: Vec<StoredCell>) -> (r: TypedColumn)
    ensures
        has_real(cells@) ==> (r matches TypedColumn::Float32(col) && float_coercion(
            cells@,
            col@,
        )),
        !has_real(cells@) && has_text(cells@) ==> (r matches TypedColumn::Utf8(col)
            && text_coercion(cells@, col@)),
        !has_real(cells@) && !has_text(cells@) ==> (r matches TypedColumn::Binary(col)
            && blob_coercion(cells@, col@)),
{
    let mut any_real = false;
    let mut any_text = false;
    let mut i: usize = 0;
    while i < cells.len()
        invariant
            0 <= i <= cells@.len(),
            any_real == has_real(cells@.subrange(0, i as int)),
            any_text == has_text(cells@.subrange(0, i as int)),
        decreases cells@.len() - i,
    {
        proof {
            let t = cells@.subrange(0, i as int + 1);
            assert(forall|j: int| 0 <= j < t.len() ==> t[j] == cells@.subrange(0, i as int + 1)[j]);
            assert(t.drop_last() =~= cells@.subrange(0, i as int));
        }
        match &cells[i] {
            StoredCell::Real(_) => {
                any_real = true;
            },
            StoredCell::Text(_) => {
                any_text = true;
            },
            StoredCell::Blob(_) => {},
        }
        proof {
            let t = cells@.subrange(0, i as int + 1);
            let p = cells@.subrange(0, i as int);
            assert(cells@[i as int] == t[i as int]);
            assert forall|j: int| 0 <= j < t.len() && t[j] is Real implies has_real(t) by {}
            if any_real {
                assert(has_real(t));
            } else {
                assert forall|j: int| 0 <= j < t.len() implies !(t[j] is Real) by {
                    if j < i {
                        assert(t[j] == p[j]);
                        assert(!has_real(p) ==> !(p[j] is Real));
                    }
                }
            }
            if any_text {
                assert(has_text(t));
            } else {
                assert forall|j: int| 0 <= j < t.len() implies !(t[j] is Text) by {
                    if j < i {
                        assert(t[j] == p[j]);
                        assert(!has_text(p) ==> !(p[j] is Text));
                    }
                }
            }
        }
        i = i + 1;
    }
    proof {
        assert(cells@.subrange(0, cells@.len() as int) =~= cells@);
    }
    if any_real {
        let mut col: Vec<Option<rusqlite::types::Value>> = Vec::new();
        let mut i: usize = 0;
        while i < cells.len()
            invariant
                0 <= i <= cells@.len(),
                col@.len() == i as int,
                forall|j: int|
                    0 <= j < i ==> match #[trigger] cells@[j] {
                        StoredCell::Real(v) => col@[j] == Some(v),
                        _ => col@[j] is None,
                    },
            decreases cells@.len() - i,
        {
            match &cells[i] {
                StoredCell::Real(v) => {
                    col.push(Some(v.clone()));
                },
                _ => {
                    col.push(None);
                },
            }
            i = i + 1;
        }
        TypedColumn::Float32(col)
    } else if any_text {
        let mut col: Vec<Option<String>> = Vec::new();
        let mut i: usize = 0;
        while i < cells.len()
            invariant
                0 <= i <= cells@.len(),
                col@.len() == i as int,
                forall|j: int|
                    0 <= j < i ==> match #[trigger] cells@[j] {
                        StoredCell::Text(s) => col@[j] == Some(s),
                        _ => col@[j] is None,
                    },
            decreases cells@.len() - i,
        {
            match &cells[i] {
                StoredCell::Text(s) => {
                    col.push(Some(s.clone()));
                },
                _ => {
                    col.push(None);
                },
            }
            i = i + 1;
        }
        TypedColumn::Utf8(col)
    } else {
        let mut col: Vec<Option<Vec<u8>>> = Vec::new();
        let mut i: usize = 0;
        while i < cells.len()
            invariant
                0 <= i <= cells@.len(),
                col@.len() == i as int,
                forall|j: int|
                    0 <= j < i ==> match #[trigger] cells@[j] {
                        StoredCell::Blob(b) => col@[j] matches Some(bb) && bb@ == b@,
                        _ => col@[j] is None,
                    },
            decreases cells@.len() - i,
        {
            match &cells[i] {
                StoredCell::Blob(b) => {
                    col.push(Some(crate::util::copy_bytes(b)));
                },
                _ => {
                    col.push(None);
                },
            }
            i = i + 1;
        }
        TypedColumn::Binary(col)
    }
}

/// The column type can be bound at insertion.
pub open spec fn insertable(t: ColumnType) -> bool {
    !(t is Other)
}

/// Creates the subject's table for this schema, named `{subject}_{epoch}`,
/// and records the policy beside it when one is given. Both name parts and
/// every field name are guarded before any statement is built; the target
/// (the epoch rendered in decimal) is returned.
#[verifier::loop_isolation(false)]
pub fn create_storage(
    conn: &rusqlite::Connection,
    subject: &str,
    fields: &Vec<FieldDef>,
    policy: Option<&String>,
    now_secs: u64,
) -> (r: Result<String, StorageError>)
    ensures
        ({
            let target = dec_str(now_secs as nat);
            let tbl = table_name_of(subject@, target);
            if !sqlid_ok(tbl) {
                r matches Err(StorageError::InvalidTableName(n)) && n@ == tbl
            } else if exists|i: int| 0 <= i < fields@.len() && !sqlid_ok(fields@[i].name@) {
                r matches Err(StorageError::InvalidFieldName(n)) && !sqlid_ok(n@) && (exists|i: int|
                    0 <= i < fields@.len() && fields@[i].name@ == n@)
            } else {
                match r {
                    Ok(t) => t@ == target,
                    Err(e) => e is Db,
                }
            }
        }),
{
    let mut target = String::new();
    append_u64_dec(&mut target, now_secs);
    let tbl = make_table_name(subject, target.as_str());
    if !is_valid_sqlid(tbl.as_str()) {
        return Err(StorageError::InvalidTableName(tbl));
    }
    let mut i: usize = 0;
    while i < fields.len()
        invariant
            0 <= i <= fields@.len(),
            forall|j: int| 0 <= j < i ==> sqlid_ok(#[trigger] fields@[j].name@),
        decreases fields@.len() - i,
    {
        if !is_valid_sqlid(fields[i].name.as_str()) {
            return Err(StorageError::InvalidFieldName(fields[i].name.clone()));
        }
        i = i + 1;
    }
    let sql = build_create_table(&tbl, fields);
    match execute_sql(conn, &sql) {
        Ok(_) => {},
        Err(m) => {
            return Err(StorageError::Db(m));
        },
    }
    match policy {
        Some(p) => {
            let insert_sql = policy_insert_sql();
            let params = vec![text_value(&tbl), text_value(p)];
            match execute_with_values(conn, &insert_sql, &params) {
                Ok(_) => {},
                Err(m) => {
                    return Err(StorageError::Db(m));
                },
            }
        },
        None => {},
    }
    Ok(target)
}

/// Inserts rows into the subject's table. The table name and every field
/// name are guarded and every column type must be bindable before any
/// statement is built; each row is inserted with one parameterised INSERT.
#[verifier::loop_isolation(false)]
pub fn insert_data(
    conn: &rusqlite::Connection,
    subject: &str,
    target: &str,
    fields: &Vec<FieldDef>,
    rows: &Vec<Vec<rusqlite::types::Value>>,
) -> (r: Result<(), StorageError>)
    ensures
        ({
            let tbl = table_name_of(subject@, target@);
            if !sqlid_ok(tbl) {
                r matches Err(StorageError::InvalidTableName(n)) && n@ == tbl
            } else if exists|i: int| 0 <= i < fields@.len() && !sqlid_ok(fields@[i].name@) {
                r matches Err(StorageError::InvalidFieldName(n)) && !sqlid_ok(n@) && (exists|i: int|
                    0 <= i < fields@.len() && fields@[i].name@ == n@)
            } else if exists|i: int| 0 <= i < fields@.len() && !insertable(fields@[i].ty) {
                r matches Err(StorageError::UnsupportedColumnType(n)) && (exists|i: int|
                    0 <= i < fields@.len() && fields@[i].name@ == n@ && !insertable(fields@[i].ty))
            } else {
                r is Ok || r matches Err(StorageError::Db(_))
            }
        }),
{
    let tbl = make_table_name(subject, target);
    if !is_valid_sqlid(tbl.as_str()) {
        return Err(StorageError::InvalidTableName(tbl));
    }
    let mut i: usize = 0;
    while i < fields.len()
        invariant
            0 <= i <= fields@.len(),
            forall|j: int| 0 <= j < i ==> sqlid_ok(#[trigger] fields@[j].name@),
        decreases fields@.len() - i,
    {
        if !is_valid_sqlid(fields[i].name.as_str()) {
            return Err(StorageError::InvalidFieldName(fields[i].name.clone()));
        }
        i = i + 1;
    }
    let mut i: usize = 0;
    while i < fields.len()
        invariant
            0 <= i <= fields@.len(),
            forall|j: int| 0 <= j < i ==> insertable(#[trigger] fields@[j].ty),
        decreases fields@.len() - i,
    {
        match fields[i].ty {
            ColumnType::Other => {
                return Err(StorageError::UnsupportedColumnType(fields[i].name.clone()));
            },
            _ => {},
        }
        i = i + 1;
    }
    let sql = build_insert(&tbl, fields);
    let mut row: usize = 0;
    while row < rows.len()
        invariant
            0 <= row <= rows@.len(),
        decreases rows@.len() - row,
    {
        match execute_with_values(conn, &sql, &rows[row]) {
            Ok(_) => {},
            Err(m) => {
                return Err(StorageError::Db(m));
            },
        }
        row = row + 1;
    }
    Ok(())
}

/// Reads one column of the subject's table and coerces it to its dominant
/// kind under `coerce_column`'s rules. Both identifiers are guarded before
/// the SELECT is built.
#[verifier::loop_isolation(false)]
pub fn get_data(
    conn: &rusqlite::Connection,
    subject: &str,
    target: &str,
    column_name: &str,
) -> (r: Result<TypedColumn, StorageError>)
    ensures
        ({
            let tbl = table_name_of(subject@, target@);
            if !sqlid_ok(tbl) {
                r matches Err(StorageError::InvalidTableName(n)) && n@ == tbl
            } else if !sqlid_ok(column_name@) {
                r matches Err(StorageError::InvalidFieldName(n)) && n@ == column_name@
            } else {
                r is Ok || r matches Err(StorageError::Db(_))
            }
        }),
{
    let tbl = make_table_name(subject, target);
    if !is_valid_sqlid(tbl.as_str()) {
        return Err(StorageError::InvalidTableName(tbl));
    }
    if !is_valid_sqlid(column_name) {
        return Err(StorageError::InvalidFieldName(column_name.to_owned()));
    }
    let sql = build_select(column_name, &tbl);
    let values = match query_values(conn, &sql) {
        Ok(v) => v,
        Err(m) => {
            return Err(StorageError::Db(m));
        },
    };
    let mut cells: Vec<StoredCell> = Vec::new();
    let mut i: usize = 0;
    let n = values.len();
    let mut rest = values;
    while i < n
        invariant
            0 <= i <= n,
            rest@.len() == n - i,
        decreases n - i,
    {
        let v = rest.remove(0);
        match cell_of_value(v) {
            Some(c) => {
                cells.push(c);
            },
            None => {},
        }
        i = i + 1;
    }
    Ok(coerce_column(cells))
}

/// Every rule of the document speaks of column `c`.
pub open spec fn all_rules_for_column(p: crate::policy::PolicyV, c: Seq<char>) -> bool {
    forall|i: int| 0 <= i < p.rules.len() ==> (#[trigger] p.rules[i]).1.column_name == c
}

/// Turns the stored policy rows of one table into the policy a read
/// reports: the last stored row wins; no row at all is the no-policy
/// error; a last row that is not readable policy JSON is the malformed
/// error; otherwise every rule is rewritten to the requested column and
/// the document re-serialised.
pub fn policy_from_rows(rows: &Vec<String>, tbl: String, column_name: &str) -> (r: Result<
    String,
    StorageError,
>)
    ensures
        rows@.len() == 0 <==> (r matches Err(StorageError::NoPolicy(n)) && n@ == tbl@),
        r matches Err(StorageError::MalformedPolicy(n)) ==> rows@.len() > 0 && n@ == tbl@,
        rows@.len() > 0 ==> (r matches Ok(_) || r matches Err(StorageError::MalformedPolicy(_))),
        r matches Ok(j) ==> exists|p: crate::policy::PolicyV|
            #[trigger] crate::policy::policy_json(p) == j@ && all_rules_for_column(
                p,
                column_name@,
            ),
{
    if rows.len() == 0 {
        return Err(StorageError::NoPolicy(tbl));
    }
    let stored = &rows[rows.len() - 1];
    let mut policy = match crate::policy::PolicyFile::from_json(stored.as_str()) {
        Ok(p) => p,
        Err(_) => {
            return Err(StorageError::MalformedPolicy(tbl));
        },
    };
    policy.rewrite_column_names(column_name);
    let json = policy.to_json();
    proof {
        assert(crate::policy::policy_json(policy@) == json@ && all_rules_for_column(
            policy@,
            column_name@,
        ));
    }
    Ok(json)
}

/// Loads the policy stored for `{subject}_{target}` and hands the rows to
/// `policy_from_rows`: whatever was stored, a successful result is the
/// exact JSON of a document whose every rule names `column_name`, a table
/// without a policy row is the no-policy error, and an unreadable stored
/// row the malformed error.
pub fn get_policy(
    conn: &rusqlite::Connection,
    subject: &str,
    target: &str,
    column_name: &str,
) -> (r: Result<String, StorageError>)
    ensures
        r matches Ok(j) ==> exists|p: crate::policy::PolicyV|
            #[trigger] crate::policy::policy_json(p) == j@ && all_rules_for_column(
                p,
                column_name@,
            ),
        r matches Err(StorageError::NoPolicy(n)) ==> n@ == table_name_of(subject@, target@),
        r matches Err(StorageError::MalformedPolicy(n)) ==> n@ == table_name_of(
            subject@,
            target@,
        ),
{
    let tbl = make_table_name(subject, target);
    let select_sql = policy_select_sql();
    let rows = match query_strings(conn, &select_sql, &tbl) {
        Ok(v) => v,
        Err(m) => {
            return Err(StorageError::Db(m));
        },
    };
    policy_from_rows(&rows, tbl, column_name)
}

} // verus!
