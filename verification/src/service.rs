//! The authenticated Flight service's decisions: how a ticket is read and
//! routed, how authorisation and storage failures surface as gRPC
//! statuses, and the state a `DoPut` stream walks through while it turns
//! decoded frames into a stored table.

use vstd::prelude::*;

use crate::auth::AuthError;
use crate::config::CmdOptions;
use crate::module::GetTicket;
use crate::storage::create_storage;
use crate::storage::insert_data;
use crate::storage::FieldDef;
use crate::storage::StorageError;

verus! {

/// The gRPC status kinds the service reports.
#[derive(Debug)]
pub enum GrpcStatus {
    Unauthenticated(String),
    Internal(String),
    InvalidArgument(String),
    Unimplemented(String),
}

/// Where a `DoGet` is served from.
#[derive(Debug)]
pub enum DataRoute {
    /// `target == "system"` with a CSV provider configured.
    CsvProvider(String),
    /// `target == "system"` with a financial-filing provider configured.
    EdinetProvider(String),
    /// Any other target names a stored table: `(target, column)`.
    Stored(String, String),
}

/// Every authorisation failure surfaces as `unauthenticated`.
pub fn auth_status(e: AuthError) -> (r: GrpcStatus)
    ensures
        r is Unauthenticated,
{
    match e {
        AuthError::NoToken => GrpcStatus::Unauthenticated("No token".to_owned()),
        AuthError::TooShort => GrpcStatus::Unauthenticated("too short".to_owned()),
        AuthError::InvalidFormat => GrpcStatus::Unauthenticated("Invalid format".to_owned()),
        AuthError::InvalidToken(t) => {
            let mut m = "Invalid token: ".to_owned();
            m.append(t.as_str());
            GrpcStatus::Unauthenticated(m)
        },
        AuthError::JwtInvalid(e) => {
            let mut m = "jwt should be valid: ".to_owned();
            m.append(e.as_str());
            GrpcStatus::Unauthenticated(m)
        },
        AuthError::UnauthorizedSubject(s) => {
            let mut m = "Unauthorized subject: ".to_owned();
            m.append(s.as_str());
            GrpcStatus::Unauthenticated(m)
        },
    }
}

/// The route a well-formed ticket with these fields receives: the
/// `system` target goes to the CSV provider when one is configured, else
/// to the filing provider, and is an internal error when neither is;
/// every other target names that stored table, with the requested column
/// carried through.
pub open spec fn routed(
    cmd_opts: CmdOptions,
    target: Seq<char>,
    column: Seq<char>,
    r: Result<DataRoute, GrpcStatus>,
) -> bool {
    if target == "system"@ {
        if cmd_opts.csv_file is Some {
            r matches Ok(DataRoute::CsvProvider(c)) && c@ == column
        } else if cmd_opts.edinet_db is Some {
            r matches Ok(DataRoute::EdinetProvider(c)) && c@ == column
        } else {
            (r matches Err(e) && e is Internal)
        }
    } else {
        r matches Ok(DataRoute::Stored(t, c)) && t@ == target && c@ == column
    }
}

/// Decides where a well-formed ticket is served from.
pub fn route_of(cmd_opts: &CmdOptions, ticket: GetTicket) -> (r: Result<DataRoute, GrpcStatus>)
    ensures
        routed(*cmd_opts, ticket.target@, ticket.column_name@, r),
{
    if crate::util::str_eq(ticket.target.as_str(), "system") {
        if cmd_opts.csv_file.is_some() {
            Ok(DataRoute::CsvProvider(ticket.column_name))
        } else if cmd_opts.edinet_db.is_some() {
            Ok(DataRoute::EdinetProvider(ticket.column_name))
        } else {
            Err(GrpcStatus::Internal("no data source".to_owned()))
        }
    } else {
        Ok(DataRoute::Stored(ticket.target, ticket.column_name))
    }
}

/// Reads a `DoGet` ticket and routes it. Any text that is not a canonical
/// ticket is refused as an invalid argument; a canonical ticket whose
/// fields need no escaping is routed by `route_of`, whose only error — no
/// provider behind the `system` target — is internal.
pub fn route_ticket(cmd_opts: &CmdOptions, ticket: &str) -> (r: Result<DataRoute, GrpcStatus>)
    ensures
        (forall|t: Seq<char>, c: Seq<char>| ticket@ != #[trigger] crate::module::ticket_json(t, c))
            ==> (r matches Err(e) && e is InvalidArgument),
        forall|t: Seq<char>, c: Seq<char>|
            ticket@ == #[trigger] crate::module::ticket_json(t, c) && crate::json::plain_text(t)
                && crate::json::plain_text(c) ==> routed(*cmd_opts, t, c, r),
        match r {
            Ok(route) => match route {
                DataRoute::CsvProvider(_) => cmd_opts.csv_file is Some,
                DataRoute::EdinetProvider(_) => cmd_opts.csv_file is None
                    && cmd_opts.edinet_db is Some,
                DataRoute::Stored(t, _) => t@ != "system"@,
            },
            Err(e) => e is InvalidArgument || (e is Internal && cmd_opts.csv_file is None
                && cmd_opts.edinet_db is None),
        },
{
    let parsed = match GetTicket::from_json(ticket) {
        Ok(t) => t,
        Err(_) => {
            return Err(GrpcStatus::InvalidArgument("malformed ticket".to_owned()));
        },
    };
    route_of(cmd_opts, parsed)
}

/// A storage failure on the write path surfaces as `internal` with the
/// store's message in it.
pub fn storage_status(e: StorageError) -> (r: GrpcStatus)
    ensures
        r is Internal,
{
    match e {
        StorageError::InvalidTableName(n) => {
            let mut m = "Invalid table name: ".to_owned();
            m.append(n.as_str());
            GrpcStatus::Internal(m)
        },
        StorageError::InvalidFieldName(n) => {
            let mut m = "Invalid field name: ".to_owned();
            m.append(n.as_str());
            GrpcStatus::Internal(m)
        },
        StorageError::UnsupportedColumnType(n) => {
            let mut m = "Unsupported column type for field: ".to_owned();
            m.append(n.as_str());
            GrpcStatus::Internal(m)
        },
        StorageError::Db(msg) => GrpcStatus::Internal(msg),
        StorageError::NoPolicy(t) => {
            let mut m = "No policy found for table: ".to_owned();
            m.append(t.as_str());
            GrpcStatus::Internal(m)
        },
        StorageError::MalformedPolicy(t) => {
            let mut m = "stored policy is not valid JSON for table: ".to_owned();
            m.append(t.as_str());
            GrpcStatus::Internal(m)
        },
    }
}

/// The state a `DoPut` stream builds up: the authenticated subject, the
/// policy captured from the first non-empty `app_metadata`, and the target
/// once the schema frame created a table.
#[derive(Debug)]
pub struct PutSession {
    pub subject: String,
    pub policy: Option<String>,
    pub target: Option<String>,
}

impl PutSession {
    /// A fresh session for one authenticated subject.
    pub fn new(subject: String) -> (r: Self)
        ensures
            r.subject == subject,
            r.policy is None,
            r.target is None,
    {
        PutSession { subject, policy: None, target: None }
    }

    /// Remembers the latest non-empty `app_metadata` as the policy to
    /// store beside the table.
    pub fn note_metadata(&mut self, meta: Option<String>)
        ensures
            final(self).policy == (if meta is Some {
                meta
            } else {
                old(self).policy
            }),
            final(self).subject == old(self).subject,
            final(self).target == old(self).target,
    {
        match meta {
            Some(m) => {
                self.policy = Some(m);
            },
            None => {},
        }
    }

    /// Handles a schema frame: creates the subject's table, stores the
    /// captured policy beside it, and remembers the returned target. The
    /// captured policy is spent by this call.
    pub fn on_schema(
        &mut self,
        conn: &rusqlite::Connection,
        fields: &Vec<FieldDef>,
        now_secs: u64,
    ) -> (r: Result<(), GrpcStatus>)
        ensures
            final(self).subject == old(self).subject,
            final(self).policy is None,
            match r {
                Ok(()) => final(self).target matches Some(t) && t@ == crate::util::dec_str(
                    now_secs as nat,
                ),
                Err(e) => e is Internal && final(self).target == old(self).target,
            },
    {
        let mut policy: Option<String> = None;
        core::mem::swap(&mut self.policy, &mut policy);
        let res = match &policy {
            Some(p) => create_storage(conn, self.subject.as_str(), fields, Some(p), now_secs),
            None => create_storage(conn, self.subject.as_str(), fields, None, now_secs),
        };
        match res {
            Ok(target) => {
                self.target = Some(target);
                Ok(())
            },
            Err(e) => {
                let status = storage_status(e);
                Err(status)
            },
        }
    }

    /// Handles a record-batch frame: inserts the rows into the table the
    /// schema frame created; a batch before any schema is an internal
    /// error.
    pub fn on_batch(
        &self,
        conn: &rusqlite::Connection,
        fields: &Vec<FieldDef>,
        rows: &Vec<Vec<rusqlite::types::Value>>,
    ) -> (r: Result<(), GrpcStatus>)
        ensures
            r matches Err(e) ==> e is Internal,
            self.target is None ==> r is Err,
    {
        let target = match &self.target {
            Some(t) => t,
            None => {
                return Err(GrpcStatus::Internal("target not created yet".to_owned()));
            },
        };
        match insert_data(conn, self.subject.as_str(), target.as_str(), fields, rows) {
            Ok(()) => Ok(()),
            Err(e) => Err(storage_status(e)),
        }
    }

    /// Ends the stream: the created table's target becomes the
    /// `PutResult`'s metadata; a stream that never carried a schema is an
    /// internal error.
    pub fn finish(&self) -> (r: Result<String, GrpcStatus>)
        ensures
            match r {
                Ok(t) => self.target matches Some(u) && t@ == u@,
                Err(e) => e is Internal && self.target is None,
            },
    {
        match &self.target {
            Some(t) => Ok(t.clone()),
            None => Err(GrpcStatus::Internal("target not created yet".to_owned())),
        }
    }
}

} // verus!
