//! Lifecycle management for ephemeral, isolated test databases on a Postgres
//! server: a unique identity per manager, the two connection URLs derived from
//! it, and the exact SQL statements that provision and reap the database.
//!
//! The manager itself is pure bookkeeping: it generates the identity, derives
//! the server-scoped and database-scoped URLs, and renders the create,
//! terminate-sessions and drop statements. The network round-trips that act on
//! them belong to the caller.

use vstd::prelude::*;

pub mod ident;
pub mod numeral;

use crate::ident::{fresh_dbname, wf_dbname};
use crate::numeral::{spec_decimal, u16_to_decimal};

verus! {

/// Everything of a connection URL up to and including the `/` before the
/// database name. An empty password is omitted entirely: no `:` separator is
/// emitted for it.
pub open spec fn spec_url_prefix(
    user: Seq<char>,
    password: Seq<char>,
    host: Seq<char>,
    port: u16,
) -> Seq<char> {
    if password.len() == 0 {
        "postgres://"@ + user + "@"@ + host + ":"@ + spec_decimal(port as nat) + "/"@
    } else {
        "postgres://"@ + user + ":"@ + password + "@"@ + host + ":"@ + spec_decimal(port as nat)
            + "/"@
    }
}

/// The connection URL for `user`, `password`, `host`, `port` and `dbname`.
pub open spec fn spec_conn_url(
    user: Seq<char>,
    password: Seq<char>,
    host: Seq<char>,
    port: u16,
    dbname: Seq<char>,
) -> Seq<char> {
    spec_url_prefix(user, password, host, port) + dbname
}

/// The statement that creates the database named `dbname`, with the name in a
/// quoted identifier.
pub open spec fn spec_create_database_sql(dbname: Seq<char>) -> Seq<char> {
    "CREATE DATABASE \""@ + dbname + "\""@
}

/// The statement that drops the database named `dbname`, with the name in a
/// quoted identifier.
pub open spec fn spec_drop_database_sql(dbname: Seq<char>) -> Seq<char> {
    "DROP DATABASE \""@ + dbname + "\""@
}

/// The statement that forcibly terminates every other backend session
/// connected to the database named `dbname`.
pub open spec fn spec_terminate_sessions_sql(dbname: Seq<char>) -> Seq<char> {
    "SELECT pg_terminate_backend(pid) FROM pg_stat_activity WHERE pid <> pg_backend_pid() AND datname = '"@
        + dbname + "'"@
}

/// An empty password is omitted from the URL entirely: the character right
/// after the user is the `@` before the host, never a credential separator.
/// A non-empty password sits between a `:` and the `@`.
pub proof fn lemma_credential_separator(
    user: Seq<char>,
    password: Seq<char>,
    host: Seq<char>,
    port: u16,
    dbname: Seq<char>,
)
    ensures
        password.len() == 0 ==> spec_conn_url(user, password, host, port, dbname)["postgres://"@.len()
            + user.len() as int] == '@',
        password.len() > 0 ==> spec_conn_url(user, password, host, port, dbname)["postgres://"@.len()
            + user.len() as int] == ':' && spec_conn_url(user, password, host, port, dbname)["postgres://"@.len()
            + user.len() + 1 + password.len() as int] == '@',
{
    reveal_strlit("postgres://");
    reveal_strlit("@");
    reveal_strlit(":");
}

/// Distinct database identities yield distinct database-scoped URLs: no two
/// managers ever address the same database.
pub proof fn lemma_url_distinct_dbnames(
    user: Seq<char>,
    password: Seq<char>,
    host: Seq<char>,
    port: u16,
    d1: Seq<char>,
    d2: Seq<char>,
)
    requires
        d1 != d2,
    ensures
        spec_conn_url(user, password, host, port, d1) != spec_conn_url(user, password, host, port,
            d2),
{
    let p = spec_url_prefix(user, password, host, port);
    if spec_conn_url(user, password, host, port, d1) == spec_conn_url(user, password, host, port,
        d2) {
        assert((p + d1).len() == p.len() + d1.len());
        assert((p + d2).len() == p.len() + d2.len());
        assert(d1.len() == d2.len());
        assert forall|i: int| 0 <= i < d1.len() implies d1[i] == d2[i] by {
            assert((p + d1)[p.len() + i] == d1[i]);
            assert((p + d2)[p.len() + i] == d2[i]);
        }
        assert(d1 =~= d2);
    }
}

/// Distinct database identities yield distinct create-database statements,
/// and likewise distinct drop-database statements.
pub proof fn lemma_sql_distinct_dbnames(d1: Seq<char>, d2: Seq<char>)
    requires
        d1 != d2,
    ensures
        spec_create_database_sql(d1) != spec_create_database_sql(d2),
        spec_drop_database_sql(d1) != spec_drop_database_sql(d2),
{
    if spec_create_database_sql(d1) == spec_create_database_sql(d2) {
        let p = "CREATE DATABASE \""@;
        let q = "\""@;
        assert((p + d1 + q).len() == p.len() + d1.len() + q.len());
        assert((p + d2 + q).len() == p.len() + d2.len() + q.len());
        assert(d1.len() == d2.len());
        assert forall|i: int| 0 <= i < d1.len() implies d1[i] == d2[i] by {
            assert((p + d1)[p.len() + i] == d1[i]);
            assert((p + d2)[p.len() + i] == d2[i]);
            assert(spec_create_database_sql(d1)[p.len() + i] == d1[i]);
            assert(spec_create_database_sql(d2)[p.len() + i] == d2[i]);
        }
        assert(d1 =~= d2);
    }
    if spec_drop_database_sql(d1) == spec_drop_database_sql(d2) {
        let p = "DROP DATABASE \""@;
        let q = "\""@;
        assert((p + d1 + q).len() == p.len() + d1.len() + q.len());
        assert((p + d2 + q).len() == p.len() + d2.len() + q.len());
        assert(d1.len() == d2.len());
        assert forall|i: int| 0 <= i < d1.len() implies d1[i] == d2[i] by {
            assert((p + d1)[p.len() + i] == d1[i]);
            assert((p + d2)[p.len() + i] == d2[i]);
            assert(spec_drop_database_sql(d1)[p.len() + i] == d1[i]);
            assert(spec_drop_database_sql(d2)[p.len() + i] == d2[i]);
        }
        assert(d1 =~= d2);
    }
}

/// One manager owns exactly one test database, named by a freshly generated
/// identity; all fields are fixed at construction.
#[derive(Debug)]
pub struct TestDb {
    pub host: String,
    pub port: u16,
    pub user: String,
    pub password: String,
    pub dbname: String,
}

/// Builds a connection URL from its parts.
fn conn_url(user: &str, password: &str, host: &str, port: u16, dbname: &str) -> (r: String)
    ensures
        r@ == spec_conn_url(user@, password@, host@, port, dbname@),
{
    let mut s = String::from_str("postgres://");
    s.append(user);
    if !password.is_empty() {
        s.append(":");
        s.append(password);
    }
    s.append("@");
    s.append(host);
    s.append(":");
    let digits = u16_to_decimal(port);
    s.append(digits.as_str());
    s.append("/");
    s.append(dbname);
    proof {
        assert(s@ =~= spec_conn_url(user@, password@, host@, port, dbname@));
    }
    s
}

impl TestDb {
    /// A valid manager: its database identity is non-empty and drawn from the
    /// safe identity charset, so it can be spliced into quoted SQL.
    pub open spec fn wf(&self) -> bool {
        wf_dbname(self.dbname@)
    }

    /// Sets up a manager: generates the unique database identity and records
    /// the connection parameters. The caller provisions the physical database
    /// from `server_url`, `create_database_sql` and `url` before using it.
    pub fn new(host: &str, port: u16, user: &str, password: &str) -> (t: TestDb)
        ensures
            t.host@ == host@,
            t.port == port,
            t.user@ == user@,
            t.password@ == password@,
            t.wf(),
            t.dbname@.len() == 41,
            t.dbname@.subrange(0, 5) == "test_"@,
    {
        let dbname = fresh_dbname();
        TestDb {
            host: String::from_str(host),
            port,
            user: String::from_str(user),
            password: String::from_str(password),
            dbname,
        }
    }

    /// The server-scoped URL: it targets the administrative database
    /// `postgres`, from which the test database is created, reaped and
    /// dropped.
    pub fn server_url(&self) -> (r: String)
        ensures
            r@ == spec_conn_url(self.user@, self.password@, self.host@, self.port, "postgres"@),
    {
        conn_url(self.user.as_str(), self.password.as_str(), self.host.as_str(), self.port,
            "postgres")
    }

    /// The database-scoped URL: it targets the provisioned test database
    /// itself.
    pub fn url(&self) -> (r: String)
        ensures
            r@ == spec_conn_url(self.user@, self.password@, self.host@, self.port, self.dbname@),
    {
        conn_url(self.user.as_str(), self.password.as_str(), self.host.as_str(), self.port,
            self.dbname.as_str())
    }

    /// The create-database statement for this manager's database.
    pub fn create_database_sql(&self) -> (s: String)
        ensures
            s@ == spec_create_database_sql(self.dbname@),
    {
        let mut s = String::from_str("CREATE DATABASE \"");
        s.append(self.dbname.as_str());
        s.append("\"");
        s
    }

    /// The drop-database statement for this manager's database.
    pub fn drop_database_sql(&self) -> (s: String)
        ensures
            s@ == spec_drop_database_sql(self.dbname@),
    {
        let mut s = String::from_str("DROP DATABASE \"");
        s.append(self.dbname.as_str());
        s.append("\"");
        s
    }

    /// The statement that terminates every other session connected to this
    /// manager's database, so that the drop cannot be blocked by lingering
    /// clients.
    pub fn terminate_sessions_sql(&self) -> (s: String)
        ensures
            s@ == spec_terminate_sessions_sql(self.dbname@),
    {
        let mut s = String::from_str(
            "SELECT pg_terminate_backend(pid) FROM pg_stat_activity WHERE pid <> pg_backend_pid() AND datname = '",
        );
        s.append(self.dbname.as_str());
        s.append("'");
        s
    }
}

} // verus!
