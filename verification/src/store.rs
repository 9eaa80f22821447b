//! The store of names and their locations: one table in an SQLite database,
//! reached through `rusqlite`.
//!
//! What the database holds lies outside this program, so no contract of an
//! executable function here speaks of it. What is verified is what the store
//! decides: which statement is run with how many values, in which order the
//! values of a write are bound, what the outcome of a lookup is for each
//! answer of the database, and that every failure of the database comes back
//! as `StorageUnavailable`. The last part of the file states, on a table
//! taken as a map, what these decisions amount to.

use crate::failure::{shown, Failure};
use rusqlite::{Connection, Statement};
use vstd::prelude::*;

verus! {

/// `rusqlite::Connection`, an open SQLite database.
#[verifier::external_type_specification]
#[verifier::external_body]
pub struct ExConnection(rusqlite::Connection);

/// `rusqlite::Statement`, a statement that a connection has compiled.
#[verifier::external_type_specification]
#[verifier::external_body]
pub struct ExStatement<'conn>(rusqlite::Statement<'conn>);

/// `rusqlite::Error`, the failure of a call into the database.
#[verifier::external_type_specification]
#[verifier::external_body]
pub struct ExSqlError(rusqlite::Error);

/// The statement that makes the table of names and locations unless it is
/// there already.
pub open spec fn create_table_sql() -> Seq<char> {
    "CREATE TABLE IF NOT EXISTS times (
                id              INTEGER,
                name            TEXT PRIMARY KEY NOT NULL,
                location        TEXT NOT NULL
            )"@
}

/// The query for the number of records that have a name.
pub open spec fn count_sql() -> Seq<char> {
    "SELECT COUNT(*) FROM times WHERE name = ?"@
}

/// The query for the location stored under a name.
pub open spec fn select_sql() -> Seq<char> {
    "SELECT location FROM times WHERE name = ?1"@
}

/// How a location is written for a name.
#[derive(Clone, Copy, Debug, PartialEq, Eq, Structural)]
pub enum Write {
    /// A new record is added.
    Insert,
    /// The location of the record that is there is replaced.
    Update,
}

/// The write that stores a location under a name of which the table holds
/// `count` records: a name that is not there yet is inserted, any other is
/// updated.
pub open spec fn write_for(count: int) -> Write {
    if count == 0 {
        Write::Insert
    } else {
        Write::Update
    }
}

/// The outcome of a lookup for the row that the query gave: the location in
/// the row, and `NotFound` where there was no row.
pub open spec fn lookup_outcome(row: Option<Seq<char>>) -> Result<Seq<char>, Failure> {
    match row {
        Some(location) => Ok(location),
        None => Err(Failure::NotFound),
    }
}

impl Write {
    /// The statement of a write. `Insert` takes the name first and the
    /// location second, `Update` the location first and the name second.
    pub open spec fn sql_text(self) -> Seq<char> {
        match self {
            Write::Insert => "INSERT INTO times (name, location) VALUES (?1, ?2)"@,
            Write::Update => "UPDATE times SET location = ?1 WHERE name = ?2"@,
        }
    }

    /// The values of a write, in the order of the statement's parameters.
    pub open spec fn values_for(self, name: Seq<char>, location: Seq<char>) -> Seq<Seq<char>> {
        match self {
            Write::Insert => seq![name, location],
            Write::Update => seq![location, name],
        }
    }

    /// Chooses the write from the number of records that have the name.
    pub fn for_count(count: i64) -> (write: Write)
        ensures
            write == write_for(count as int),
    {
        if count == 0 {
            Write::Insert
        } else {
            Write::Update
        }
    }

    /// The statement of this write.
    pub fn sql(&self) -> (sql: &'static str)
        ensures
            sql@ == self.sql_text(),
    {
        match self {
            Write::Insert => "INSERT INTO times (name, location) VALUES (?1, ?2)",
            Write::Update => "UPDATE times SET location = ?1 WHERE name = ?2",
        }
    }

    /// The values to bind to the statement of this write, in order.
    pub fn values<'a>(&self, name: &'a str, location: &'a str) -> (values: Vec<&'a str>)
        ensures
            values@.len() == 2,
            values@.map_values(|value: &str| value@) == self.values_for(name@, location@),
    {
        let values = match self {
            Write::Insert => vec![name, location],
            Write::Update => vec![location, name],
        };
        assert(values@.map_values(|value: &str| value@) =~= self.values_for(name@, location@));
        values
    }
}

/// The statements that change the database, each with the number of values
/// that it binds: making the table binds none, a write binds two.
pub open spec fn is_statement(sql: Seq<char>, values: nat) -> bool {
    ||| sql == create_table_sql() && values == 0
    ||| sql == Write::Insert.sql_text() && values == 2
    ||| sql == Write::Update.sql_text() && values == 2
}

/// The queries that read the database. Each binds one value, the name.
pub open spec fn is_query(sql: Seq<char>) -> bool {
    sql == count_sql() || sql == select_sql()
}

/// Calls `rusqlite::Connection::execute` with the values bound in order to
/// the statement's parameters. It is called only with a statement of the
/// store and as many values as the statement has parameters. Nothing is
/// claimed of the outcome.
#[verifier::external_body]
fn execute(conn: &Connection, sql: &str, values: &Vec<&str>) -> Result<usize, rusqlite::Error>
    requires
        is_statement(sql@, values@.len()),
{
    conn.execute(sql, rusqlite::params_from_iter(values.iter()))
}

/// Calls `rusqlite::Connection::prepare`. It is called only with a query of
/// the store. Nothing is claimed of the outcome.
#[verifier::external_body]
fn prepare<'conn>(conn: &'conn Connection, sql: &str) -> Result<Statement<'conn>, rusqlite::Error>
    requires
        is_query(sql@),
{
    conn.prepare(sql)
}

/// Calls `rusqlite::Statement::query_row` with one value bound and reads the
/// first column of the first row as an integer. Nothing is claimed of the
/// outcome.
#[verifier::external_body]
fn query_integer(statement: &mut Statement<'_>, value: &str) -> Result<i64, rusqlite::Error> {
    statement.query_row((value,), |row| row.get(0))
}

/// Calls `rusqlite::Statement::query` with one value bound, steps to the
/// first row with `Rows::next` and reads its first column as text with
/// `Row::get`; `None` where the query gave no row. Nothing is claimed of the
/// outcome.
#[verifier::external_body]
fn query_text(statement: &mut Statement<'_>, value: &str) -> Result<
    Option<String>,
    rusqlite::Error,
> {
    let mut rows = statement.query((value,))?;
    match rows.next()? {
        Some(row) => Ok(Some(row.get(0)?)),
        None => Ok(None),
    }
}

/// The outcome of a lookup for what the query gave: the location of the row
/// that was found, and `NotFound` where there was none.
pub fn found_location(row: Option<String>) -> (location: Result<String, Failure>)
    ensures
        match row {
            Some(text) => location == Ok::<String, Failure>(text),
            None => location == Err::<String, Failure>(Failure::NotFound),
        },
        shown(location) == lookup_outcome(
            match row {
                Some(text) => Some(text@),
                None => None,
            },
        ),
{
    match row {
        Some(text) => Ok(text),
        None => Err(Failure::NotFound),
    }
}

/// The store: a connection to the database that holds the table.
pub struct DB {
    conn: Connection,
}

impl DB {
    /// The connection that the store works on.
    pub closed spec fn connection(self) -> Connection {
        self.conn
    }

    /// Makes a store on an open connection.
    pub fn new(conn: Connection) -> (store: DB)
        ensures
            store.connection() == conn,
    {
        DB { conn }
    }

    /// Makes the table unless it is there already, so that calling this
    /// again changes nothing. Fails with `StorageUnavailable`, and with
    /// nothing else, where the database refuses.
    pub fn create_table(&self) -> (done: Result<(), Failure>)
        ensures
            done matches Err(failure) ==> failure == Failure::StorageUnavailable,
    {
        let sql = "CREATE TABLE IF NOT EXISTS times (
                id              INTEGER,
                name            TEXT PRIMARY KEY NOT NULL,
                location        TEXT NOT NULL
            )";
        let values: Vec<&str> = Vec::new();
        write_outcome(execute(&self.conn, sql, &values))
    }

    /// Stores `location` under `name`: counts the records that have the
    /// name, then inserts a record if there is none and replaces the
    /// location otherwise. Fails with `StorageUnavailable`, and with nothing
    /// else, where the database refuses one of the two steps.
    pub fn set(&self, name: &str, location: &str) -> (done: Result<(), Failure>)
        ensures
            done matches Err(failure) ==> failure == Failure::StorageUnavailable,
    {
        let mut counting = match prepare(&self.conn, "SELECT COUNT(*) FROM times WHERE name = ?") {
            Ok(statement) => statement,
            Err(_) => {
                return Err(Failure::StorageUnavailable);
            },
        };
        let write = match write_for_counted(query_integer(&mut counting, name)) {
            Ok(write) => write,
            Err(failure) => {
                return Err(failure);
            },
        };
        let values = write.values(name, location);
        write_outcome(execute(&self.conn, write.sql(), &values))
    }

    /// Looks up the location stored under `name`. Fails with `NotFound`
    /// where the query gives no row, and with `StorageUnavailable` where the
    /// database refuses.
    pub fn get(&self, name: &str) -> (location: Result<String, Failure>)
        ensures
            location matches Err(failure) ==> failure == Failure::NotFound || failure
                == Failure::StorageUnavailable,
    {
        let mut selecting = match prepare(
            &self.conn,
            "SELECT location FROM times WHERE name = ?1",
        ) {
            Ok(statement) => statement,
            Err(_) => {
                return Err(Failure::StorageUnavailable);
            },
        };
        lookup_result(query_text(&mut selecting, name))
    }
}

/// The outcome of making the table or of a write for what the database
/// answered: done where it ran the statement, however many records that
/// changed, and `StorageUnavailable` where it refused.
pub fn write_outcome(executed: Result<usize, rusqlite::Error>) -> (done: Result<(), Failure>)
    ensures
        executed is Ok ==> done == Ok::<(), Failure>(()),
        executed is Err ==> done == Err::<(), Failure>(Failure::StorageUnavailable),
{
    match executed {
        Ok(_) => Ok(()),
        Err(_) => Err(Failure::StorageUnavailable),
    }
}

/// The write to make for what the counting query answered: the write that
/// `write_for` gives for the count, and `StorageUnavailable` where the
/// database refused to count.
pub fn write_for_counted(counted: Result<i64, rusqlite::Error>) -> (write: Result<Write, Failure>)
    ensures
        match counted {
            Ok(count) => write == Ok::<Write, Failure>(write_for(count as int)),
            Err(_) => write == Err::<Write, Failure>(Failure::StorageUnavailable),
        },
{
    match counted {
        Ok(count) => Ok(Write::for_count(count)),
        Err(_) => Err(Failure::StorageUnavailable),
    }
}

/// The outcome of a lookup for what the selecting query answered: the
/// location in the row that it gave, `NotFound` where it gave no row, and
/// `StorageUnavailable` where the database refused.
pub fn lookup_result(queried: Result<Option<String>, rusqlite::Error>) -> (location: Result<
    String,
    Failure,
>)
    ensures
        match queried {
            Ok(Some(text)) => location == Ok::<String, Failure>(text),
            Ok(None) => location == Err::<String, Failure>(Failure::NotFound),
            Err(_) => location == Err::<String, Failure>(Failure::StorageUnavailable),
        },
{
    match queried {
        Ok(row) => found_location(row),
        Err(_) => Err(Failure::StorageUnavailable),
    }
}

/// The table as a map from names to locations. A map holds at most one
/// location for a name, as the table's key on `name` does.
pub type Table = Map<Seq<char>, Seq<char>>;

/// What the counting query gives on a table: the number of records that
/// have the name.
pub open spec fn count_of(table: Table, name: Seq<char>) -> int {
    if table.dom().contains(name) {
        1
    } else {
        0
    }
}

/// What the selecting query gives on a table: the location in the record of
/// the name, if there is one.
pub open spec fn row_of(table: Table, name: Seq<char>) -> Option<Seq<char>> {
    if table.dom().contains(name) {
        Some(table[name])
    } else {
        None
    }
}

/// What a write does to a table, or `None` where the write is refused: an
/// insert of a name that is there breaks the key. An update of a name that
/// is not there changes nothing.
pub open spec fn written(table: Table, write: Write, name: Seq<char>, location: Seq<char>)
    -> Option<Table> {
    match write {
        Write::Insert => if table.dom().contains(name) {
            None
        } else {
            Some(table.insert(name, location))
        },
        Write::Update => if table.dom().contains(name) {
            Some(table.insert(name, location))
        } else {
            Some(table)
        },
    }
}

/// The table after `set` has counted and written, or `None` where the write
/// is refused.
pub open spec fn table_after_set(table: Table, name: Seq<char>, location: Seq<char>) -> Option<
    Table,
> {
    written(table, write_for(count_of(table, name)), name, location)
}

/// The outcome of `get` on a table.
pub open spec fn looked_up(table: Table, name: Seq<char>) -> Result<Seq<char>, Failure> {
    lookup_outcome(row_of(table, name))
}

/// On a table, counting first and then writing what `write_for` chooses is
/// never refused. It puts the location under the name and leaves every
/// other record as it was.
pub proof fn lemma_set_upserts(table: Table, name: Seq<char>, location: Seq<char>)
    ensures
        table_after_set(table, name, location) == Some(table.insert(name, location)),
{
}

/// On a table, a location that was set under a name is what a lookup of the
/// name gives, and the lookup of any other name gives what it gave before.
pub proof fn lemma_lookup_after_set(
    table: Table,
    name: Seq<char>,
    location: Seq<char>,
    other: Seq<char>,
)
    ensures
        table_after_set(table, name, location) matches Some(after) && looked_up(after, name)
            == Ok::<Seq<char>, Failure>(location) && (other != name ==> looked_up(after, other)
            == looked_up(table, other)),
{
}

/// On a table, setting twice under one name leaves what setting the second
/// location alone leaves: one record of the name, with the second location.
pub proof fn lemma_set_overwrites(
    table: Table,
    name: Seq<char>,
    first: Seq<char>,
    second: Seq<char>,
)
    ensures
        table_after_set(table, name, first) matches Some(once) && table_after_set(
            once,
            name,
            second,
        ) matches Some(twice) && twice == table_after_set(table, name, second)->Some_0
            && looked_up(twice, name) == Ok::<Seq<char>, Failure>(second) && count_of(
            twice,
            name,
        ) == 1,
{
    let once = table.insert(name, first);
    assert(once.insert(name, second) =~= table.insert(name, second));
}

/// On a table, the lookup of a name that has no record fails with
/// `NotFound`; so does every lookup in a table without records.
pub proof fn lemma_lookup_unknown(table: Table, name: Seq<char>)
    ensures
        !table.dom().contains(name) ==> looked_up(table, name) == Err::<Seq<char>, Failure>(
            Failure::NotFound,
        ),
        looked_up(Map::empty(), name) == Err::<Seq<char>, Failure>(Failure::NotFound),
{
}

} // verus!
