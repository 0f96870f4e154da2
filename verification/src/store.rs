//! The mapping store: a single `urls(id TEXT PRIMARY KEY, url TEXT NOT NULL)`
//! table in an embedded relational engine, modelled as a map from identifier
//! to URL.

use vstd::prelude::*;

verus! {

#[verifier::external_type_specification]
#[verifier::external_body]
pub struct ExConnection(rusqlite::Connection);

/// The contents of the `urls` table reached through a connection, as a map
/// from identifier to stored URL.
pub uninterp spec fn store_map(conn: rusqlite::Connection) -> Map<Seq<char>, Seq<char>>;

/// The contents of a store that holds nothing.
pub open spec fn empty_store() -> Map<Seq<char>, Seq<char>> {
    Map::empty()
}

/// The contents of a fresh in-memory store right after initialisation:
/// only the seed record.
pub open spec fn seeded_store() -> Map<Seq<char>, Seq<char>> {
    empty_store().insert("rust"@, "https://www.rust-lang.org/"@)
}

/// The outcome of looking an identifier up in the store.
#[derive(Debug)]
pub enum Lookup {
    /// A row exists; the payload is its stored URL.
    Found(String),
    /// The engine reported that no row has this identifier.
    Absent,
    /// The engine failed for some other reason.
    Failed,
}

/// Relies on rusqlite::Connection::execute running `CREATE TABLE urls ...`:
/// it succeeds only where the table does not yet exist, in which case the
/// table is created empty; on failure nothing is changed.
#[verifier::external_body]
pub(crate) fn exec_create_table(conn: &mut rusqlite::Connection) -> (r: Result<(), ()>)
    ensures
        r is Ok ==> store_map(*final(conn)) == empty_store(),
        r is Err ==> store_map(*final(conn)) == store_map(*old(conn)),
{
    match conn.execute("CREATE TABLE urls (id TEXT PRIMARY KEY, url TEXT NOT NULL)", ()) {
        Ok(_) => Ok(()),
        Err(_) => Err(()),
    }
}

/// Relies on rusqlite::Connection::execute running `INSERT INTO urls ...`:
/// the primary key on `id` makes the insert fail on a duplicate identifier,
/// and a failed insert leaves the table as it was.
#[verifier::external_body]
pub(crate) fn exec_insert(conn: &mut rusqlite::Connection, id: &str, url: &str) -> (r: Result<
    (),
    (),
>)
    ensures
        r is Ok ==> !store_map(*old(conn)).contains_key(id@) && store_map(*final(conn))
            == store_map(*old(conn)).insert(id@, url@),
        r is Err ==> store_map(*final(conn)) == store_map(*old(conn)),
{
    match conn.execute("INSERT INTO urls (id, url) VALUES (?1, ?2)", (id, url)) {
        Ok(_) => Ok(()),
        Err(_) => Err(()),
    }
}

/// Relies on rusqlite::Connection::query_row running `SELECT url FROM urls
/// WHERE id = ?1`: it hands back the stored URL when a row with this
/// identifier exists, and `Err(QueryReturnedNoRows)` exactly when none does.
#[verifier::external_body]
pub(crate) fn exec_lookup(conn: &rusqlite::Connection, id: &str) -> (r: Lookup)
    ensures
        r matches Lookup::Found(url) ==> store_map(*conn).contains_key(id@) && url@ == store_map(
            *conn,
        )[id@],
        r is Absent ==> !store_map(*conn).contains_key(id@),
{
    match conn.query_row(
        "SELECT url FROM urls WHERE id = ?1",
        (id,),
        |row| row.get::<usize, String>(0),
    ) {
        Ok(url) => Lookup::Found(url),
        Err(rusqlite::Error::QueryReturnedNoRows) => Lookup::Absent,
        Err(_) => Lookup::Failed,
    }
}

/// Creates the schema on a fresh store and seeds it with the built-in
/// record `(rust, https://www.rust-lang.org/)`.
pub fn init_db(conn: &mut rusqlite::Connection) -> (r: Result<(), ()>)
    ensures
        r is Ok ==> store_map(*final(conn)) == seeded_store(),
        r is Err ==> store_map(*final(conn)) == store_map(*old(conn)) || store_map(*final(conn))
            == empty_store(),
{
    match exec_create_table(conn) {
        Ok(()) => exec_insert(conn, "rust", "https://www.rust-lang.org/"),
        Err(()) => Err(()),
    }
}

} // verus!
