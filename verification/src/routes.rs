//! The service's route logic: retrieval and creation of mappings, the
//! stub for user-chosen identifiers, the catch-all body, and the
//! process-wide configuration record.

use vstd::prelude::*;
use vstd::string::*;

use crate::id::{is_minted_char, Id};
use crate::store::{exec_insert, exec_lookup, store_map, Lookup};
use crate::url::Data;

verus! {

/// The process-wide configuration: the public base address echoed in
/// create responses, and the length of minted identifiers.
pub struct Config {
    pub address: String,
    pub id_length: usize,
}

impl Config {
    /// A usable configuration: identifiers have at least one character.
    pub open spec fn wf(&self) -> bool {
        self.id_length >= 1
    }
}

/// Builds the configuration from the recognised keys, with the documented
/// defaults where a key is missing: address `http://localhost:8000`,
/// identifier length 5.
pub fn init_config(display_address: Option<String>, id_length: Option<i64>) -> (c: Config)
    ensures
        c.address@ == (match display_address {
            Some(a) => a@,
            None => "http://localhost:8000"@,
        }),
        c.id_length == (match id_length {
            Some(n) => n as usize,
            None => 5usize,
        }),
{
    let address = match display_address {
        Some(a) => a,
        None => "http://localhost:8000".to_owned(),
    };
    let id_length = match id_length {
        Some(n) => #[verifier::truncate] (n as usize),
        None => 5,
    };
    Config { address, id_length }
}

/// What a lookup in store contents `m` yields for identifier `id`.
pub open spec fn lookup_spec(m: Map<Seq<char>, Seq<char>>, id: Seq<char>) -> Option<Seq<char>> {
    if m.contains_key(id) {
        Some(m[id])
    } else {
        None
    }
}

/// Looks an identifier up in the store.
pub fn get_url(id: &Id, conn: &rusqlite::Connection) -> (r: Lookup)
    ensures
        r matches Lookup::Found(url) ==> store_map(*conn).contains_key(id@) && url@ == store_map(
            *conn,
        )[id@],
        r is Absent ==> !store_map(*conn).contains_key(id@),
{
    exec_lookup(conn, id.as_str())
}

/// Inserts a fresh mapping; the store's unique-key rule makes the insert
/// fail when the identifier is already taken.
pub fn insert_url(id: &Id, url: &Data, conn: &mut rusqlite::Connection) -> (r: Result<(), ()>)
    ensures
        r is Ok ==> !store_map(*old(conn)).contains_key(id@) && store_map(*final(conn))
            == store_map(*old(conn)).insert(id@, url.url@),
        r is Err ==> store_map(*final(conn)) == store_map(*old(conn)),
{
    exec_insert(conn, id.as_str(), url.as_str())
}

/// How a retrieval responds to each store answer: a redirect target for a
/// row that was found, nothing for an absent row or a failed read.
pub open spec fn retrieve_post(l: Lookup, r: Option<String>) -> bool {
    match l {
        Lookup::Found(url) => r matches Some(target) && target@ == url@,
        Lookup::Absent => r is None,
        Lookup::Failed => r is None,
    }
}

/// Turns a store answer into the retrieval response.
pub fn retrieve_decision(l: Lookup) -> (r: Option<String>)
    ensures
        retrieve_post(l, r),
{
    match l {
        Lookup::Found(url) => Some(url),
        Lookup::Absent => None,
        Lookup::Failed => None,
    }
}

/// Retrieves the URL stored under an identifier: the redirect target on a
/// hit, nothing on a miss or a failed read.
pub fn retrieve(id: &Id, conn: &rusqlite::Connection) -> (r: Option<String>)
    ensures
        r matches Some(target) ==> store_map(*conn).contains_key(id@) && target@ == store_map(
            *conn,
        )[id@],
        !store_map(*conn).contains_key(id@) ==> r is None,
{
    let l = get_url(id, conn);
    retrieve_decision(l)
}

/// The payload of a successful create: the public short link and the
/// response body, which echoes the admitted URL.
#[derive(Debug)]
pub struct CreatedResponse {
    pub location: String,
    pub body: String,
}

/// What a create request does to the store and reports back, for store
/// contents `m0` before and `m1` after. On success the mapping is fresh
/// and inserted, the short link is `<address>/<id>`, and the body echoes
/// the URL; on failure the store is unchanged, and the insert-failure
/// message comes only where the identifier was free.
pub open spec fn create_post(
    m0: Map<Seq<char>, Seq<char>>,
    m1: Map<Seq<char>, Seq<char>>,
    id: Seq<char>,
    url: Seq<char>,
    address: Seq<char>,
    r: Result<CreatedResponse, &'static str>,
) -> bool {
    match r {
        Ok(c) => {
            &&& !m0.contains_key(id)
            &&& m1 == m0.insert(id, url)
            &&& c.location@ == address + "/"@ + id
            &&& c.body@ == url
        },
        Err(e) => {
            &&& m1 == m0
            &&& (e@ == "id already exist"@ || e@ == "cannot create id"@)
            &&& (e@ == "cannot create id"@ ==> !m0.contains_key(id))
        },
    }
}

/// Creates a mapping under the given identifier: a single attempt, with
/// the documented collision and failure messages.
pub fn create_using(
    id: &Id,
    url: &Data,
    conn: &mut rusqlite::Connection,
    config: &Config,
) -> (r: Result<CreatedResponse, &'static str>)
    ensures
        create_post(
            store_map(*old(conn)),
            store_map(*final(conn)),
            id@,
            url.url@,
            config.address@,
            r,
        ),
{
    match get_url(id, conn) {
        Lookup::Absent => {
            match insert_url(id, url, conn) {
                Ok(()) => {
                    let mut location = config.address.clone();
                    location.append("/");
                    location.append(id.as_str());
                    let body = url.as_str().to_owned();
                    Ok(CreatedResponse { location, body })
                },
                Err(()) => Err("cannot create id"),
            }
        },
        _ => {
            proof {
                reveal_strlit("id already exist");
                reveal_strlit("cannot create id");
                assert("id already exist"@[0] == 'i');
                assert("cannot create id"@[0] == 'c');
            }
            Err("id already exist")
        },
    }
}

/// Handles `POST /`: mints an identifier of the configured length and
/// attempts to create the mapping under it.
pub fn create(url: &Data, conn: &mut rusqlite::Connection, config: &Config) -> (r: Result<
    CreatedResponse,
    &'static str,
>)
    requires
        config.wf(),
    ensures
        exists|id: Seq<char>|
            {
                &&& #[trigger] create_post(
                    store_map(*old(conn)),
                    store_map(*final(conn)),
                    id,
                    url.url@,
                    config.address@,
                    r,
                )
                &&& id.len() == config.id_length
                &&& forall|i: int| 0 <= i < id.len() ==> is_minted_char(id[i])
            },
{
    let id = Id::new(config.id_length);
    let r = create_using(&id, url, conn, config);
    proof {
        assert(create_post(
            store_map(*old(conn)),
            store_map(*final(conn)),
            id@,
            url.url@,
            config.address@,
            r,
        ));
    }
    r
}

/// Handles `POST /<id>`, reserved for user-chosen identifiers.
pub fn create_with_id(_id: &Id, _url: &Data) -> (r: String)
    ensures
        r@ == "another unimplemented"@,
{
    "another unimplemented".to_owned()
}

/// The catch-all body for a request no route answered.
pub fn not_found(uri: &str) -> (r: String)
    ensures
        r@ == "No url found for "@ + uri@,
{
    let mut body = "No url found for ".to_owned();
    body.append(uri);
    body
}

/// Round trip: a create that reports success has stored exactly the pair
/// it reports, so a retrieval of the fresh identifier on the new store
/// finds the admitted URL, and the reported short link is the address
/// followed by the identifier.
pub proof fn lemma_create_round_trip(
    m0: Map<Seq<char>, Seq<char>>,
    m1: Map<Seq<char>, Seq<char>>,
    id: Seq<char>,
    url: Seq<char>,
    address: Seq<char>,
    r: Result<CreatedResponse, &'static str>,
)
    requires
        create_post(m0, m1, id, url, address, r),
        r is Ok,
    ensures
        lookup_spec(m1, id) == Some(url),
        r matches Ok(c) ==> c.location@ == address + "/"@ + id && c.body@ == url,
{
}

/// Idempotence of reads: two retrievals that saw the same store answer
/// respond identically, byte for byte.
pub proof fn lemma_reads_idempotent(l: Lookup, r1: Option<String>, r2: Option<String>)
    requires
        retrieve_post(l, r1),
        retrieve_post(l, r2),
    ensures
        r1 is Some <==> r2 is Some,
        r1 matches Some(a) ==> (r2 matches Some(b) && a@ == b@),
{
}

/// Collision: a create under an identifier that the store already holds
/// reports `id already exist` and leaves the store, the stored mapping
/// included, exactly as it was.
pub proof fn lemma_collision_preserves_store(
    m0: Map<Seq<char>, Seq<char>>,
    m1: Map<Seq<char>, Seq<char>>,
    id: Seq<char>,
    url: Seq<char>,
    address: Seq<char>,
    r: Result<CreatedResponse, &'static str>,
)
    requires
        create_post(m0, m1, id, url, address, r),
        m0.contains_key(id),
    ensures
        r matches Err(e) && e@ == "id already exist"@,
        m1 == m0,
        lookup_spec(m1, id) == lookup_spec(m0, id),
{
}

} // verus!
