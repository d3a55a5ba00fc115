//! The vault session: the create/open/mutate/close lifecycle of one vault
//! file. Confidentiality is the codec's business and storage is the record
//! store's; what lives here is the bookkeeping between them — the working
//! copy's path, the cost carried over for re-sealing, and the
//! read-before-write checks on record edits.

use vstd::prelude::*;

use crate::crypt::{
    aes256_encrypt, cost_valid, encrypt_post, CryptValue, PLAINTEXT_MAX,
};
use crate::errors::SrpkError;

verus! {

#[verifier::external_type_specification]
#[verifier::external_body]
pub struct ExConnection(sqlite::Connection);

#[verifier::external_type_specification]
#[verifier::external_body]
pub struct ExSqliteError(sqlite::Error);

/// The contents of the record store behind a connection: the value stored
/// under each key, full bytes as stored.
///
/// The contracts over this name hold under the data model's single-owner
/// assumption: the session is the store's only writer. A second connection
/// aliased onto the same working copy is outside them.
pub uninterp spec fn db_records(conn: sqlite::Connection) -> Map<Seq<char>, Seq<char>>;

/// The set of keys named by a listing.
pub open spec fn keys_view(keys: Seq<String>) -> Set<Seq<char>> {
    keys.map_values(|s: String| s@).to_set()
}

/// Text free of NUL characters: only such text survives the record
/// store's read-back unchanged.
pub open spec fn text_ok(s: Seq<char>) -> bool {
    forall|i: int| 0 <= i < s.len() ==> s[i] != '\0'
}

/// Every key in a store is free of NUL characters. Stores are in this
/// state whenever only this session's own edits filled them.
pub open spec fn keys_clean(m: Map<Seq<char>, Seq<char>>) -> bool {
    forall|k: Seq<char>| m.dom().contains(k) ==> text_ok(k)
}

/// The prefix of a text before its first NUL character.
///
/// Writes into the record store are byte-exact, but the store hands text
/// columns back out as C strings, so a read-back stops at the first NUL.
pub open spec fn nul_prefix(s: Seq<char>) -> Seq<char>
    decreases s.len(),
{
    if s.len() == 0 {
        s
    } else if s.first() == '\0' {
        Seq::empty()
    } else {
        seq![s.first()] + nul_prefix(s.drop_first())
    }
}

/// The keys of a store as a listing reads them back: each truncated at
/// its first NUL.
pub open spec fn read_back_keys(dom: Set<Seq<char>>) -> Set<Seq<char>> {
    dom.map(|k: Seq<char>| nul_prefix(k))
}

/// Text without NUL characters reads back unchanged.
pub proof fn lemma_nul_prefix_clean(s: Seq<char>)
    requires
        text_ok(s),
    ensures
        nul_prefix(s) == s,
    decreases s.len(),
{
    if s.len() == 0 {
        assert(nul_prefix(s) =~= s);
    } else {
        assert forall|i: int| 0 <= i < s.drop_first().len() implies s.drop_first()[i] != '\0' by {
            assert(s.drop_first()[i] == s[i + 1]);
        }
        lemma_nul_prefix_clean(s.drop_first());
        assert(nul_prefix(s) =~= s);
    }
}

/// A set of NUL-free keys is unchanged by the read-back truncation.
pub proof fn lemma_read_back_keys_clean(dom: Set<Seq<char>>)
    requires
        forall|k: Seq<char>| dom.contains(k) ==> text_ok(k),
    ensures
        read_back_keys(dom) == dom,
{
    let f = (|k: Seq<char>| nul_prefix(k));
    assert forall|k: Seq<char>| dom.contains(k) implies read_back_keys(dom).contains(k) by {
        lemma_nul_prefix_clean(k);
        assert(dom.contains(k) && k == f(k));
    }
    assert forall|k: Seq<char>| read_back_keys(dom).contains(k) implies dom.contains(k) by {
        let a = choose|a: Seq<char>| dom.contains(a) && k == f(a);
        lemma_nul_prefix_clean(a);
    }
    assert(read_back_keys(dom) =~= dom);
}

/// Relies on `sqlite::open`: opens (creating it if missing) the database
/// file at `path` in read-write mode. What the store holds afterwards
/// depends on the file, so nothing is claimed of the contents.
#[verifier::external_body]
fn db_open(path: &str) -> (r: Result<sqlite::Connection, sqlite::Error>) {
    sqlite::open(path)
}

/// Relies on `Connection::execute` running `CREATE TABLE`: the statement
/// succeeds only where no `srpk` table exists yet, and leaves behind a
/// fresh, empty table.
#[verifier::external_body]
fn db_create_table(conn: &mut sqlite::Connection) -> (r: Result<(), sqlite::Error>)
    ensures
        match r {
            Ok(()) => db_records(*final(conn)) == Map::<Seq<char>, Seq<char>>::empty(),
            Err(_) => true,
        },
{
    conn.execute("CREATE TABLE srpk (key TEXT, value TEXT);")
}

/// Relies on `Connection::prepare` and `Statement::bind_iter`/`next`
/// running the `INSERT` statement: on success the store gains exactly the
/// new row; a failed statement leaves the store unchanged.
#[verifier::external_body]
fn db_insert(conn: &mut sqlite::Connection, key: &str, value: &str) -> (r: Result<
    (),
    sqlite::Error,
>)
    requires
        !db_records(*old(conn)).contains_key(key@),
    ensures
        match r {
            Ok(()) => db_records(*final(conn)) == db_records(*old(conn)).insert(key@, value@),
            Err(_) => db_records(*final(conn)) == db_records(*old(conn)),
        },
{
    let mut statement = conn.prepare("INSERT INTO srpk VALUES (:key, :pass);")?;
    statement.bind_iter::<_, (_, sqlite::Value)>([(":key", key.into()), (":pass", value.into())])?;
    while statement.next()? == sqlite::State::Row {}
    Ok(())
}

/// Relies on `Connection::prepare` and `Statement::bind`/`next`/`read`
/// running the point `SELECT`: the key is bound byte-exact, so a row comes
/// back exactly when the store holds the key; the value column is read
/// back as a C string, truncated at its first NUL.
#[verifier::external_body]
fn db_select(conn: &sqlite::Connection, key: &str) -> (r: Result<Option<String>, sqlite::Error>)
    ensures
        match r {
            Ok(Some(v)) => db_records(*conn).contains_key(key@) && v@ == nul_prefix(
                db_records(*conn)[key@],
            ),
            Ok(None) => !db_records(*conn).contains_key(key@),
            Err(_) => true,
        },
{
    let mut statement = conn.prepare("SELECT value FROM srpk WHERE key = ?;")?;
    statement.bind((1, key))?;
    match statement.next()? {
        sqlite::State::Row => Ok(Some(statement.read::<String, _>("value")?)),
        sqlite::State::Done => Ok(None),
    }
}

/// Relies on `Connection::prepare` and `Statement::bind`/`next` running the
/// `DELETE` statement: on success the store no longer holds the key; a
/// failed statement leaves the store unchanged.
#[verifier::external_body]
fn db_delete(conn: &mut sqlite::Connection, key: &str) -> (r: Result<(), sqlite::Error>)
    ensures
        match r {
            Ok(()) => db_records(*final(conn)) == db_records(*old(conn)).remove(key@),
            Err(_) => db_records(*final(conn)) == db_records(*old(conn)),
        },
{
    let mut statement = conn.prepare("DELETE FROM srpk WHERE key = ?")?;
    statement.bind((1, key))?;
    while statement.next()? == sqlite::State::Row {}
    Ok(())
}

/// Relies on `Connection::prepare` and `Statement::next`/`read` walking
/// the `SELECT key` statement: the rows returned name the stored keys,
/// each read back as a C string, truncated at its first NUL.
#[verifier::external_body]
fn db_keys(conn: &sqlite::Connection) -> (r: Result<Vec<String>, sqlite::Error>)
    ensures
        r matches Ok(keys) ==> keys_view(keys@) == read_back_keys(db_records(*conn).dom()),
{
    let mut statement = conn.prepare("SELECT key FROM srpk;")?;
    let mut keys: Vec<String> = Vec::new();
    while statement.next()? == sqlite::State::Row {
        keys.push(statement.read::<String, _>("key")?);
    }
    Ok(keys)
}

/// Relies on `String::push_str`: appends the slice's characters.
#[verifier::external_body]
fn push_str(s: &mut String, t: &str)
    ensures
        final(s)@ == old(s)@ + t@,
{
    s.push_str(t);
}

/// The path of the working copy: the vault path with a fixed suffix.
pub fn temp_path_of(path: &str) -> (r: String)
    ensures
        r@ == path@ + ".temp"@,
{
    let mut s = path.to_owned();
    push_str(&mut s, ".temp");
    s
}

/// Decide whether `create` may proceed at a path: a vault is never silently
/// overwritten, so an occupied path is refused.
pub fn create_guard(path_occupied: bool, path: &str) -> (r: Result<(), SrpkError>)
    ensures
        match r {
            Ok(()) => !path_occupied,
            Err(e) => path_occupied && (e matches SrpkError::PathTaken(p) && p@ == path@),
        },
{
    if path_occupied {
        return Err(SrpkError::PathTaken(path.to_owned()));
    }
    Ok(())
}

/// Decide whether `open` may proceed: a working copy lying next to the
/// vault signals another live (or crashed) session and is a deliberate
/// safety stop, not cleaned up automatically; a missing vault file cannot
/// be opened.
pub fn open_guard(vault_exists: bool, temp_occupied: bool, path: &str, path_temp: &str) -> (r:
    Result<(), SrpkError>)
    ensures
        match r {
            Ok(()) => vault_exists && !temp_occupied,
            Err(e) => match e {
                SrpkError::PathTaken(p) => temp_occupied && p@ == path_temp@,
                SrpkError::PathEmpty(p) => !vault_exists && !temp_occupied && p@ == path@,
                _ => false,
            },
        },
{
    if temp_occupied {
        return Err(SrpkError::PathTaken(path_temp.to_owned()));
    }
    if !vault_exists {
        return Err(SrpkError::PathEmpty(path.to_owned()));
    }
    Ok(())
}

/// Create a brand-new, empty record store in the file at `path`.
///
/// The store's serialized form is what `create` encrypts into the first
/// envelope. What ends up on disk is the record store's business; only the
/// error classification is stated here.
pub fn init_store(path: &str) -> (r: Result<(), SrpkError>)
    ensures
        r matches Err(e) ==> e matches SrpkError::DBCreate,
{
    let mut conn = match db_open(path) {
        Ok(c) => c,
        Err(_) => {
            return Err(SrpkError::DBCreate);
        },
    };
    match db_create_table(&mut conn) {
        Ok(()) => Ok(()),
        Err(_) => Err(SrpkError::DBCreate),
    }
}

/// An open vault session: a connection to the decrypted working copy,
/// together with everything needed to re-seal it on close.
pub struct Vault {
    conn: sqlite::Connection,
    pass: String,
    path: String,
    path_temp: String,
    cost: u8,
}

impl Vault {
    /// The record store's contents, as the session sees them.
    pub closed spec fn records(self) -> Map<Seq<char>, Seq<char>> {
        db_records(self.conn)
    }

    /// The session's password.
    pub closed spec fn spec_pass(self) -> Seq<char> {
        self.pass@
    }

    /// The vault file's path.
    pub closed spec fn spec_path(self) -> Seq<char> {
        self.path@
    }

    /// The working copy's path.
    pub closed spec fn spec_path_temp(self) -> Seq<char> {
        self.path_temp@
    }

    /// The cost the vault was opened with; re-encryption uses the same one.
    pub closed spec fn spec_cost(self) -> u8 {
        self.cost
    }

    /// A well-formed session: the cost byte is in range and the working
    /// copy sits at the vault path plus the fixed suffix.
    pub open spec fn wf(self) -> bool {
        &&& cost_valid(self.spec_cost())
        &&& self.spec_path_temp() == self.spec_path() + ".temp"@
    }

    /// Bind a session to the working copy that already sits beside the
    /// vault at `path`, opening the record store on it.
    ///
    /// The caller decrypts the vault file and writes the plaintext to the
    /// working copy first; `cost` is the cost byte the envelope carried.
    pub fn attach(path: &str, pass: &str, cost: u8) -> (r: Result<Vault, SrpkError>)
        requires
            cost_valid(cost),
        ensures
            match r {
                Ok(v) => {
                    &&& v.wf()
                    &&& v.spec_path() == path@
                    &&& v.spec_path_temp() == path@ + ".temp"@
                    &&& v.spec_pass() == pass@
                    &&& v.spec_cost() == cost
                },
                Err(e) => e matches SrpkError::DBSQLConn,
            },
    {
        let path_temp = temp_path_of(path);
        let conn = match db_open(path_temp.as_str()) {
            Ok(c) => c,
            Err(_) => {
                return Err(SrpkError::DBSQLConn);
            },
        };
        Ok(Vault { conn, pass: pass.to_owned(), path: path.to_owned(), path_temp, cost })
    }

    /// The vault file's path.
    pub fn path(&self) -> (r: &str)
        ensures
            r@ == self.spec_path(),
    {
        self.path.as_str()
    }

    /// The working copy's path.
    pub fn path_temp(&self) -> (r: &str)
        ensures
            r@ == self.spec_path_temp(),
    {
        self.path_temp.as_str()
    }

    /// Create new password `key` of content `pass` in the vault.
    ///
    /// Fails with `KeyDuplicate` when `key` is already present, leaving the
    /// store unchanged; the check runs before the write, so the stored
    /// value is never overwritten.
    pub fn key_new(&mut self, key: &str, pass: &str) -> (r: Result<(), SrpkError>)
        ensures
            final(self).spec_pass() == old(self).spec_pass(),
            final(self).spec_path() == old(self).spec_path(),
            final(self).spec_path_temp() == old(self).spec_path_temp(),
            final(self).spec_cost() == old(self).spec_cost(),
            match r {
                Ok(()) => {
                    &&& !old(self).records().contains_key(key@)
                    &&& final(self).records() == old(self).records().insert(key@, pass@)
                },
                Err(e) => final(self).records() == old(self).records() && match e {
                    SrpkError::KeyDuplicate(k) => k@ == key@ && old(self).records().contains_key(
                        key@,
                    ),
                    SrpkError::DBSQLConn => true,
                    _ => false,
                },
            },
    {
        match db_select(&self.conn, key) {
            Ok(Some(_)) => {
                return Err(SrpkError::KeyDuplicate(key.to_owned()));
            },
            Ok(None) => {},
            Err(_) => {
                return Err(SrpkError::DBSQLConn);
            },
        }
        match db_insert(&mut self.conn, key, pass) {
            Ok(()) => Ok(()),
            Err(_) => Err(SrpkError::DBSQLConn),
        }
    }

    /// Get password `key` from the vault.
    ///
    /// Absence is a normal outcome, distinct from any store failure:
    /// `None` comes back exactly when the store does not hold the key. The
    /// store reads the value back truncated at its first NUL; a value this
    /// session's own `key_new` stored comes back whole.
    pub fn key_get(&self, key: &str) -> (r: Result<Option<String>, SrpkError>)
        ensures
            match r {
                Ok(Some(v)) => {
                    &&& self.records().contains_key(key@)
                    &&& v@ == nul_prefix(self.records()[key@])
                    &&& text_ok(self.records()[key@]) ==> v@ == self.records()[key@]
                },
                Ok(None) => !self.records().contains_key(key@),
                Err(e) => e matches SrpkError::DBSQLConn,
            },
    {
        match db_select(&self.conn, key) {
            Ok(found) => {
                proof {
                    if found is Some && text_ok(self.records()[key@]) {
                        lemma_nul_prefix_clean(self.records()[key@]);
                    }
                }
                Ok(found)
            },
            Err(_) => Err(SrpkError::DBSQLConn),
        }
    }

    /// Delete password `key` from the vault.
    ///
    /// Fails with `KeyNonExist` when `key` is not present, leaving the
    /// store unchanged.
    pub fn key_del(&mut self, key: &str) -> (r: Result<(), SrpkError>)
        ensures
            final(self).spec_pass() == old(self).spec_pass(),
            final(self).spec_path() == old(self).spec_path(),
            final(self).spec_path_temp() == old(self).spec_path_temp(),
            final(self).spec_cost() == old(self).spec_cost(),
            match r {
                Ok(()) => {
                    &&& old(self).records().contains_key(key@)
                    &&& final(self).records() == old(self).records().remove(key@)
                },
                Err(e) => final(self).records() == old(self).records() && match e {
                    SrpkError::KeyNonExist(k) => k@ == key@ && !old(self).records().contains_key(
                        key@,
                    ),
                    SrpkError::DBSQLConn => true,
                    _ => false,
                },
            },
    {
        match db_select(&self.conn, key) {
            Ok(Some(_)) => {},
            Ok(None) => {
                return Err(SrpkError::KeyNonExist(key.to_owned()));
            },
            Err(_) => {
                return Err(SrpkError::DBSQLConn);
            },
        }
        match db_delete(&mut self.conn, key) {
            Ok(()) => Ok(()),
            Err(_) => Err(SrpkError::DBSQLConn),
        }
    }

    /// List the names of all keys in the vault.
    ///
    /// The listing names the stored keys, each read back truncated at its
    /// first NUL; where every key is NUL-free — as in any store only this
    /// session's own `key_new` filled — that is exactly the stored keys,
    /// as a set. Order is not significant, and an empty listing is valid.
    pub fn key_ls(&self) -> (r: Result<Vec<String>, SrpkError>)
        ensures
            match r {
                Ok(keys) => {
                    &&& keys_view(keys@) == read_back_keys(self.records().dom())
                    &&& keys_clean(self.records()) ==> keys_view(keys@) == self.records().dom()
                },
                Err(e) => e matches SrpkError::DBSQLConn,
            },
    {
        match db_keys(&self.conn) {
            Ok(keys) => {
                proof {
                    if keys_clean(self.records()) {
                        lemma_read_back_keys_clean(self.records().dom());
                    }
                }
                Ok(keys)
            },
            Err(_) => Err(SrpkError::DBSQLConn),
        }
    }

    /// Close the vault, handing back the new envelope if `changed`.
    ///
    /// With `changed` false nothing is re-encrypted and no envelope comes
    /// back: the vault file stays byte-identical. With `changed` true the
    /// working copy's bytes, supplied by the caller, are sealed into a
    /// fresh envelope under the same cost the vault was opened with; the
    /// caller then overwrites the vault file and deletes the working copy.
    pub fn close(self, changed: bool, working: Option<&Vec<u8>>) -> (r: Result<
        Option<Vec<u8>>,
        SrpkError,
    >)
        requires
            self.wf(),
            changed ==> working is Some,
        ensures
            !changed ==> r matches Ok(None),
            match r {
                Ok(out) => match out {
                    None => !changed,
                    Some(env) => changed && (working matches Some(w) && encrypt_post(
                        env@,
                        w@,
                        self.spec_pass(),
                        self.spec_cost(),
                    )),
                },
                Err(e) => changed && match e {
                    SrpkError::AES256Encrypt => working matches Some(w) && w@.len()
                        > PLAINTEXT_MAX,
                    SrpkError::Unknown => true,
                    _ => false,
                },
            },
    {
        if !changed {
            return Ok(None);
        }
        let bytes = match working {
            Some(w) => w,
            None => {
                assert(false);
                return Err(SrpkError::Unknown);
            },
        };
        match aes256_encrypt(bytes, self.pass.as_str(), self.cost) {
            Ok(env) => Ok(Some(env)),
            Err(e) => Err(e),
        }
    }
}

} // verus!
