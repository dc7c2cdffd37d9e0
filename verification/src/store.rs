//! The client's database.

use sqlx::sqlite::SqliteConnectOptions;
use vstd::prelude::*;
use vstd::utf8::{decode_utf8, encode_utf8, valid_utf8};

use crate::bytes::copy_bytes;
use crate::identity::OnNewIdentity;
use crate::registration::RegistrationData;
use crate::statement::{lemma_bound_values, SqlValue, SqlValueView, Statement};

verus! {

pub const DELETE_EVERY_VALUE: &'static str = "DELETE FROM kv";

pub const SELECT_REGISTRATION: &'static str = "SELECT value FROM kv WHERE key = 'registration'";

pub const REPLACE_REGISTRATION: &'static str =
    "INSERT OR REPLACE INTO kv (key, value) VALUES ('registration', ?)";

pub const DELETE_REGISTRATION: &'static str = "DELETE FROM kv WHERE key = 'registration'";

pub const DELETE_SESSIONS: &'static str = "DELETE FROM sessions";

pub const DELETE_IDENTITIES: &'static str = "DELETE FROM identities";

pub const DELETE_PRE_KEYS: &'static str = "DELETE FROM pre_keys";

pub const DELETE_SIGNED_PRE_KEYS: &'static str = "DELETE FROM signed_pre_keys";

pub const DELETE_KYBER_PRE_KEYS: &'static str = "DELETE FROM kyber_pre_keys";

pub const DELETE_SENDER_KEYS: &'static str = "DELETE FROM sender_keys";

pub const REPLACE_VALUE: &'static str = "INSERT OR REPLACE INTO kv (key, value) VALUES (?, ?)";

pub const SELECT_SENDER_CERTIFICATE: &'static str =
    "SELECT value FROM kv WHERE key = 'sender_certificate' LIMIT 1";

pub const REPLACE_SENDER_CERTIFICATE: &'static str =
    "INSERT OR REPLACE INTO kv (key, value) VALUES ('sender_certificate', ?)";

pub const SELECT_MASTER_KEY: &'static str =
    "SELECT value FROM kv WHERE key = 'master_key' LIMIT 1";

pub const REPLACE_MASTER_KEY: &'static str =
    "INSERT OR REPLACE INTO kv (key, value) VALUES ('master_key', ?)";

pub const DELETE_MASTER_KEY: &'static str = "DELETE FROM kv WHERE key = 'master_key'";

pub const SELECT_ACCOUNT_ENTROPY_POOL: &'static str =
    "SELECT value FROM kv WHERE key = 'account_entropy_pool' LIMIT 1";

pub const REPLACE_ACCOUNT_ENTROPY_POOL: &'static str =
    "INSERT OR REPLACE INTO kv (key, value) VALUES ('account_entropy_pool', ?)";

pub const DELETE_ACCOUNT_ENTROPY_POOL: &'static str =
    "DELETE FROM kv WHERE key = 'account_entropy_pool'";

/// How many connections to the database are open at a time.
///
/// Signal protocol state uses read-modify-write transactions. Multiple SQLite connections can race
/// those transactions and return `SQLITE_BUSY` even with WAL and a busy timeout, so access is
/// serialized at the pool boundary.
pub const MAX_CONNECTIONS: u32 = 1;

/// An error of the database.
#[derive(Clone, Copy, Debug, PartialEq, Eq, Structural)]
pub enum SqliteStoreError {
    /// A value does not have the form in which it is stored.
    InvalidFormat,
    /// A text is not the URL of a database.
    InvalidUrl,
}

/// The client's database: what is asked of it, and how its answers are read.
#[derive(Clone, Debug)]
pub struct SqliteStore {
    pub trust_new_identities: OnNewIdentity,
}

/// How the database keeps its journal.
#[derive(Clone, Copy, Debug, PartialEq, Eq, Structural)]
pub enum JournalMode {
    /// The one that the options have.
    Unchanged,
    Wal,
}

/// When the database waits for the disk.
#[derive(Clone, Copy, Debug, PartialEq, Eq, Structural)]
pub enum Synchronous {
    /// As the options have it.
    Unchanged,
    Full,
}

/// What is set on any options, and how many connections there may be.
#[derive(Clone, Copy, Debug, PartialEq, Eq, Structural)]
pub struct PoolPlan {
    pub journal_mode: JournalMode,
    pub synchronous: Synchronous,
    pub max_connections: u32,
}

impl PoolPlan {
    /// Whether the database is used over one connection only, with a write-ahead log, and waits for
    /// the disk.
    pub open spec fn is_serialized(self) -> bool {
        &&& self.journal_mode is Wal
        &&& self.synchronous is Full
        &&& self.max_connections == 1
    }
}

/// What is set on the options with which the database is opened, and how it is then used.
#[derive(Clone, Debug)]
pub struct OpenPlan {
    pub create_if_missing: bool,
    pub foreign_keys: bool,
    /// The value of the `key` pragma of an encrypted database.
    pub key_pragma: Option<String>,
    pub pool: PoolPlan,
    pub trust_new_identities: OnNewIdentity,
}

impl OpenPlan {
    /// Whether a database is created if need be, checks its foreign keys, is used over one
    /// connection only, and treats new identities in the given way.
    pub open spec fn opens(self, trust_new_identities: OnNewIdentity) -> bool {
        &&& self.create_if_missing
        &&& self.foreign_keys
        &&& self.pool.is_serialized()
        &&& self.trust_new_identities == trust_new_identities
    }
}

/// `sqlx::sqlite::SqliteConnectOptions`: the options with which a database is opened. Nothing is
/// known of its inside but what [`database_path`] and [`database_settings`] name.
#[verifier::external_type_specification]
#[verifier::external_body]
pub struct ExSqliteConnectOptions(sqlx::sqlite::SqliteConnectOptions);

/// The file name that options hold: what `SqliteConnectOptions::get_filename` gives.
pub uninterp spec fn database_path(options: SqliteConnectOptions) -> Seq<char>;

/// What options hold besides the file name that a URL can set, as a text: the fields `in_memory`,
/// `read_only`, `create_if_missing`, `shared_cache`, `immutable` and `vfs`.
pub uninterp spec fn database_settings(options: SqliteConnectOptions) -> Seq<char>;

/// The file name and the settings that the URL of a database tells; nothing if a text is not such a
/// URL. For the database `:memory:` the file name has no meaning.
pub uninterp spec fn parsed_url(url: Seq<char>) -> Option<(Seq<char>, Seq<char>)>;

/// Whether a text is the URL of a database.
pub open spec fn is_database_url(url: Seq<char>) -> bool {
    parsed_url(url) is Some
}

/// Whether a text holds neither parameters nor encoded characters.
pub open spec fn is_plain_url(url: Seq<char>) -> bool {
    forall|i: int| 0 <= i < url.len() ==> #[trigger] url[i] != '?' && url[i] != '%'
}

/// A text without a scheme at its start, however often it stands there.
pub open spec fn without_scheme(url: Seq<char>, scheme: Seq<char>) -> Seq<char>
    decreases url.len(),
{
    if scheme.len() > 0 && scheme.is_prefix_of(url) {
        without_scheme(url.skip(scheme.len() as int), scheme)
    } else {
        url
    }
}

/// A text up to its first question mark.
pub open spec fn before_parameters(text: Seq<char>) -> Seq<char>
    decreases text.len(),
{
    if text.len() == 0 || text[0] == '?' {
        Seq::empty()
    } else {
        seq![text[0]] + before_parameters(text.skip(1))
    }
}

/// The part of a URL that names the database.
pub open spec fn database_part(url: Seq<char>) -> Seq<char> {
    before_parameters(without_scheme(without_scheme(url, "sqlite://"@), "sqlite:"@))
}

/// Whether a URL names the database `:memory:`.
pub open spec fn is_memory_url(url: Seq<char>) -> bool {
    database_part(url) == ":memory:"@
}

/// Whether a URL names a file as it stands, without encoded characters.
pub open spec fn names_file(url: Seq<char>) -> bool {
    !is_memory_url(url) && !database_part(url).contains('%')
}

/// Whether options are those that a URL tells. The file name of the database `:memory:` is left open,
/// since it holds a number that is new every time.
pub open spec fn are_options_of(options: SqliteConnectOptions, url: Seq<char>) -> bool {
    &&& parsed_url(url) matches Some((path, settings)) && {
        &&& database_settings(options) == settings
        &&& !is_memory_url(url) ==> database_path(options) == path
    }
    &&& names_file(url) ==> database_path(options) == database_part(url)
}

/// Calls `str::parse` for `SqliteConnectOptions`. Whether there are options, and their settings,
/// depend on the text alone, and so does their file name, except for the database `:memory:`, whose
/// file name is left unsaid: it holds a number that is new at every call. The file name is the part
/// of the text that names the database, behind the schemes and before the parameters, where it holds
/// no encoded characters. A text without parameters and encoded characters always names a database.
#[verifier::external_body]
fn parse_url(url: &str) -> (options: Option<SqliteConnectOptions>)
    ensures
        options is Some <==> parsed_url(url@) is Some,
        is_plain_url(url@) ==> options is Some,
        options matches Some(o) ==> database_settings(o) == (parsed_url(url@)->0).1,
        options matches Some(o) ==> (!is_memory_url(url@) ==> database_path(o) == (parsed_url(
            url@,
        )->0).0),
        options matches Some(o) ==> (names_file(url@) ==> database_path(o) == database_part(url@)),
{
    url.parse().ok()
}

/// Taking schemes from a URL without parameters and encoded characters adds none.
proof fn lemma_scheme_leaves_plain(url: Seq<char>, scheme: Seq<char>)
    requires
        is_plain_url(url),
    ensures
        is_plain_url(without_scheme(url, scheme)),
    decreases url.len(),
{
    if scheme.len() > 0 && scheme.is_prefix_of(url) {
        lemma_scheme_leaves_plain(url.skip(scheme.len() as int), scheme);
    }
}

/// A text without parameters ends where it ends.
proof fn lemma_plain_text_is_whole(text: Seq<char>)
    requires
        is_plain_url(text),
    ensures
        before_parameters(text) == text,
    decreases text.len(),
{
    if text.len() > 0 {
        lemma_plain_text_is_whole(text.skip(1));
        assert(text == seq![text[0]] + text.skip(1));
    }
}

/// A URL without parameters and encoded characters names the file that its scheme is followed by,
/// unless it names the database `:memory:`.
pub proof fn law_plain_url_names_a_file(url: Seq<char>)
    requires
        is_plain_url(url),
    ensures
        database_part(url) == without_scheme(without_scheme(url, "sqlite://"@), "sqlite:"@),
        !is_memory_url(url) ==> names_file(url),
{
    lemma_scheme_leaves_plain(url, "sqlite://"@);
    lemma_scheme_leaves_plain(without_scheme(url, "sqlite://"@), "sqlite:"@);
    lemma_plain_text_is_whole(without_scheme(without_scheme(url, "sqlite://"@), "sqlite:"@));
}

/// A text with every quote doubled.
pub open spec fn escaped(text: Seq<char>) -> Seq<char>
    decreases text.len(),
{
    if text.len() == 0 {
        Seq::empty()
    } else if text.last() == '\'' {
        escaped(text.drop_last()).push('\'').push('\'')
    } else {
        escaped(text.drop_last()).push(text.last())
    }
}

/// A text as a literal: in quotes, with every quote in it doubled.
pub open spec fn quoted(text: Seq<char>) -> Seq<char> {
    seq!['\''] + escaped(text) + seq!['\'']
}

/// Writes a text as a literal.
pub fn quote(text: &str) -> (literal: String)
    ensures
        literal@ == quoted(text@),
{
    proof {
        reveal_strlit("'");
        reveal_strlit("''");
        assert("'"@ =~= seq!['\'']);
        assert("''"@ =~= seq!['\'', '\'']);
    }
    let mut literal = "'".to_owned();
    let length: usize = text.unicode_len();
    let mut index: usize = 0;
    proof {
        assert(seq!['\''] + escaped(text@.take(0)) =~= seq!['\'']);
    }
    while index < length
        invariant
            index <= length,
            length == text@.len(),
            "''"@ == seq!['\'', '\''],
            literal@ == seq!['\''] + escaped(text@.take(index as int)),
        decreases length - index,
    {
        let ghost before = literal@;
        proof {
            assert(text@.take(index + 1).drop_last() =~= text@.take(index as int));
            assert(text@.take(index + 1).last() == text@[index as int]);
        }
        if text.get_char(index) == '\'' {
            literal.append("''");
            assert(literal@ =~= seq!['\''] + escaped(text@.take(index + 1)));
        } else {
            literal.append(text.substring_char(index, index + 1));
            assert(text@.subrange(index as int, index + 1) =~= seq![text@[index as int]]);
            assert(literal@ =~= seq!['\''] + escaped(text@.take(index + 1)));
        }
        index += 1;
    }
    proof {
        assert(text@.take(index as int) =~= text@);
    }
    literal.append("'");
    literal
}

/// What a value that was read and, if there was one, parsed comes to.
pub fn parsed_value<T>(value: Option<Option<T>>) -> (parsed: Result<Option<T>, SqliteStoreError>)
    ensures
        parsed == match value {
            None => Ok::<Option<T>, SqliteStoreError>(None),
            Some(Some(v)) => Ok(Some(v)),
            Some(None) => Err(SqliteStoreError::InvalidFormat),
        },
{
    match value {
        None => Ok(None),
        Some(Some(value)) => Ok(Some(value)),
        Some(None) => Err(SqliteStoreError::InvalidFormat),
    }
}

/// Calls `str::from_utf8`: the text that bytes encode, if they are valid UTF-8.
#[verifier::external_body]
fn text_from_utf8(bytes: &[u8]) -> (text: Option<&str>)
    ensures
        text is Some <==> valid_utf8(bytes@),
        text matches Some(t) ==> t@ == decode_utf8(bytes@),
{
    std::str::from_utf8(bytes).ok()
}

/// The text of a stored account entropy pool.
pub fn stored_pool_text(value: Option<Vec<u8>>) -> (text: Result<Option<String>, SqliteStoreError>)
    ensures
        match (value, text) {
            (None, t) => t == Ok::<_, SqliteStoreError>(None::<String>),
            (Some(bytes), Ok(t)) => {
                &&& valid_utf8(bytes@)
                &&& t matches Some(pool) && pool@ == decode_utf8(bytes@)
            },
            (Some(bytes), Err(error)) => error is InvalidFormat && !valid_utf8(bytes@),
        },
{
    match value {
        None => Ok(None),
        Some(bytes) => match text_from_utf8(bytes.as_slice()) {
            Some(text) => Ok(Some(text.to_owned())),
            None => Err(SqliteStoreError::InvalidFormat),
        },
    }
}

impl SqliteStore {
    /// A database that treats new identities in the given way.
    pub fn new(trust_new_identities: OnNewIdentity) -> (store: Self)
        ensures
            store.trust_new_identities == trust_new_identities,
    {
        SqliteStore { trust_new_identities }
    }

    /// How to open a database that is not encrypted.
    pub fn open(url: &str, trust_new_identities: OnNewIdentity) -> (opened: Result<
        (SqliteConnectOptions, OpenPlan),
        SqliteStoreError,
    >)
        ensures
            opened is Ok <==> is_database_url(url@),
            is_plain_url(url@) ==> opened is Ok,
            is_plain_url(url@) && !is_memory_url(url@) ==> (opened matches Ok((options, _))
                && database_path(options) == database_part(url@)),
            match opened {
                Ok((options, plan)) => {
                    &&& are_options_of(options, url@)
                    &&& plan.opens(trust_new_identities)
                    &&& plan.key_pragma is None
                },
                Err(error) => error is InvalidUrl,
            },
    {
        SqliteStore::open_with_passphrase(url, None, trust_new_identities)
    }

    /// How to open a database that may be encrypted: with the options that its URL tells, and what
    /// is to be set on them.
    pub fn open_with_passphrase(
        url: &str,
        passphrase: Option<&str>,
        trust_new_identities: OnNewIdentity,
    ) -> (opened: Result<(SqliteConnectOptions, OpenPlan), SqliteStoreError>)
        ensures
            opened is Ok <==> is_database_url(url@),
            is_plain_url(url@) ==> opened is Ok,
            is_plain_url(url@) && !is_memory_url(url@) ==> (opened matches Ok((options, _))
                && database_path(options) == database_part(url@)),
            match opened {
                Ok((options, plan)) => {
                    &&& are_options_of(options, url@)
                    &&& plan.opens(trust_new_identities)
                    &&& match passphrase {
                        Some(p) => plan.key_pragma matches Some(key) && key@ == quoted(p@),
                        None => plan.key_pragma is None,
                    }
                },
                Err(error) => error is InvalidUrl,
            },
    {
        proof {
            if is_plain_url(url@) {
                law_plain_url_names_a_file(url@);
            }
        }
        let key_pragma = match passphrase {
            Some(passphrase) => Some(quote(passphrase)),
            None => None,
        };
        let options = match parse_url(url) {
            Some(options) => options,
            None => {
                return Err(SqliteStoreError::InvalidUrl);
            },
        };
        let plan = OpenPlan {
            create_if_missing: true,
            foreign_keys: true,
            key_pragma,
            pool: SqliteStore::open_with_options(),
            trust_new_identities,
        };
        Ok((options, plan))
    }

    /// How to open a database with any options.
    pub fn open_with_options() -> (plan: PoolPlan)
        ensures
            plan.is_serialized(),
    {
        PoolPlan {
            journal_mode: JournalMode::Wal,
            synchronous: Synchronous::Full,
            max_connections: MAX_CONNECTIONS,
        }
    }

    /// Removes every value of the client's state.
    pub fn clear(&self) -> (statement: Statement)
        ensures
            statement.runs(DELETE_EVERY_VALUE@, Seq::empty()),
    {
        Statement::plain(DELETE_EVERY_VALUE)
    }

    /// Reads the registration.
    pub fn load_registration_data(&self) -> (statement: Statement)
        ensures
            statement.runs(SELECT_REGISTRATION@, Seq::empty()),
    {
        Statement::plain(SELECT_REGISTRATION)
    }

    /// Stores a registration, written as text.
    pub fn save_registration_data(&self, value: String) -> (statement: Statement)
        ensures
            statement.runs(REPLACE_REGISTRATION@, seq![SqlValueView::Text(value@)]),
    {
        let ghost text = value@;
        let statement = Statement::plain(REPLACE_REGISTRATION).bind(SqlValue::Text(value));
        assert(Seq::<SqlValueView>::empty().push(SqlValueView::Text(text))
            =~= seq![SqlValueView::Text(text)]);
        statement
    }

    /// Whether an account is registered, by what came of reading the registration.
    pub fn is_registered<E>(&self, loaded: &Result<Option<RegistrationData>, E>) -> (registered:
        bool)
        ensures
            registered <==> (*loaded matches Ok(Some(_))),
    {
        match loaded {
            Ok(data) => data.is_some(),
            Err(_) => false,
        }
    }

    /// Removes the registration and all protocol state that belongs to it. All of it happens in
    /// one transaction.
    pub fn clear_registration(&self) -> (statements: Vec<Statement>)
        ensures
            statements@.len() == 7,
            statements@[0].runs(DELETE_REGISTRATION@, Seq::empty()),
            statements@[1].runs(DELETE_SESSIONS@, Seq::empty()),
            statements@[2].runs(DELETE_IDENTITIES@, Seq::empty()),
            statements@[3].runs(DELETE_PRE_KEYS@, Seq::empty()),
            statements@[4].runs(DELETE_SIGNED_PRE_KEYS@, Seq::empty()),
            statements@[5].runs(DELETE_KYBER_PRE_KEYS@, Seq::empty()),
            statements@[6].runs(DELETE_SENDER_KEYS@, Seq::empty()),
    {
        let mut statements: Vec<Statement> = Vec::new();
        statements.push(Statement::plain(DELETE_REGISTRATION));
        statements.push(Statement::plain(DELETE_SESSIONS));
        statements.push(Statement::plain(DELETE_IDENTITIES));
        statements.push(Statement::plain(DELETE_PRE_KEYS));
        statements.push(Statement::plain(DELETE_SIGNED_PRE_KEYS));
        statements.push(Statement::plain(DELETE_KYBER_PRE_KEYS));
        statements.push(Statement::plain(DELETE_SENDER_KEYS));
        statements
    }

    /// Stores a value under a key.
    fn set_value(&self, key: &str, value: Vec<u8>) -> (statement: Statement)
        ensures
            statement.runs(
                REPLACE_VALUE@,
                seq![SqlValueView::Text(key@), SqlValueView::Blob(value@)],
            ),
    {
        let ghost bytes = value@;
        let statement = Statement::plain(REPLACE_VALUE).bind(SqlValue::Text(key.to_owned())).bind(
            SqlValue::Blob(value),
        );
        assert(Seq::<SqlValueView>::empty().push(SqlValueView::Text(key@)).push(
            SqlValueView::Blob(bytes),
        ) =~= seq![SqlValueView::Text(key@), SqlValueView::Blob(bytes)]);
        statement
    }

    /// Stores the serialized key pair of the account identity under the key for it.
    pub fn set_aci_identity_key_pair(&self, key: &str, key_pair: Vec<u8>) -> (statement: Statement)
        ensures
            statement.runs(
                REPLACE_VALUE@,
                seq![SqlValueView::Text(key@), SqlValueView::Blob(key_pair@)],
            ),
    {
        self.set_value(key, key_pair)
    }

    /// Stores the serialized key pair of the phone number identity under the key for it.
    pub fn set_pni_identity_key_pair(&self, key: &str, key_pair: Vec<u8>) -> (statement: Statement)
        ensures
            statement.runs(
                REPLACE_VALUE@,
                seq![SqlValueView::Text(key@), SqlValueView::Blob(key_pair@)],
            ),
    {
        self.set_value(key, key_pair)
    }

    /// Reads the sender certificate.
    pub fn sender_certificate(&self) -> (statement: Statement)
        ensures
            statement.runs(SELECT_SENDER_CERTIFICATE@, Seq::empty()),
    {
        Statement::plain(SELECT_SENDER_CERTIFICATE)
    }

    /// Stores a serialized sender certificate.
    pub fn save_sender_certificate(&self, certificate: Vec<u8>) -> (statement: Statement)
        ensures
            statement.runs(REPLACE_SENDER_CERTIFICATE@, seq![SqlValueView::Blob(certificate@)]),
    {
        let ghost bytes = certificate@;
        let statement = Statement::plain(REPLACE_SENDER_CERTIFICATE).bind(
            SqlValue::Blob(certificate),
        );
        assert(Seq::<SqlValueView>::empty().push(SqlValueView::Blob(bytes))
            =~= seq![SqlValueView::Blob(bytes)]);
        statement
    }

    /// Reads the master key.
    pub fn fetch_master_key(&self) -> (statement: Statement)
        ensures
            statement.runs(SELECT_MASTER_KEY@, Seq::empty()),
    {
        Statement::plain(SELECT_MASTER_KEY)
    }

    /// Stores the master key, or removes it.
    pub fn store_master_key(&self, master_key: Option<&[u8]>) -> (statement: Statement)
        ensures
            match master_key {
                Some(key) => statement.runs(REPLACE_MASTER_KEY@, seq![SqlValueView::Blob(key@)]),
                None => statement.runs(DELETE_MASTER_KEY@, Seq::empty()),
            },
    {
        match master_key {
            Some(key) => {
                let statement = Statement::plain(REPLACE_MASTER_KEY).bind(
                    SqlValue::Blob(copy_bytes(key)),
                );
                assert(Seq::<SqlValueView>::empty().push(SqlValueView::Blob(key@))
                    =~= seq![SqlValueView::Blob(key@)]);
                statement
            },
            None => Statement::plain(DELETE_MASTER_KEY),
        }
    }

    /// Reads the account entropy pool.
    pub fn fetch_account_entropy_pool(&self) -> (statement: Statement)
        ensures
            statement.runs(SELECT_ACCOUNT_ENTROPY_POOL@, Seq::empty()),
    {
        Statement::plain(SELECT_ACCOUNT_ENTROPY_POOL)
    }

    /// Stores the text of the account entropy pool, or removes it.
    pub fn store_account_entropy_pool(&self, pool: Option<&str>) -> (statement: Statement)
        ensures
            match pool {
                Some(text) => statement.runs(
                    REPLACE_ACCOUNT_ENTROPY_POOL@,
                    seq![SqlValueView::Blob(encode_utf8(text@))],
                ),
                None => statement.runs(DELETE_ACCOUNT_ENTROPY_POOL@, Seq::empty()),
            },
    {
        match pool {
            Some(text) => {
                let bytes = copy_bytes(text.as_bytes());
                let statement = Statement::plain(REPLACE_ACCOUNT_ENTROPY_POOL).bind(
                    SqlValue::Blob(bytes),
                );
                assert(Seq::<SqlValueView>::empty().push(SqlValueView::Blob(encode_utf8(text@)))
                    =~= seq![SqlValueView::Blob(encode_utf8(text@))]);
                statement
            },
            None => Statement::plain(DELETE_ACCOUNT_ENTROPY_POOL),
        }
    }
}

/// What a literal stands for: what is between its quotes, where two quotes stand for one. A single
/// quote ends a literal, so that there is none in it.
pub open spec fn literal_text(inner: Seq<char>) -> Option<Seq<char>>
    decreases inner.len(),
{
    if inner.len() == 0 {
        Some(Seq::empty())
    } else if inner.last() != '\'' {
        match literal_text(inner.drop_last()) {
            Some(text) => Some(text.push(inner.last())),
            None => None,
        }
    } else if inner.len() >= 2 && inner[inner.len() - 2] == '\'' {
        match literal_text(inner.take(inner.len() - 2)) {
            Some(text) => Some(text.push('\'')),
            None => None,
        }
    } else {
        None
    }
}

/// A passphrase is read from its literal as it was given, whatever characters it holds.
pub proof fn law_passphrase_is_read_back(passphrase: Seq<char>)
    ensures
        quoted(passphrase).len() >= 2,
        quoted(passphrase)[0] == '\'',
        quoted(passphrase).last() == '\'',
        literal_text(quoted(passphrase).subrange(1, quoted(passphrase).len() - 1)) == Some(
            passphrase,
        ),
{
    lemma_escaped_text_is_read_back(passphrase);
    assert(quoted(passphrase).subrange(1, quoted(passphrase).len() - 1) =~= escaped(passphrase));
}

/// A text is read from its escaped form.
proof fn lemma_escaped_text_is_read_back(text: Seq<char>)
    ensures
        literal_text(escaped(text)) == Some(text),
    decreases text.len(),
{
    if text.len() > 0 {
        let start = text.drop_last();
        lemma_escaped_text_is_read_back(start);
        assert(start.push(text.last()) =~= text);
        let inner = escaped(text);
        if text.last() == '\'' {
            assert(inner.take(inner.len() - 2) =~= escaped(start));
        } else {
            assert(inner.drop_last() =~= escaped(start));
        }
    } else {
        assert(text =~= Seq::empty());
    }
}

/// An account entropy pool that was stored is read back as it was.
pub proof fn law_stored_pool_is_read_back(
    store: SqliteStore,
    pool: &str,
    statement: Statement,
    value: Vec<u8>,
    read: Result<Option<String>, SqliteStoreError>,
)
    requires
        call_ensures(SqliteStore::store_account_entropy_pool, (&store, Some(pool)), statement),
        statement.values@[0]@ == SqlValueView::Blob(value@),
        call_ensures(stored_pool_text, (Some(value),), read),
    ensures
        read matches Ok(Some(text)) && text@ == pool@,
{
    let bound = statement.bound();
    assert(bound == seq![SqlValueView::Blob(encode_utf8(pool@))]);
    assert(bound.len() == 1);
    assert(bound[0] == statement.values@[0]@);
    vstd::utf8::encode_utf8_valid_utf8(pool@);
    vstd::utf8::encode_utf8_decode_utf8(pool@);
}

/// A literal is a text between quotes. That of nothing is empty, a quote in it stands twice, any other
/// character as it is, and that of two texts in a row is that of the first and then that of the second.
pub proof fn law_literal_is_written_character_by_character(
    first: &str,
    second: &str,
    both: &str,
    of_first: String,
    of_second: String,
    of_both: String,
)
    requires
        call_ensures(quote, (first,), of_first),
        call_ensures(quote, (second,), of_second),
        call_ensures(quote, (both,), of_both),
        both@ == first@ + second@,
    ensures
        of_first@.len() >= 2 && of_first@[0] == '\'' && of_first@.last() == '\'',
        first@.len() == 0 ==> of_first@ == seq!['\'', '\''],
        first@.len() == 1 && first@[0] == '\'' ==> of_first@ == seq!['\'', '\'', '\'', '\''],
        first@.len() == 1 && first@[0] != '\'' ==> of_first@ == seq!['\'', first@[0], '\''],
        of_both@ == of_first@.drop_last() + of_second@.drop_first(),
{
    lemma_escaping_two_texts(first@, second@);
    assert(of_first@ == quoted(first@));
    assert(of_first@.drop_last() =~= seq!['\''] + escaped(first@));
    assert(of_second@.drop_first() =~= escaped(second@) + seq!['\'']);
    assert(of_both@ =~= of_first@.drop_last() + of_second@.drop_first());
    if first@.len() == 0 {
        assert(of_first@ =~= seq!['\'', '\'']);
    }
    if first@.len() == 1 {
        assert(escaped(first@.drop_last()) =~= Seq::<char>::empty());
        if first@[0] == '\'' {
            assert(of_first@ =~= seq!['\'', '\'', '\'', '\'']);
        } else {
            assert(of_first@ =~= seq!['\'', first@[0], '\'']);
        }
    }
}

/// Two texts in a row are escaped one after the other.
proof fn lemma_escaping_two_texts(first: Seq<char>, second: Seq<char>)
    ensures
        escaped(first + second) == escaped(first) + escaped(second),
    decreases second.len(),
{
    if second.len() == 0 {
        assert(first + second =~= first);
        assert(escaped(first) + escaped(second) =~= escaped(first));
    } else {
        lemma_escaping_two_texts(first, second.drop_last());
        assert((first + second).drop_last() =~= first + second.drop_last());
        assert((first + second).last() == second.last());
        assert(escaped(first + second) =~= escaped(first) + escaped(second));
    }
}

/// A database is opened over one connection, with a write-ahead log, waiting for the disk, checking its
/// foreign keys, created if it is missing, and with new identities treated as was asked. It is opened
/// with a key exactly if there is a passphrase, and the key is the passphrase as a literal.
pub proof fn law_database_is_opened_safely(
    url: &str,
    passphrase: Option<&str>,
    trust: OnNewIdentity,
    opened: Result<(SqliteConnectOptions, OpenPlan), SqliteStoreError>,
    plain: Result<(SqliteConnectOptions, OpenPlan), SqliteStoreError>,
    literal: String,
)
    requires
        call_ensures(SqliteStore::open_with_passphrase, (url, passphrase, trust), opened),
        call_ensures(SqliteStore::open, (url, trust), plain),
        passphrase matches Some(text) ==> call_ensures(quote, (text,), literal),
    ensures
        opened is Ok <==> plain is Ok,
        opened matches Ok((_, plan)) ==> {
            &&& plan.create_if_missing
            &&& plan.foreign_keys
            &&& plan.pool.max_connections == 1
            &&& plan.pool.journal_mode is Wal
            &&& plan.pool.synchronous is Full
            &&& plan.trust_new_identities == trust
            &&& plan.key_pragma is Some <==> passphrase is Some
            &&& passphrase is Some ==> plan.key_pragma->0@ == literal@
        },
        plain matches Ok((_, plan)) ==> {
            &&& plan.create_if_missing
            &&& plan.foreign_keys
            &&& plan.pool.max_connections == 1
            &&& plan.pool.journal_mode is Wal
            &&& plan.pool.synchronous is Full
            &&& plan.trust_new_identities == trust
            &&& plan.key_pragma is None
        },
        opened matches Ok((options, _)) ==> (plain matches Ok((others, _)) && database_settings(
            options,
        ) == database_settings(others)),
{
}

/// What is stored is bound as it was given: the registration as text, the key pairs under their keys,
/// the certificate, the master key and the pool as bytes. Without a master key or a pool, the stored one
/// is removed.
pub proof fn law_state_is_stored_as_given(
    store: &SqliteStore,
    registration: String,
    key: &str,
    pair: Vec<u8>,
    certificate: Vec<u8>,
    master_key: &[u8],
    saved: Statement,
    aci_pair: Statement,
    pni_pair: Statement,
    saved_certificate: Statement,
    saved_master: Statement,
    removed_master: Statement,
    removed_pool: Statement,
)
    requires
        call_ensures(SqliteStore::save_registration_data, (store, registration), saved),
        call_ensures(SqliteStore::set_aci_identity_key_pair, (store, key, pair), aci_pair),
        call_ensures(SqliteStore::set_pni_identity_key_pair, (store, key, pair), pni_pair),
        call_ensures(
            SqliteStore::save_sender_certificate,
            (store, certificate),
            saved_certificate,
        ),
        call_ensures(SqliteStore::store_master_key, (store, Some(master_key)), saved_master),
        call_ensures(SqliteStore::store_master_key, (store, None::<&[u8]>), removed_master),
        call_ensures(SqliteStore::store_account_entropy_pool, (store, None::<&str>), removed_pool),
    ensures
        saved.sql@ == REPLACE_REGISTRATION@,
        saved.values@.len() == 1,
        saved.values@[0] matches SqlValue::Text(text) && text@ == registration@,
        aci_pair.sql@ == REPLACE_VALUE@ && pni_pair.sql@ == REPLACE_VALUE@,
        aci_pair.values@.len() == 2 && pni_pair.values@.len() == 2,
        aci_pair.values@[0] matches SqlValue::Text(text) && text@ == key@,
        pni_pair.values@[0] matches SqlValue::Text(text) && text@ == key@,
        aci_pair.values@[1] matches SqlValue::Blob(bytes) && bytes@ == pair@,
        pni_pair.values@[1] matches SqlValue::Blob(bytes) && bytes@ == pair@,
        saved_certificate.sql@ == REPLACE_SENDER_CERTIFICATE@,
        saved_certificate.values@.len() == 1,
        saved_certificate.values@[0] matches SqlValue::Blob(bytes) && bytes@ == certificate@,
        saved_master.sql@ == REPLACE_MASTER_KEY@,
        saved_master.values@.len() == 1,
        saved_master.values@[0] matches SqlValue::Blob(bytes) && bytes@ == master_key@,
        removed_master.sql@ == DELETE_MASTER_KEY@ && removed_master.values@.len() == 0,
        removed_pool.sql@ == DELETE_ACCOUNT_ENTROPY_POOL@ && removed_pool.values@.len() == 0,
{
    lemma_bound_values(saved);
    assert(saved.values@[0]@ == saved.bound()[0]);
    lemma_bound_values(aci_pair);
    assert(aci_pair.values@[0]@ == aci_pair.bound()[0]);
    assert(aci_pair.values@[1]@ == aci_pair.bound()[1]);
    lemma_bound_values(pni_pair);
    assert(pni_pair.values@[0]@ == pni_pair.bound()[0]);
    assert(pni_pair.values@[1]@ == pni_pair.bound()[1]);
    lemma_bound_values(saved_certificate);
    assert(saved_certificate.values@[0]@ == saved_certificate.bound()[0]);
    lemma_bound_values(saved_master);
    assert(saved_master.values@[0]@ == saved_master.bound()[0]);
    lemma_bound_values(removed_master);
    lemma_bound_values(removed_pool);
}

/// Without a registration nothing of what was negotiated under it stays: the registration is deleted,
/// and with it all sessions, identities, prekeys of every kind and sender keys.
pub proof fn law_registration_is_cleared_whole(store: &SqliteStore, statements: Vec<Statement>)
    requires
        call_ensures(SqliteStore::clear_registration, (store,), statements),
    ensures
        forall|i: int|
            0 <= i < statements@.len() ==> (#[trigger] statements@[i]).values@.len() == 0,
        statements@.len() == 7,
        statements@[0].sql@ == DELETE_REGISTRATION@,
        statements@[1].sql@ == DELETE_SESSIONS@,
        statements@[2].sql@ == DELETE_IDENTITIES@,
        statements@[3].sql@ == DELETE_PRE_KEYS@,
        statements@[4].sql@ == DELETE_SIGNED_PRE_KEYS@,
        statements@[5].sql@ == DELETE_KYBER_PRE_KEYS@,
        statements@[6].sql@ == DELETE_SENDER_KEYS@,
{
    assert forall|i: int| 0 <= i < statements@.len() implies (
    #[trigger] statements@[i]).values@.len() == 0 by {
        lemma_bound_values(statements@[i]);
        assert(statements@[i].bound() =~= Seq::empty());
    }
}

/// What is read is told as it is: nothing if nothing is stored, the value if it has its form, and else
/// an error. An account is registered exactly if a registration could be read.
pub proof fn law_stored_values_are_told_as_they_are<T, E>(
    store: &SqliteStore,
    value: T,
    nothing: Result<Option<T>, SqliteStoreError>,
    read: Result<Option<T>, SqliteStoreError>,
    garbage: Result<Option<T>, SqliteStoreError>,
    loaded: &Result<Option<RegistrationData>, E>,
    registered: bool,
)
    requires
        call_ensures(parsed_value::<T>, (None::<Option<T>>,), nothing),
        call_ensures(parsed_value::<T>, (Some(Some(value)),), read),
        call_ensures(parsed_value::<T>, (Some(None::<T>),), garbage),
        call_ensures(SqliteStore::is_registered::<E>, (store, loaded), registered),
    ensures
        nothing matches Ok(None),
        read matches Ok(Some(told)) && told == value,
        garbage matches Err(SqliteStoreError::InvalidFormat),
        registered <==> (*loaded matches Ok(Some(_))),
{
}

/// What the database is asked of the client's state: each value is written under its own key, replaces
/// the one before, and is read and removed under that key.
pub proof fn law_state_statements_say_what_they_do()
    ensures
        DELETE_EVERY_VALUE@ == "DELETE FROM kv"@,
        SELECT_REGISTRATION@ == "SELECT value FROM kv WHERE key = 'registration'"@,
        REPLACE_REGISTRATION@ == "INSERT OR REPLACE INTO kv (key, value) VALUES ('registration', ?)"@,
        DELETE_REGISTRATION@ == "DELETE FROM kv WHERE key = 'registration'"@,
        DELETE_SESSIONS@ == "DELETE FROM sessions"@,
        DELETE_IDENTITIES@ == "DELETE FROM identities"@,
        DELETE_PRE_KEYS@ == "DELETE FROM pre_keys"@,
        DELETE_SIGNED_PRE_KEYS@ == "DELETE FROM signed_pre_keys"@,
        DELETE_KYBER_PRE_KEYS@ == "DELETE FROM kyber_pre_keys"@,
        DELETE_SENDER_KEYS@ == "DELETE FROM sender_keys"@,
        REPLACE_VALUE@ == "INSERT OR REPLACE INTO kv (key, value) VALUES (?, ?)"@,
        SELECT_SENDER_CERTIFICATE@ == "SELECT value FROM kv WHERE key = 'sender_certificate' LIMIT 1"@,
        REPLACE_SENDER_CERTIFICATE@ == "INSERT OR REPLACE INTO kv (key, value) VALUES ('sender_certificate', ?)"@,
        SELECT_MASTER_KEY@ == "SELECT value FROM kv WHERE key = 'master_key' LIMIT 1"@,
        REPLACE_MASTER_KEY@ == "INSERT OR REPLACE INTO kv (key, value) VALUES ('master_key', ?)"@,
        DELETE_MASTER_KEY@ == "DELETE FROM kv WHERE key = 'master_key'"@,
        SELECT_ACCOUNT_ENTROPY_POOL@ == "SELECT value FROM kv WHERE key = 'account_entropy_pool' LIMIT 1"@,
        REPLACE_ACCOUNT_ENTROPY_POOL@ == "INSERT OR REPLACE INTO kv (key, value) VALUES ('account_entropy_pool', ?)"@,
        DELETE_ACCOUNT_ENTROPY_POOL@ == "DELETE FROM kv WHERE key = 'account_entropy_pool'"@,
{
}

/// The registration, the certificate, the master key and the pool are each read, and all values are
/// removed, by the statements for it, which have no values.
pub proof fn law_state_is_read_under_its_keys(
    store: &SqliteStore,
    cleared: Statement,
    registration: Statement,
    certificate: Statement,
    master_key: Statement,
    pool: Statement,
)
    requires
        call_ensures(SqliteStore::clear, (store,), cleared),
        call_ensures(SqliteStore::load_registration_data, (store,), registration),
        call_ensures(SqliteStore::sender_certificate, (store,), certificate),
        call_ensures(SqliteStore::fetch_master_key, (store,), master_key),
        call_ensures(SqliteStore::fetch_account_entropy_pool, (store,), pool),
    ensures
        cleared.sql@ == DELETE_EVERY_VALUE@ && cleared.values@.len() == 0,
        registration.sql@ == SELECT_REGISTRATION@ && registration.values@.len() == 0,
        certificate.sql@ == SELECT_SENDER_CERTIFICATE@ && certificate.values@.len() == 0,
        master_key.sql@ == SELECT_MASTER_KEY@ && master_key.values@.len() == 0,
        pool.sql@ == SELECT_ACCOUNT_ENTROPY_POOL@ && pool.values@.len() == 0,
{
    lemma_bound_values(cleared);
    lemma_bound_values(registration);
    lemma_bound_values(certificate);
    lemma_bound_values(master_key);
    lemma_bound_values(pool);
}

/// A pool is stored under its own key as the bytes of its text.
pub proof fn law_pool_is_stored_as_text(store: &SqliteStore, text: &str, statement: Statement)
    requires
        call_ensures(SqliteStore::store_account_entropy_pool, (store, Some(text)), statement),
    ensures
        statement.sql@ == REPLACE_ACCOUNT_ENTROPY_POOL@,
        statement.values@.len() == 1,
        statement.values@[0] matches SqlValue::Blob(bytes) && bytes@ == encode_utf8(text@),
{
    lemma_bound_values(statement);
    assert(statement.values@[0]@ == statement.bound()[0]);
}

/// The database that is opened is the file that the URL names: what stands behind the scheme, if there
/// is one, and before the parameters, if there are any. A URL without parameters is never refused.
pub proof fn law_database_is_the_named_file(
    url: &str,
    has_scheme: bool,
    name: Seq<char>,
    parameters: Seq<char>,
    passphrase: Option<&str>,
    trust: OnNewIdentity,
    plain: Result<(SqliteConnectOptions, OpenPlan), SqliteStoreError>,
    encrypted: Result<(SqliteConnectOptions, OpenPlan), SqliteStoreError>,
)
    requires
        forall|i: int| 0 <= i < name.len() ==> #[trigger] name[i] != '?' && name[i] != '%',
        parameters.len() > 0 ==> parameters[0] == '?',
        !"sqlite:"@.is_prefix_of(name + parameters),
        !"sqlite://"@.is_prefix_of(name + parameters),
        name != ":memory:"@,
        url@ == if has_scheme {
            "sqlite://"@ + name + parameters
        } else {
            name + parameters
        },
        call_ensures(SqliteStore::open, (url, trust), plain),
        call_ensures(SqliteStore::open_with_passphrase, (url, passphrase, trust), encrypted),
    ensures
        parameters.len() == 0 ==> plain is Ok && encrypted is Ok,
        plain is Ok <==> encrypted is Ok,
        plain matches Ok((options, _)) ==> database_path(options) == name,
        encrypted matches Ok((options, _)) ==> database_path(options) == name,
        plain matches Err(error) ==> error is InvalidUrl,
        encrypted matches Err(error) ==> error is InvalidUrl,
{
    let scheme = "sqlite://"@;
    let rest = name + parameters;
    reveal_strlit("sqlite://");
    reveal_strlit("sqlite:");
    assert(without_scheme(rest, scheme) == rest);
    if has_scheme {
        assert(url@ =~= scheme + rest);
        assert(scheme.is_prefix_of(url@));
        assert(url@.skip(scheme.len() as int) =~= rest);
        assert(without_scheme(url@, scheme) == rest);
    }
    assert(without_scheme(rest, "sqlite:"@) == rest);
    lemma_name_ends_at_the_parameters(name, parameters);
    assert(database_part(url@) == name);
    assert(!name.contains('%'));
    if parameters.len() == 0 {
        assert(rest =~= name);
        assert forall|i: int| 0 <= i < url@.len() implies #[trigger] url@[i] != '?' && url@[i]
            != '%' by {
            if has_scheme {
                if i < scheme.len() {
                    assert(url@[i] == scheme[i]);
                } else {
                    assert(url@[i] == name[i - scheme.len()]);
                }
            } else {
                assert(url@[i] == name[i]);
            }
        }
        assert(is_plain_url(url@));
    }
}

/// A name without a question mark ends where the parameters begin.
proof fn lemma_name_ends_at_the_parameters(name: Seq<char>, parameters: Seq<char>)
    requires
        forall|i: int| 0 <= i < name.len() ==> #[trigger] name[i] != '?',
        parameters.len() > 0 ==> parameters[0] == '?',
    ensures
        before_parameters(name + parameters) == name,
    decreases name.len(),
{
    let text = name + parameters;
    if name.len() == 0 {
        assert(text =~= parameters);
        assert(before_parameters(text) =~= name);
    } else {
        let rest = name.skip(1);
        assert(text[0] == name[0]);
        assert(text.skip(1) =~= rest + parameters);
        assert forall|i: int| 0 <= i < rest.len() implies #[trigger] rest[i] != '?' by {
            assert(rest[i] == name[i + 1]);
        }
        lemma_name_ends_at_the_parameters(rest, parameters);
        assert(seq![name[0]] + rest =~= name);
    }
}

} // verus!
