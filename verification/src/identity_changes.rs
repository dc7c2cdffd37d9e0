//! Changed identities of contacts that wait for a decision.

use vstd::prelude::*;

use crate::bytes::copy_bytes;
use crate::content::ServiceId;
use crate::statement::{lemma_bound_values, SqlValue, SqlValueView, Statement};
use crate::store::SqliteStore;

verus! {

pub const CREATE_IDENTITY_CHANGES: &'static str =
    "CREATE TABLE IF NOT EXISTS client_identity_changes (address TEXT NOT NULL, identity TEXT NOT NULL, new_record BLOB NOT NULL, verified BOOLEAN NOT NULL, PRIMARY KEY (address, identity))";

pub const SELECT_IDENTITY_CHANGE_NOTICES: &'static str =
    "SELECT address, verified FROM client_identity_changes ORDER BY address";

pub const DISMISS_IDENTITY_CHANGE: &'static str =
    "DELETE FROM client_identity_changes WHERE address = ? AND verified = false";

pub const SELECT_IDENTITY_CHANGE: &'static str =
    "SELECT identity, new_record FROM client_identity_changes WHERE address = ? AND verified = true";

pub const UPDATE_IDENTITY: &'static str =
    "UPDATE identities SET record = ? WHERE address = ? AND identity = ?";

pub const DELETE_ADDRESS_SESSIONS: &'static str =
    "DELETE FROM sessions WHERE address = ? AND identity = ?";

pub const DELETE_ADDRESS_SENDER_KEYS: &'static str =
    "DELETE FROM sender_keys WHERE address = ? AND identity = ?";

pub const UPDATE_VERIFICATION: &'static str =
    "UPDATE contacts_verification_state SET identity_key = ?, is_verified = false WHERE destination_aci = ? OR destination_aci = ?";

pub const DELETE_IDENTITY_CHANGE: &'static str =
    "DELETE FROM client_identity_changes WHERE address = ? AND identity = ?";

pub const INSERT_IDENTITY_CHANGE: &'static str =
    "INSERT INTO client_identity_changes(address, identity, new_record, verified) VALUES (?, ?, ?, ?) ON CONFLICT(address, identity) DO UPDATE SET new_record = excluded.new_record, verified = max(client_identity_changes.verified, excluded.verified)";

pub const COUNT_BLOCKING_IDENTITY_CHANGES: &'static str =
    "SELECT count(*) FROM client_identity_changes WHERE address = ? AND identity = ? AND verified = true";

pub const SELECT_VERIFICATION: &'static str =
    "SELECT is_verified FROM contacts_verification_state WHERE destination_aci = ? OR destination_aci = ?";

/// A contact whose identity changed.
#[derive(Clone, Debug, Eq, PartialEq)]
pub struct IdentityChangeNotice {
    pub address: String,
    pub verified: bool,
}

/// A change of the identity of a verified contact, as it is stored.
#[derive(Clone, Debug)]
pub struct IdentityChange {
    pub identity: String,
    pub new_record: Vec<u8>,
}

/// The values that name an address and an identity.
pub open spec fn address_values(address: Seq<char>, identity: Seq<char>) -> Seq<SqlValueView> {
    seq![SqlValueView::Text(address), SqlValueView::Text(identity)]
}

/// A statement about an address and an identity.
fn address_statement(sql: &'static str, address: &str, identity: &str) -> (statement: Statement)
    ensures
        statement.runs(sql@, address_values(address@, identity@)),
{
    let statement = Statement::plain(sql).bind(SqlValue::Text(address.to_owned())).bind(
        SqlValue::Text(identity.to_owned()),
    );
    assert(Seq::<SqlValueView>::empty().push(SqlValueView::Text(address@)).push(
        SqlValueView::Text(identity@),
    ) =~= address_values(address@, identity@));
    statement
}

/// Whether statements carry out an accepted change of identity: the new identity is trusted, what
/// was negotiated with the old one is gone, the contact is no longer verified, and the change waits
/// no more.
pub open spec fn accepts_change(
    statements: Seq<Statement>,
    address: Seq<char>,
    service_id: Option<ServiceId>,
    change: IdentityChange,
) -> bool {
    let verification = if service_id is Some {
        1int
    } else {
        0int
    };
    &&& statements.len() == 4 + verification
    &&& statements[0].runs(
        UPDATE_IDENTITY@,
        seq![
            SqlValueView::Blob(change.new_record@),
            SqlValueView::Text(address),
            SqlValueView::Text(change.identity@),
        ],
    )
    &&& statements[1].runs(DELETE_ADDRESS_SESSIONS@, address_values(address, change.identity@))
    &&& statements[2].runs(DELETE_ADDRESS_SENDER_KEYS@, address_values(address, change.identity@))
    &&& service_id matches Some(id) ==> statements[3].runs(
        UPDATE_VERIFICATION@,
        seq![
            SqlValueView::Blob(change.new_record@),
            SqlValueView::Uuid(id.uuid()),
            SqlValueView::Text(address),
        ],
    )
    &&& statements[3 + verification].runs(
        DELETE_IDENTITY_CHANGE@,
        address_values(address, change.identity@),
    )
}

impl SqliteStore {
    /// Creates the table of changed identities if it does not exist.
    pub fn initialize_identity_change_tracking(&self) -> (statement: Statement)
        ensures
            statement.runs(CREATE_IDENTITY_CHANGES@, Seq::empty()),
    {
        Statement::plain(CREATE_IDENTITY_CHANGES)
    }

    /// Reads the changes that wait, by address.
    pub fn identity_change_notices(&self) -> (statement: Statement)
        ensures
            statement.runs(SELECT_IDENTITY_CHANGE_NOTICES@, Seq::empty()),
    {
        Statement::plain(SELECT_IDENTITY_CHANGE_NOTICES)
    }

    /// Drops a change of a contact that was not verified.
    pub fn dismiss_identity_change(&self, address: &str) -> (statement: Statement)
        ensures
            statement.runs(DISMISS_IDENTITY_CHANGE@, seq![SqlValueView::Text(address@)]),
    {
        let statement = Statement::plain(DISMISS_IDENTITY_CHANGE).bind(
            SqlValue::Text(address.to_owned()),
        );
        assert(Seq::<SqlValueView>::empty().push(SqlValueView::Text(address@))
            =~= seq![SqlValueView::Text(address@)]);
        statement
    }

    /// Reads the change of a verified contact that is to be accepted.
    pub fn find_identity_change(&self, address: &str) -> (statement: Statement)
        ensures
            statement.runs(SELECT_IDENTITY_CHANGE@, seq![SqlValueView::Text(address@)]),
    {
        let statement = Statement::plain(SELECT_IDENTITY_CHANGE).bind(
            SqlValue::Text(address.to_owned()),
        );
        assert(Seq::<SqlValueView>::empty().push(SqlValueView::Text(address@))
            =~= seq![SqlValueView::Text(address@)]);
        statement
    }

    /// Accepts the change of a verified contact that was found, if one was. `service_id` is the
    /// identity that the address spells, if it spells one. The statements run in the transaction in
    /// which the change was read; without a change there is nothing to run, and nothing was
    /// accepted.
    pub fn accept_identity_change(
        &self,
        address: &str,
        service_id: Option<ServiceId>,
        change: Option<IdentityChange>,
    ) -> (statements: Option<Vec<Statement>>)
        ensures
            match (change, statements) {
                (Some(c), Some(s)) => accepts_change(s@, address@, service_id, c),
                (None, None) => true,
                _ => false,
            },
    {
        let change = match change {
            Some(change) => change,
            None => {
                return None;
            },
        };
        let identity = change.identity.as_str();
        let record = change.new_record.as_slice();
        let mut statements: Vec<Statement> = Vec::new();
        let update = Statement::plain(UPDATE_IDENTITY).bind(SqlValue::Blob(copy_bytes(record))).bind(
            SqlValue::Text(address.to_owned()),
        ).bind(SqlValue::Text(identity.to_owned()));
        assert(Seq::<SqlValueView>::empty().push(SqlValueView::Blob(record@)).push(
            SqlValueView::Text(address@),
        ).push(SqlValueView::Text(identity@)) =~= seq![
            SqlValueView::Blob(record@),
            SqlValueView::Text(address@),
            SqlValueView::Text(identity@),
        ]);
        statements.push(update);
        statements.push(address_statement(DELETE_ADDRESS_SESSIONS, address, identity));
        statements.push(address_statement(DELETE_ADDRESS_SENDER_KEYS, address, identity));
        if let Some(id) = service_id {
            let verification = Statement::plain(UPDATE_VERIFICATION).bind(
                SqlValue::Blob(copy_bytes(record)),
            ).bind(SqlValue::Uuid(id.raw_uuid())).bind(SqlValue::Text(address.to_owned()));
            assert(Seq::<SqlValueView>::empty().push(SqlValueView::Blob(record@)).push(
                SqlValueView::Uuid(id.uuid()),
            ).push(SqlValueView::Text(address@)) =~= seq![
                SqlValueView::Blob(record@),
                SqlValueView::Uuid(id.uuid()),
                SqlValueView::Text(address@),
            ]);
            statements.push(verification);
        }
        statements.push(address_statement(DELETE_IDENTITY_CHANGE, address, identity));
        Some(statements)
    }

    /// Records that the identity of a contact changed. A change that is recorded already takes the
    /// new identity, and stays one of a verified contact.
    pub fn record_identity_change(
        &self,
        address: &str,
        identity_type: &str,
        identity: Vec<u8>,
        verified: bool,
    ) -> (statement: Statement)
        ensures
            statement.runs(
                INSERT_IDENTITY_CHANGE@,
                seq![
                    SqlValueView::Text(address@),
                    SqlValueView::Text(identity_type@),
                    SqlValueView::Blob(identity@),
                    SqlValueView::Boolean(verified),
                ],
            ),
    {
        let ghost record = identity@;
        let statement = Statement::plain(INSERT_IDENTITY_CHANGE).bind(
            SqlValue::Text(address.to_owned()),
        ).bind(SqlValue::Text(identity_type.to_owned())).bind(SqlValue::Blob(identity)).bind(
            SqlValue::Boolean(verified),
        );
        assert(Seq::<SqlValueView>::empty().push(SqlValueView::Text(address@)).push(
            SqlValueView::Text(identity_type@),
        ).push(SqlValueView::Blob(record)).push(SqlValueView::Boolean(verified)) =~= seq![
            SqlValueView::Text(address@),
            SqlValueView::Text(identity_type@),
            SqlValueView::Blob(record),
            SqlValueView::Boolean(verified),
        ]);
        statement
    }

    /// Counts the changes that keep messages from being sent to an address.
    pub fn count_blocking_identity_changes(&self, address: &str, identity_type: &str) -> (statement:
        Statement)
        ensures
            statement.runs(
                COUNT_BLOCKING_IDENTITY_CHANGES@,
                address_values(address@, identity_type@),
            ),
    {
        address_statement(COUNT_BLOCKING_IDENTITY_CHANGES, address, identity_type)
    }

    /// Whether a change keeps messages from being sent, by how many do.
    pub fn has_blocking_identity_change(&self, count: i64) -> (blocking: bool)
        ensures
            blocking == (count != 0),
    {
        count != 0
    }

    /// Reads whether a contact is verified. An address that spells no identity is nobody's, and
    /// there is nothing to read.
    pub fn find_verification(&self, address: &str, service_id: Option<ServiceId>) -> (statement:
        Option<Statement>)
        ensures
            match (service_id, statement) {
                (Some(id), Some(s)) => s.runs(
                    SELECT_VERIFICATION@,
                    seq![SqlValueView::Uuid(id.uuid()), SqlValueView::Text(address@)],
                ),
                (None, None) => true,
                _ => false,
            },
    {
        match service_id {
            Some(id) => {
                let statement = Statement::plain(SELECT_VERIFICATION).bind(
                    SqlValue::Uuid(id.raw_uuid()),
                ).bind(SqlValue::Text(address.to_owned()));
                assert(Seq::<SqlValueView>::empty().push(SqlValueView::Uuid(id.uuid())).push(
                    SqlValueView::Text(address@),
                ) =~= seq![SqlValueView::Uuid(id.uuid()), SqlValueView::Text(address@)]);
                Some(statement)
            },
            None => None,
        }
    }

    /// Whether a contact is verified, by what was read: nothing if it was not asked or there is no
    /// entry, and an entry may not tell.
    pub fn contact_is_verified(&self, read: Option<Option<bool>>) -> (verified: bool)
        ensures
            verified == (read == Some(Some(true))),
    {
        match read {
            Some(Some(verified)) => verified,
            _ => false,
        }
    }
}

/// A change of identity that waits.
pub struct PendingChange {
    pub new_record: Seq<u8>,
    /// Whether the contact was verified.
    pub verified: bool,
}

/// What a statement makes of the changes that wait, by address and identity: what its text says,
/// for the values that are bound to it.
pub open spec fn executes(
    statement: Statement,
    before: Map<(Seq<char>, Seq<char>), PendingChange>,
    after: Map<(Seq<char>, Seq<char>), PendingChange>,
) -> bool {
    let bound = statement.bound();
    &&& statement.sql@ == INSERT_IDENTITY_CHANGE@ ==> {
        let key = (bound[0]->Text_0, bound[1]->Text_0);
        let verified = bound[3]->Boolean_0;
        after == before.insert(
            key,
            PendingChange {
                new_record: bound[2]->Blob_0,
                verified: if before.contains_key(key) {
                    before[key].verified || verified
                } else {
                    verified
                },
            },
        )
    }
    &&& statement.sql@ == DISMISS_IDENTITY_CHANGE@ ==> after == before.remove_keys(
        Set::new(
            |key: (Seq<char>, Seq<char>)|
                before.contains_key(key) && key.0 == bound[0]->Text_0 && !before[key].verified,
        ),
    )
    &&& statement.sql@ == DELETE_IDENTITY_CHANGE@ ==> after == before.remove(
        (bound[0]->Text_0, bound[1]->Text_0),
    )
}

/// Whether a change of a verified contact waits.
pub open spec fn waits_verified(
    changes: Map<(Seq<char>, Seq<char>), PendingChange>,
    key: (Seq<char>, Seq<char>),
) -> bool {
    changes.contains_key(key) && changes[key].verified
}

/// Recording a change leaves exactly one for the address and the identity. It has the new identity,
/// and is one of a verified contact if it was one before or is one now. Other changes stay as they
/// are.
pub proof fn law_recording_never_downgrades_a_change(
    store: SqliteStore,
    address: &str,
    identity_type: &str,
    identity: Vec<u8>,
    verified: bool,
    statement: Statement,
    before: Map<(Seq<char>, Seq<char>), PendingChange>,
    after: Map<(Seq<char>, Seq<char>), PendingChange>,
    other: (Seq<char>, Seq<char>),
)
    requires
        call_ensures(
            SqliteStore::record_identity_change,
            (&store, address, identity_type, identity, verified),
            statement,
        ),
        executes(statement, before, after),
    ensures
        ({
            let key = (address@, identity_type@);
            &&& after.contains_key(key)
            &&& after[key].new_record == identity@
            &&& after[key].verified == (waits_verified(before, key) || verified)
            &&& other != key ==> (after.contains_key(other) <==> before.contains_key(other))
            &&& other != key && before.contains_key(other) ==> after[other] == before[other]
        }),
{
    let bound = statement.bound();
    assert(bound[0] == SqlValueView::Text(address@));
    assert(bound[1] == SqlValueView::Text(identity_type@));
    assert(bound[2] == SqlValueView::Blob(identity@));
    assert(bound[3] == SqlValueView::Boolean(verified));
}

/// Dismissing the changes at an address removes those of contacts that were not verified, and
/// leaves every other one as it is, so that one of a verified contact waits until it is accepted.
pub proof fn law_dismissing_keeps_verified_changes(
    store: SqliteStore,
    address: &str,
    statement: Statement,
    before: Map<(Seq<char>, Seq<char>), PendingChange>,
    after: Map<(Seq<char>, Seq<char>), PendingChange>,
    key: (Seq<char>, Seq<char>),
)
    requires
        call_ensures(SqliteStore::dismiss_identity_change, (&store, address), statement),
        executes(statement, before, after),
    ensures
        after.contains_key(key) <==> before.contains_key(key) && (key.0 != address@
            || before[key].verified),
        after.contains_key(key) ==> after[key] == before[key],
        waits_verified(before, key) ==> waits_verified(after, key),
{
    assert(statement.bound()[0] == SqlValueView::Text(address@));
}

/// The last statement of an accepted change ends the waiting of that change and of no other.
pub proof fn law_accepted_change_waits_no_more(
    store: SqliteStore,
    address: &str,
    service_id: Option<ServiceId>,
    change: IdentityChange,
    statements: Option<Vec<Statement>>,
    before: Map<(Seq<char>, Seq<char>), PendingChange>,
    after: Map<(Seq<char>, Seq<char>), PendingChange>,
)
    requires
        call_ensures(
            SqliteStore::accept_identity_change,
            (&store, address, service_id, Some(change)),
            statements,
        ),
        executes(statements->0@.last(), before, after),
    ensures
        after == before.remove((address@, change.identity@)),
{
    let statement = statements->0@.last();
    assert(statement.runs(DELETE_IDENTITY_CHANGE@, address_values(address@, change.identity@)));
    assert(statement.bound()[0] == SqlValueView::Text(address@));
    assert(statement.bound()[1] == SqlValueView::Text(change.identity@));
}

/// Accepting a change writes the new identity over the old one of the address, deletes the sessions
/// and the sender keys that belong to it, takes the verification from the contact if the address spells
/// one, and ends the waiting: each for the address and the identity of the change, in this order.
/// Without a change nothing is written.
pub proof fn law_accepted_change_is_written(
    store: &SqliteStore,
    address: &str,
    service_id: Option<ServiceId>,
    change: IdentityChange,
    statements: Option<Vec<Statement>>,
    without: Option<Vec<Statement>>,
)
    requires
        call_ensures(
            SqliteStore::accept_identity_change,
            (store, address, service_id, Some(change)),
            statements,
        ),
        call_ensures(
            SqliteStore::accept_identity_change,
            (store, address, service_id, None::<IdentityChange>),
            without,
        ),
    ensures
        without is None,
        statements is Some,
        ({
            let all = statements->0@;
            let last = all.len() - 1;
            &&& all.len() == if service_id is Some {
                5int
            } else {
                4int
            }
            &&& all[0].sql@ == UPDATE_IDENTITY@
            &&& all[0].values@.len() == 3
            &&& all[0].values@[0] matches SqlValue::Blob(record) && record@ == change.new_record@
            &&& all[0].values@[1] matches SqlValue::Text(text) && text@ == address@
            &&& all[0].values@[2] matches SqlValue::Text(text) && text@ == change.identity@
            &&& all[1].sql@ == DELETE_ADDRESS_SESSIONS@
            &&& all[2].sql@ == DELETE_ADDRESS_SENDER_KEYS@
            &&& all[last].sql@ == DELETE_IDENTITY_CHANGE@
            &&& forall|i: int|
                (i == 1 || i == 2 || i == last) ==> {
                    let values = (#[trigger] all[i]).values@;
                    &&& values.len() == 2
                    &&& values[0] matches SqlValue::Text(text) && text@ == address@
                    &&& values[1] matches SqlValue::Text(text) && text@ == change.identity@
                }
            &&& service_id matches Some(id) ==> {
                &&& all[3].sql@ == UPDATE_VERIFICATION@
                &&& all[3].values@.len() == 3
                &&& all[3].values@[0] matches SqlValue::Blob(record) && record@
                    == change.new_record@
                &&& all[3].values@[1] matches SqlValue::Uuid(uuid) && match id {
                    ServiceId::Aci(told) => uuid == told,
                    ServiceId::Pni(told) => uuid == told,
                }
                &&& all[3].values@[2] matches SqlValue::Text(text) && text@ == address@
            }
        }),
{
    let all = statements->0@;
    let last = all.len() - 1;
    lemma_bound_values(all[0]);
    assert(all[0].values@[0]@ == all[0].bound()[0]);
    assert(all[0].values@[1]@ == all[0].bound()[1]);
    assert(all[0].values@[2]@ == all[0].bound()[2]);
    assert forall|i: int| (i == 1 || i == 2 || i == last) implies {
        let values = (#[trigger] all[i]).values@;
        &&& values.len() == 2
        &&& values[0] matches SqlValue::Text(text) && text@ == address@
        &&& values[1] matches SqlValue::Text(text) && text@ == change.identity@
    } by {
        lemma_bound_values(all[i]);
        assert(all[i].bound() == address_values(address@, change.identity@));
        assert(all[i].values@[0]@ == all[i].bound()[0]);
        assert(all[i].values@[1]@ == all[i].bound()[1]);
    }
    if service_id is Some {
        lemma_bound_values(all[3]);
        assert(all[3].values@[0]@ == all[3].bound()[0]);
        assert(all[3].values@[1]@ == all[3].bound()[1]);
        assert(all[3].values@[2]@ == all[3].bound()[2]);
    }
}

/// The statements about changes bind the address, the kind of the identity, the new identity and
/// whether the contact was verified as they were given. Verification is read for an address that
/// spells an identity, and only then.
pub proof fn law_changes_are_addressed_as_given(
    store: &SqliteStore,
    address: &str,
    identity_type: &str,
    identity: Vec<u8>,
    verified: bool,
    service_id: Option<ServiceId>,
    recorded: Statement,
    dismissed: Statement,
    found: Statement,
    counted: Statement,
    verification: Option<Statement>,
)
    requires
        call_ensures(
            SqliteStore::record_identity_change,
            (store, address, identity_type, identity, verified),
            recorded,
        ),
        call_ensures(SqliteStore::dismiss_identity_change, (store, address), dismissed),
        call_ensures(SqliteStore::find_identity_change, (store, address), found),
        call_ensures(
            SqliteStore::count_blocking_identity_changes,
            (store, address, identity_type),
            counted,
        ),
        call_ensures(SqliteStore::find_verification, (store, address, service_id), verification),
    ensures
        recorded.sql@ == INSERT_IDENTITY_CHANGE@,
        recorded.values@.len() == 4,
        recorded.values@[0] matches SqlValue::Text(text) && text@ == address@,
        recorded.values@[1] matches SqlValue::Text(text) && text@ == identity_type@,
        recorded.values@[2] matches SqlValue::Blob(bytes) && bytes@ == identity@,
        recorded.values@[3] matches SqlValue::Boolean(flag) && flag == verified,
        dismissed.sql@ == DISMISS_IDENTITY_CHANGE@,
        dismissed.values@.len() == 1,
        dismissed.values@[0] matches SqlValue::Text(text) && text@ == address@,
        found.sql@ == SELECT_IDENTITY_CHANGE@,
        found.values@.len() == 1,
        found.values@[0] matches SqlValue::Text(text) && text@ == address@,
        counted.sql@ == COUNT_BLOCKING_IDENTITY_CHANGES@,
        counted.values@.len() == 2,
        counted.values@[0] matches SqlValue::Text(text) && text@ == address@,
        counted.values@[1] matches SqlValue::Text(text) && text@ == identity_type@,
        verification is Some <==> service_id is Some,
        service_id matches Some(id) ==> {
            let read = verification->0;
            &&& read.sql@ == SELECT_VERIFICATION@
            &&& read.values@.len() == 2
            &&& read.values@[0] matches SqlValue::Uuid(uuid) && match id {
                ServiceId::Aci(told) => uuid == told,
                ServiceId::Pni(told) => uuid == told,
            }
            &&& read.values@[1] matches SqlValue::Text(text) && text@ == address@
        },
{
    lemma_bound_values(recorded);
    assert(recorded.values@[0]@ == recorded.bound()[0]);
    assert(recorded.values@[1]@ == recorded.bound()[1]);
    assert(recorded.values@[2]@ == recorded.bound()[2]);
    assert(recorded.values@[3]@ == recorded.bound()[3]);
    lemma_bound_values(dismissed);
    assert(dismissed.values@[0]@ == dismissed.bound()[0]);
    lemma_bound_values(found);
    assert(found.values@[0]@ == found.bound()[0]);
    lemma_bound_values(counted);
    assert(counted.values@[0]@ == counted.bound()[0]);
    assert(counted.values@[1]@ == counted.bound()[1]);
    if let Some(read) = verification {
        lemma_bound_values(read);
        assert(read.values@[0]@ == read.bound()[0]);
        assert(read.values@[1]@ == read.bound()[1]);
    }
}

/// A change keeps messages from being sent if there is any, and a contact is verified only if its entry
/// says so.
pub proof fn law_doubt_blocks_and_does_not_verify(
    store: &SqliteStore,
    count: i64,
    blocking: bool,
    read: Option<Option<bool>>,
    verified: bool,
)
    requires
        call_ensures(SqliteStore::has_blocking_identity_change, (store, count), blocking),
        call_ensures(SqliteStore::contact_is_verified, (store, read), verified),
    ensures
        blocking <==> count != 0,
        verified <==> (read is Some && read->0 is Some && read->0->0),
{
}

/// What the database is asked: a change is stored once for an address and an identity, takes the newest
/// identity and stays one of a verified contact; one of an unverified contact is dismissed and one of a
/// verified contact is accepted; and accepting is about that address and that identity only.
pub proof fn law_change_statements_say_what_they_do()
    ensures
        CREATE_IDENTITY_CHANGES@ == "CREATE TABLE IF NOT EXISTS client_identity_changes (address TEXT NOT NULL, identity TEXT NOT NULL, new_record BLOB NOT NULL, verified BOOLEAN NOT NULL, PRIMARY KEY (address, identity))"@,
        SELECT_IDENTITY_CHANGE_NOTICES@ == "SELECT address, verified FROM client_identity_changes ORDER BY address"@,
        DISMISS_IDENTITY_CHANGE@ == "DELETE FROM client_identity_changes WHERE address = ? AND verified = false"@,
        SELECT_IDENTITY_CHANGE@ == "SELECT identity, new_record FROM client_identity_changes WHERE address = ? AND verified = true"@,
        UPDATE_IDENTITY@ == "UPDATE identities SET record = ? WHERE address = ? AND identity = ?"@,
        DELETE_ADDRESS_SESSIONS@ == "DELETE FROM sessions WHERE address = ? AND identity = ?"@,
        DELETE_ADDRESS_SENDER_KEYS@ == "DELETE FROM sender_keys WHERE address = ? AND identity = ?"@,
        UPDATE_VERIFICATION@ == "UPDATE contacts_verification_state SET identity_key = ?, is_verified = false WHERE destination_aci = ? OR destination_aci = ?"@,
        DELETE_IDENTITY_CHANGE@ == "DELETE FROM client_identity_changes WHERE address = ? AND identity = ?"@,
        INSERT_IDENTITY_CHANGE@ == "INSERT INTO client_identity_changes(address, identity, new_record, verified) VALUES (?, ?, ?, ?) ON CONFLICT(address, identity) DO UPDATE SET new_record = excluded.new_record, verified = max(client_identity_changes.verified, excluded.verified)"@,
        COUNT_BLOCKING_IDENTITY_CHANGES@ == "SELECT count(*) FROM client_identity_changes WHERE address = ? AND identity = ? AND verified = true"@,
        SELECT_VERIFICATION@ == "SELECT is_verified FROM contacts_verification_state WHERE destination_aci = ? OR destination_aci = ?"@,
{
}

/// The table of changes is created, and the changes that wait are read, by the statements for it, which
/// have no values.
pub proof fn law_changes_are_tracked_and_read(
    store: &SqliteStore,
    created: Statement,
    notices: Statement,
)
    requires
        call_ensures(SqliteStore::initialize_identity_change_tracking, (store,), created),
        call_ensures(SqliteStore::identity_change_notices, (store,), notices),
    ensures
        created.sql@ == CREATE_IDENTITY_CHANGES@ && created.values@.len() == 0,
        notices.sql@ == SELECT_IDENTITY_CHANGE_NOTICES@ && notices.values@.len() == 0,
{
    lemma_bound_values(created);
    lemma_bound_values(notices);
}

} // verus!
