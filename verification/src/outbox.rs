//! Messages that wait to be sent.

use vstd::prelude::*;

use crate::bytes::same_text;
use crate::statement::{lemma_bound_values, SqlValue, SqlValueView, Statement};
use crate::store::{SqliteStore, SqliteStoreError};

verus! {

pub const CREATE_CLIENT_OUTBOX: &'static str =
    "CREATE TABLE IF NOT EXISTS client_outbox (id INTEGER PRIMARY KEY AUTOINCREMENT, kind TEXT NOT NULL CHECK (kind IN ('direct', 'group')), recipient TEXT NOT NULL, body TEXT NOT NULL, timestamp INTEGER NOT NULL, attempts INTEGER NOT NULL DEFAULT 0, next_attempt INTEGER NOT NULL DEFAULT 0)";

pub const INSERT_CLIENT_MESSAGE: &'static str =
    "INSERT INTO client_outbox(kind, recipient, body, timestamp) VALUES (?, ?, ?, ?)";

pub const SELECT_DUE_CLIENT_MESSAGES: &'static str =
    "SELECT id, kind, recipient, body, timestamp, attempts FROM client_outbox WHERE next_attempt <= ? ORDER BY id";

pub const DELETE_CLIENT_MESSAGE: &'static str = "DELETE FROM client_outbox WHERE id = ?";

pub const DEFER_CLIENT_MESSAGE: &'static str =
    "UPDATE client_outbox SET attempts = ?, next_attempt = ? WHERE id = ?";

pub const EXPEDITE_CLIENT_MESSAGES: &'static str =
    "UPDATE client_outbox SET next_attempt = 0 WHERE recipient = ?";

/// What a message in the outbox is addressed to.
#[derive(Clone, Copy, Debug, PartialEq, Eq, Structural)]
pub enum ClientOutboxKind {
    Direct,
    Group,
}

impl ClientOutboxKind {
    /// The text that stands for a kind in the database.
    pub open spec fn text(self) -> Seq<char> {
        match self {
            ClientOutboxKind::Direct => "direct"@,
            ClientOutboxKind::Group => "group"@,
        }
    }

    /// The text that stands for this kind in the database.
    pub fn as_str(self) -> (text: &'static str)
        ensures
            text@ == self.text(),
    {
        match self {
            ClientOutboxKind::Direct => "direct",
            ClientOutboxKind::Group => "group",
        }
    }

    /// The kind that a text of the database stands for.
    pub fn parse(value: &str) -> (kind: Result<Self, SqliteStoreError>)
        ensures
            match kind {
                Ok(k) => value@ == k.text(),
                Err(error) => {
                    &&& error is InvalidFormat
                    &&& value@ != ClientOutboxKind::Direct.text()
                    &&& value@ != ClientOutboxKind::Group.text()
                },
            },
    {
        if same_text(value, "direct") {
            Ok(ClientOutboxKind::Direct)
        } else if same_text(value, "group") {
            Ok(ClientOutboxKind::Group)
        } else {
            Err(SqliteStoreError::InvalidFormat)
        }
    }
}

/// A message in the outbox.
#[derive(Clone, Debug, Eq, PartialEq)]
pub struct ClientOutboxMessage {
    pub id: i64,
    pub kind: ClientOutboxKind,
    pub recipient: String,
    pub body: String,
    pub timestamp: u64,
    pub attempts: u32,
}

/// A row of the outbox as the database returns it.
#[derive(Clone, Debug)]
pub struct ClientOutboxRow {
    pub id: i64,
    pub kind: String,
    pub recipient: String,
    pub body: String,
    pub timestamp: i64,
    pub attempts: i64,
}

impl ClientOutboxRow {
    /// Whether the row spells a message.
    pub open spec fn is_valid(self) -> bool {
        &&& self.kind@ == ClientOutboxKind::Direct.text() || self.kind@
            == ClientOutboxKind::Group.text()
        &&& self.timestamp >= 0
        &&& 0 <= self.attempts <= u32::MAX
    }

    /// Whether the row spells the given message.
    pub open spec fn spells(self, message: ClientOutboxMessage) -> bool {
        &&& message.id == self.id
        &&& message.kind.text() == self.kind@
        &&& message.recipient == self.recipient
        &&& message.body == self.body
        &&& message.timestamp == self.timestamp
        &&& message.attempts == self.attempts
    }
}

/// A time as the database stores it.
pub fn stored_time(time: u64) -> (stored: Result<i64, SqliteStoreError>)
    ensures
        match stored {
            Ok(t) => t == time,
            Err(error) => error is InvalidFormat && time > i64::MAX,
        },
{
    if time <= 0x7fff_ffff_ffff_ffff {
        Ok(time as i64)
    } else {
        Err(SqliteStoreError::InvalidFormat)
    }
}

/// Reads a message from a row.
pub fn decode_client_message(row: ClientOutboxRow) -> (message: Result<
    ClientOutboxMessage,
    SqliteStoreError,
>)
    ensures
        match message {
            Ok(m) => row.is_valid() && row.spells(m),
            Err(error) => error is InvalidFormat && !row.is_valid(),
        },
{
    let kind = match ClientOutboxKind::parse(row.kind.as_str()) {
        Ok(kind) => kind,
        Err(_) => {
            return Err(SqliteStoreError::InvalidFormat);
        },
    };
    if row.timestamp < 0 || row.attempts < 0 || row.attempts > 0xffff_ffff {
        return Err(SqliteStoreError::InvalidFormat);
    }
    Ok(
        ClientOutboxMessage {
            id: row.id,
            kind,
            recipient: row.recipient,
            body: row.body,
            timestamp: row.timestamp as u64,
            attempts: row.attempts as u32,
        },
    )
}

/// Reads messages from rows, in their order. One invalid row invalidates all.
pub fn decode_client_messages(rows: Vec<ClientOutboxRow>) -> (messages: Result<
    Vec<ClientOutboxMessage>,
    SqliteStoreError,
>)
    ensures
        match messages {
            Ok(ms) => {
                &&& ms@.len() == rows@.len()
                &&& forall|i: int|
                    0 <= i < ms@.len() ==> (#[trigger] rows@[i]).is_valid() && rows@[i].spells(
                        ms@[i],
                    )
            },
            Err(error) => {
                &&& error is InvalidFormat
                &&& exists|i: int| 0 <= i < rows@.len() && !(#[trigger] rows@[i]).is_valid()
            },
        },
{
    let ghost all = rows@;
    let mut messages: Vec<ClientOutboxMessage> = Vec::new();
    for row in iter: rows
        invariant
            iter.seq() == all,
            messages@.len() == iter.index(),
            forall|i: int|
                0 <= i < messages@.len() ==> (#[trigger] all[i]).is_valid() && all[i].spells(
                    messages@[i],
                ),
    {
        assert(row == all[iter.index() as int]);
        match decode_client_message(row) {
            Ok(message) => messages.push(message),
            Err(error) => {
                return Err(error);
            },
        }
    }
    Ok(messages)
}

impl SqliteStore {
    /// Creates the outbox if it does not exist.
    pub fn initialize_client_outbox(&self) -> (statement: Statement)
        ensures
            statement.runs(CREATE_CLIENT_OUTBOX@, Seq::empty()),
    {
        Statement::plain(CREATE_CLIENT_OUTBOX)
    }

    /// Adds a message to the outbox.
    pub fn enqueue_client_message(
        &self,
        kind: ClientOutboxKind,
        recipient: &str,
        body: &str,
        timestamp: u64,
    ) -> (statement: Result<Statement, SqliteStoreError>)
        ensures
            match statement {
                Ok(s) => {
                    &&& timestamp <= i64::MAX
                    &&& s.runs(
                        INSERT_CLIENT_MESSAGE@,
                        seq![
                            SqlValueView::Text(kind.text()),
                            SqlValueView::Text(recipient@),
                            SqlValueView::Text(body@),
                            SqlValueView::Integer(timestamp as int),
                        ],
                    )
                },
                Err(error) => error is InvalidFormat && timestamp > i64::MAX,
            },
    {
        let stored = stored_time(timestamp)?;
        let statement = Statement::plain(INSERT_CLIENT_MESSAGE).bind(
            SqlValue::Text(kind.as_str().to_owned()),
        ).bind(SqlValue::Text(recipient.to_owned())).bind(SqlValue::Text(body.to_owned())).bind(
            SqlValue::Integer(stored),
        );
        assert(Seq::<SqlValueView>::empty().push(SqlValueView::Text(kind.text())).push(
            SqlValueView::Text(recipient@),
        ).push(SqlValueView::Text(body@)).push(SqlValueView::Integer(timestamp as int)) =~= seq![
            SqlValueView::Text(kind.text()),
            SqlValueView::Text(recipient@),
            SqlValueView::Text(body@),
            SqlValueView::Integer(timestamp as int),
        ]);
        Ok(statement)
    }

    /// Selects the messages whose next attempt is due, in the order in which they were added.
    pub fn due_client_messages(&self, now: u64) -> (statement: Result<Statement, SqliteStoreError>)
        ensures
            match statement {
                Ok(s) => {
                    &&& now <= i64::MAX
                    &&& s.runs(
                        SELECT_DUE_CLIENT_MESSAGES@,
                        seq![SqlValueView::Integer(now as int)],
                    )
                },
                Err(error) => error is InvalidFormat && now > i64::MAX,
            },
    {
        let stored = stored_time(now)?;
        let statement = Statement::plain(SELECT_DUE_CLIENT_MESSAGES).bind(
            SqlValue::Integer(stored),
        );
        assert(Seq::<SqlValueView>::empty().push(SqlValueView::Integer(now as int))
            =~= seq![SqlValueView::Integer(now as int)]);
        Ok(statement)
    }

    /// Removes a message that was sent.
    pub fn complete_client_message(&self, id: i64) -> (statement: Statement)
        ensures
            statement.runs(DELETE_CLIENT_MESSAGE@, seq![SqlValueView::Integer(id as int)]),
    {
        let statement = Statement::plain(DELETE_CLIENT_MESSAGE).bind(SqlValue::Integer(id));
        assert(Seq::<SqlValueView>::empty().push(SqlValueView::Integer(id as int))
            =~= seq![SqlValueView::Integer(id as int)]);
        statement
    }

    /// Records failed attempts to send a message and puts off the next one.
    pub fn defer_client_message(&self, id: i64, attempts: u32, next_attempt: u64) -> (statement:
        Result<Statement, SqliteStoreError>)
        ensures
            match statement {
                Ok(s) => {
                    &&& next_attempt <= i64::MAX
                    &&& s.runs(
                        DEFER_CLIENT_MESSAGE@,
                        seq![
                            SqlValueView::Integer(attempts as int),
                            SqlValueView::Integer(next_attempt as int),
                            SqlValueView::Integer(id as int),
                        ],
                    )
                },
                Err(error) => error is InvalidFormat && next_attempt > i64::MAX,
            },
    {
        let stored = stored_time(next_attempt)?;
        let statement = Statement::plain(DEFER_CLIENT_MESSAGE).bind(
            SqlValue::Integer(attempts as i64),
        ).bind(SqlValue::Integer(stored)).bind(SqlValue::Integer(id));
        assert(Seq::<SqlValueView>::empty().push(SqlValueView::Integer(attempts as int)).push(
            SqlValueView::Integer(next_attempt as int),
        ).push(SqlValueView::Integer(id as int)) =~= seq![
            SqlValueView::Integer(attempts as int),
            SqlValueView::Integer(next_attempt as int),
            SqlValueView::Integer(id as int),
        ]);
        Ok(statement)
    }

    /// Makes every message to a recipient due at once.
    pub fn expedite_client_messages(&self, recipient: &str) -> (statement: Statement)
        ensures
            statement.runs(EXPEDITE_CLIENT_MESSAGES@, seq![SqlValueView::Text(recipient@)]),
    {
        let statement = Statement::plain(EXPEDITE_CLIENT_MESSAGES).bind(
            SqlValue::Text(recipient.to_owned()),
        );
        assert(Seq::<SqlValueView>::empty().push(SqlValueView::Text(recipient@))
            =~= seq![SqlValueView::Text(recipient@)]);
        statement
    }
}

/// Every kind is read back from the text that stands for it, and no text stands for two kinds.
pub proof fn law_kind_round_trip(
    kind: ClientOutboxKind,
    text: &str,
    read: Result<ClientOutboxKind, SqliteStoreError>,
)
    requires
        text@ == kind.text(),
        call_ensures(ClientOutboxKind::parse, (text,), read),
    ensures
        read == Ok::<_, SqliteStoreError>(kind),
{
    reveal_strlit("direct");
    reveal_strlit("group");
    assert("direct"@.len() != "group"@.len());
}

/// A message that the outbox accepts is read back with its kind and its time.
pub proof fn law_enqueued_message_is_read_back(
    store: SqliteStore,
    kind: ClientOutboxKind,
    recipient: &str,
    body: &str,
    timestamp: u64,
    statement: Result<Statement, SqliteStoreError>,
    row: ClientOutboxRow,
    read: Result<ClientOutboxMessage, SqliteStoreError>,
)
    requires
        call_ensures(
            SqliteStore::enqueue_client_message,
            (&store, kind, recipient, body, timestamp),
            statement,
        ),
        statement is Ok,
        // the row holds the values that were bound, and no attempt was made yet
        ({
            let bound = statement->Ok_0.bound();
            &&& bound[0] == SqlValueView::Text(row.kind@)
            &&& bound[1] == SqlValueView::Text(row.recipient@)
            &&& bound[2] == SqlValueView::Text(row.body@)
            &&& bound[3] == SqlValueView::Integer(row.timestamp as int)
        }),
        row.attempts == 0,
        call_ensures(decode_client_message, (row,), read),
    ensures
        read is Ok,
        ({
            let message = read->Ok_0;
            &&& message.id == row.id
            &&& message.kind == kind
            &&& message.recipient@ == recipient@
            &&& message.body@ == body@
            &&& message.timestamp == timestamp
            &&& message.attempts == 0
        }),
{
    reveal_strlit("direct");
    reveal_strlit("group");
    assert("direct"@.len() != "group"@.len());
}

/// The statement that adds a message binds its kind, its recipient, its text and its time, in this
/// order and as they were given. A time that the database cannot hold is refused, and no other.
pub proof fn law_added_message_is_bound_as_given(
    store: &SqliteStore,
    kind: ClientOutboxKind,
    recipient: &str,
    body: &str,
    timestamp: u64,
    statement: Result<Statement, SqliteStoreError>,
)
    requires
        call_ensures(
            SqliteStore::enqueue_client_message,
            (store, kind, recipient, body, timestamp),
            statement,
        ),
    ensures
        statement is Ok <==> timestamp <= 0x7fff_ffff_ffff_ffff,
        statement matches Err(error) ==> error is InvalidFormat,
        statement matches Ok(s) ==> {
            &&& s.sql@ == INSERT_CLIENT_MESSAGE@
            &&& s.values@.len() == 4
            &&& s.values@[0] matches SqlValue::Text(text) && match kind {
                ClientOutboxKind::Direct => text@ == "direct"@,
                ClientOutboxKind::Group => text@ == "group"@,
            }
            &&& s.values@[1] matches SqlValue::Text(text) && text@ == recipient@
            &&& s.values@[2] matches SqlValue::Text(text) && text@ == body@
            &&& s.values@[3] matches SqlValue::Integer(time) && time == timestamp
        },
{
    if let Ok(s) = statement {
        lemma_bound_values(s);
        assert(s.values@[0]@ == s.bound()[0]);
        assert(s.values@[1]@ == s.bound()[1]);
        assert(s.values@[2]@ == s.bound()[2]);
        assert(s.values@[3]@ == s.bound()[3]);
    }
}

/// The statements that select, complete, put off and expedite messages bind the time, the number, the
/// attempts and the recipient as they were given. A time that the database cannot hold is refused, and
/// no other.
pub proof fn law_messages_are_addressed_as_given(
    store: &SqliteStore,
    id: i64,
    attempts: u32,
    time: u64,
    recipient: &str,
    due: Result<Statement, SqliteStoreError>,
    completed: Statement,
    deferred: Result<Statement, SqliteStoreError>,
    expedited: Statement,
)
    requires
        call_ensures(SqliteStore::due_client_messages, (store, time), due),
        call_ensures(SqliteStore::complete_client_message, (store, id), completed),
        call_ensures(SqliteStore::defer_client_message, (store, id, attempts, time), deferred),
        call_ensures(SqliteStore::expedite_client_messages, (store, recipient), expedited),
    ensures
        due is Ok <==> time <= 0x7fff_ffff_ffff_ffff,
        deferred is Ok <==> time <= 0x7fff_ffff_ffff_ffff,
        due matches Ok(s) ==> {
            &&& s.sql@ == SELECT_DUE_CLIENT_MESSAGES@
            &&& s.values@.len() == 1
            &&& s.values@[0] matches SqlValue::Integer(now) && now == time
        },
        completed.sql@ == DELETE_CLIENT_MESSAGE@,
        completed.values@.len() == 1,
        completed.values@[0] matches SqlValue::Integer(number) && number == id,
        deferred matches Ok(s) ==> {
            &&& s.sql@ == DEFER_CLIENT_MESSAGE@
            &&& s.values@.len() == 3
            &&& s.values@[0] matches SqlValue::Integer(count) && count == attempts
            &&& s.values@[1] matches SqlValue::Integer(next) && next == time
            &&& s.values@[2] matches SqlValue::Integer(number) && number == id
        },
        expedited.sql@ == EXPEDITE_CLIENT_MESSAGES@,
        expedited.values@.len() == 1,
        expedited.values@[0] matches SqlValue::Text(text) && text@ == recipient@,
{
    lemma_bound_values(completed);
    lemma_bound_values(expedited);
    assert(completed.values@[0]@ == completed.bound()[0]);
    assert(expedited.values@[0]@ == expedited.bound()[0]);
    if let Ok(s) = due {
        lemma_bound_values(s);
        assert(s.values@[0]@ == s.bound()[0]);
    }
    if let Ok(s) = deferred {
        lemma_bound_values(s);
        assert(s.values@[0]@ == s.bound()[0]);
        assert(s.values@[1]@ == s.bound()[1]);
        assert(s.values@[2]@ == s.bound()[2]);
    }
}

/// A row is read as the message that it holds: with its number, its recipient, its text, its time and
/// its attempts, and of the kind that its text tells. It is refused exactly if its kind is none, its
/// time is negative, or its attempts are no count.
pub proof fn law_row_is_read_as_it_is(
    row: ClientOutboxRow,
    message: Result<ClientOutboxMessage, SqliteStoreError>,
)
    requires
        call_ensures(decode_client_message, (row,), message),
    ensures
        message is Ok <==> (row.kind@ == "direct"@ || row.kind@ == "group"@) && row.timestamp >= 0
            && 0 <= row.attempts <= 0xffff_ffff,
        message matches Err(error) ==> error is InvalidFormat,
        message matches Ok(m) ==> {
            &&& m.id == row.id
            &&& m.kind is Direct <==> row.kind@ == "direct"@
            &&& m.kind is Group <==> row.kind@ == "group"@
            &&& m.recipient == row.recipient
            &&& m.body == row.body
            &&& m.timestamp == row.timestamp
            &&& m.attempts == row.attempts
        },
{
    reveal_strlit("direct");
    reveal_strlit("group");
    assert("direct"@.len() != "group"@.len());
}

/// Rows are read each as it would be alone, in their order; one that is refused has all refused.
pub proof fn law_rows_are_read_one_by_one(
    rows: Vec<ClientOutboxRow>,
    messages: Result<Vec<ClientOutboxMessage>, SqliteStoreError>,
    index: int,
    alone: Result<ClientOutboxMessage, SqliteStoreError>,
)
    requires
        call_ensures(decode_client_messages, (rows,), messages),
        0 <= index < rows@.len(),
        call_ensures(decode_client_message, (rows@[index],), alone),
    ensures
        alone is Err ==> messages is Err,
        messages matches Ok(all) ==> all@.len() == rows@.len() && alone == Ok::<
            _,
            SqliteStoreError,
        >(all@[index]),
        messages matches Err(error) ==> error is InvalidFormat,
{
    reveal_strlit("direct");
    reveal_strlit("group");
    assert("direct"@.len() != "group"@.len());
    if let Ok(all) = messages {
        assert(rows@[index].is_valid() && rows@[index].spells(all@[index]));
    }
}

/// Each kind has its own text, and is read from it.
pub proof fn law_kinds_have_their_texts(
    direct: &'static str,
    group: &'static str,
    value: &str,
    kind: Result<ClientOutboxKind, SqliteStoreError>,
)
    requires
        call_ensures(ClientOutboxKind::as_str, (ClientOutboxKind::Direct,), direct),
        call_ensures(ClientOutboxKind::as_str, (ClientOutboxKind::Group,), group),
        call_ensures(ClientOutboxKind::parse, (value,), kind),
    ensures
        direct@ == "direct"@,
        group@ == "group"@,
        value@ == "direct"@ <==> kind matches Ok(ClientOutboxKind::Direct),
        value@ == "group"@ <==> kind matches Ok(ClientOutboxKind::Group),
{
    reveal_strlit("direct");
    reveal_strlit("group");
    assert("direct"@.len() != "group"@.len());
}

/// What the database is asked: messages are stored with their kind, recipient, text and time, none of
/// them tried yet and all due at once; those that are due are selected in the order of their numbers;
/// and a message is deleted or put off by its number, or made due by its recipient.
pub proof fn law_outbox_statements_say_what_they_do()
    ensures
        CREATE_CLIENT_OUTBOX@ == "CREATE TABLE IF NOT EXISTS client_outbox (id INTEGER PRIMARY KEY AUTOINCREMENT, kind TEXT NOT NULL CHECK (kind IN ('direct', 'group')), recipient TEXT NOT NULL, body TEXT NOT NULL, timestamp INTEGER NOT NULL, attempts INTEGER NOT NULL DEFAULT 0, next_attempt INTEGER NOT NULL DEFAULT 0)"@,
        INSERT_CLIENT_MESSAGE@ == "INSERT INTO client_outbox(kind, recipient, body, timestamp) VALUES (?, ?, ?, ?)"@,
        SELECT_DUE_CLIENT_MESSAGES@ == "SELECT id, kind, recipient, body, timestamp, attempts FROM client_outbox WHERE next_attempt <= ? ORDER BY id"@,
        DELETE_CLIENT_MESSAGE@ == "DELETE FROM client_outbox WHERE id = ?"@,
        DEFER_CLIENT_MESSAGE@ == "UPDATE client_outbox SET attempts = ?, next_attempt = ? WHERE id = ?"@,
        EXPEDITE_CLIENT_MESSAGES@ == "UPDATE client_outbox SET next_attempt = 0 WHERE recipient = ?"@,
{
}

/// The outbox is created by the statement for it, and that has no values.
pub proof fn law_outbox_is_created(store: &SqliteStore, statement: Statement)
    requires
        call_ensures(SqliteStore::initialize_client_outbox, (store,), statement),
    ensures
        statement.sql@ == CREATE_CLIENT_OUTBOX@,
        statement.values@.len() == 0,
{
    lemma_bound_values(statement);
}

} // verus!
