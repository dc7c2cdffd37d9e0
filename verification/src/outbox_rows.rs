//! What the outbox holds.
//!
//! The rows of the outbox are modelled by a map, and the statements of [`crate::outbox`] by what
//! they make of it. The laws here say what the outbox holds after any use of it, and which messages
//! are due.

use vstd::prelude::*;

use crate::outbox::{
    decode_client_messages,
    ClientOutboxKind,
    ClientOutboxMessage,
    ClientOutboxRow,
    DEFER_CLIENT_MESSAGE,
    DELETE_CLIENT_MESSAGE,
    EXPEDITE_CLIENT_MESSAGES,
    INSERT_CLIENT_MESSAGE,
    SELECT_DUE_CLIENT_MESSAGES,
};
use crate::statement::{SqlValueView, Statement};
use crate::store::{SqliteStore, SqliteStoreError};

verus! {

/// A row of the outbox, without its number.
pub struct OutboxEntry {
    pub kind: Seq<char>,
    pub recipient: Seq<char>,
    pub body: Seq<char>,
    pub timestamp: int,
    pub attempts: int,
    pub next_attempt: int,
}

/// The rows of the outbox by their numbers, and the largest number that was ever given.
#[verifier::ext_equal]
pub struct OutboxRows {
    pub entries: Map<i64, OutboxEntry>,
    pub last_id: int,
}

/// What the outbox is used for.
pub enum OutboxOperation {
    Enqueue { kind: ClientOutboxKind, recipient: Seq<char>, body: Seq<char>, timestamp: u64 },
    Complete { id: i64 },
    Defer { id: i64, attempts: u32, next_attempt: u64 },
    Expedite { recipient: Seq<char> },
}

impl OutboxEntry {
    /// Whether a message can be read from the row.
    pub open spec fn is_valid(self) -> bool {
        &&& self.kind == ClientOutboxKind::Direct.text() || self.kind
            == ClientOutboxKind::Group.text()
        &&& 0 <= self.timestamp <= i64::MAX
        &&& 0 <= self.attempts <= u32::MAX
    }

    /// The row once its next attempt is due at once, if it is to a recipient.
    pub open spec fn expedited(self, recipient: Seq<char>) -> Self {
        if self.recipient == recipient {
            OutboxEntry { next_attempt: 0, ..self }
        } else {
            self
        }
    }

    /// Whether a row that was selected is this one.
    pub open spec fn is_selected_as(self, row: ClientOutboxRow) -> bool {
        &&& row.kind@ == self.kind
        &&& row.recipient@ == self.recipient
        &&& row.body@ == self.body
        &&& row.timestamp == self.timestamp
        &&& row.attempts == self.attempts
    }

    /// Whether a message is what this row holds.
    pub open spec fn holds(self, message: ClientOutboxMessage) -> bool {
        &&& message.kind.text() == self.kind
        &&& message.recipient@ == self.recipient
        &&& message.body@ == self.body
        &&& message.timestamp == self.timestamp
        &&& message.attempts == self.attempts
    }
}

impl OutboxRows {
    /// An outbox that was just created.
    pub open spec fn created() -> Self {
        OutboxRows { entries: Map::empty(), last_id: 0 }
    }

    /// Whether a message can be read from every row.
    pub open spec fn are_valid(self) -> bool {
        forall|id: i64| #[trigger] self.entries.contains_key(id) ==> self.entries[id].is_valid()
    }

    /// The rows after an operation. A message that is added gets the given number.
    pub open spec fn after(self, operation: OutboxOperation, inserted: i64) -> Self {
        match operation {
            OutboxOperation::Enqueue { kind, recipient, body, timestamp } => OutboxRows {
                entries: self.entries.insert(
                    inserted,
                    OutboxEntry {
                        kind: kind.text(),
                        recipient,
                        body,
                        timestamp: timestamp as int,
                        attempts: 0,
                        next_attempt: 0,
                    },
                ),
                last_id: inserted as int,
            },
            OutboxOperation::Complete { id } => OutboxRows {
                entries: self.entries.remove(id),
                ..self
            },
            OutboxOperation::Defer { id, attempts, next_attempt } => if self.entries.contains_key(
                id,
            ) {
                OutboxRows {
                    entries: self.entries.insert(
                        id,
                        OutboxEntry {
                            attempts: attempts as int,
                            next_attempt: next_attempt as int,
                            ..self.entries[id]
                        },
                    ),
                    ..self
                }
            } else {
                self
            },
            OutboxOperation::Expedite { recipient } => OutboxRows {
                entries: self.entries.map_values(
                    |entry: OutboxEntry| entry.expedited(recipient),
                ),
                ..self
            },
        }
    }

    /// Whether selected rows are those whose next attempt is due, each once, by rising number.
    pub open spec fn are_selected(self, now: int, selected: Seq<ClientOutboxRow>) -> bool {
        &&& forall|i: int, j: int|
            #![trigger selected[i], selected[j]]
            0 <= i < j < selected.len() ==> selected[i].id < selected[j].id
        &&& forall|i: int|
            0 <= i < selected.len() ==> {
                let id = (#[trigger] selected[i]).id;
                &&& self.entries.contains_key(id)
                &&& self.entries[id].next_attempt <= now
                &&& self.entries[id].is_selected_as(selected[i])
            }
        &&& forall|id: i64| #[trigger]
            self.entries.contains_key(id) && self.entries[id].next_attempt <= now ==> exists|i: int|
                0 <= i < selected.len() && (#[trigger] selected[i]).id == id
    }

    /// Whether messages are those whose next attempt is due, each once, by rising number, as the
    /// rows hold them.
    pub open spec fn are_due(self, now: int, messages: Seq<ClientOutboxMessage>) -> bool {
        &&& forall|i: int, j: int|
            #![trigger messages[i], messages[j]]
            0 <= i < j < messages.len() ==> messages[i].id < messages[j].id
        &&& forall|i: int|
            0 <= i < messages.len() ==> {
                let id = (#[trigger] messages[i]).id;
                &&& self.entries.contains_key(id)
                &&& self.entries[id].next_attempt <= now
                &&& self.entries[id].holds(messages[i])
            }
        &&& forall|id: i64| #[trigger]
            self.entries.contains_key(id) && self.entries[id].next_attempt <= now ==> exists|i: int|
                0 <= i < messages.len() && (#[trigger] messages[i]).id == id
    }
}

/// Whether a statement is the one for an operation.
pub open spec fn runs_operation(statement: Statement, operation: OutboxOperation) -> bool {
    match operation {
        OutboxOperation::Enqueue { kind, recipient, body, timestamp } => statement.runs(
            INSERT_CLIENT_MESSAGE@,
            seq![
                SqlValueView::Text(kind.text()),
                SqlValueView::Text(recipient),
                SqlValueView::Text(body),
                SqlValueView::Integer(timestamp as int),
            ],
        ),
        OutboxOperation::Complete { id } => statement.runs(
            DELETE_CLIENT_MESSAGE@,
            seq![SqlValueView::Integer(id as int)],
        ),
        OutboxOperation::Defer { id, attempts, next_attempt } => statement.runs(
            DEFER_CLIENT_MESSAGE@,
            seq![
                SqlValueView::Integer(attempts as int),
                SqlValueView::Integer(next_attempt as int),
                SqlValueView::Integer(id as int),
            ],
        ),
        OutboxOperation::Expedite { recipient } => statement.runs(
            EXPEDITE_CLIENT_MESSAGES@,
            seq![SqlValueView::Text(recipient)],
        ),
    }
}

/// What a statement makes of the rows: what its text says, for the values that are bound to it. A
/// row that is added gets a number that is larger than any before.
pub open spec fn executes(
    statement: Statement,
    before: OutboxRows,
    after: OutboxRows,
    inserted: i64,
) -> bool {
    let bound = statement.bound();
    &&& statement.sql@ == INSERT_CLIENT_MESSAGE@ ==> {
        &&& inserted > before.last_id
        &&& after == (OutboxRows {
            entries: before.entries.insert(
                inserted,
                OutboxEntry {
                    kind: bound[0]->Text_0,
                    recipient: bound[1]->Text_0,
                    body: bound[2]->Text_0,
                    timestamp: bound[3]->Integer_0,
                    attempts: 0,
                    next_attempt: 0,
                },
            ),
            last_id: inserted as int,
        })
    }
    &&& statement.sql@ == DELETE_CLIENT_MESSAGE@ ==> after == (OutboxRows {
        entries: before.entries.remove(bound[0]->Integer_0 as i64),
        ..before
    })
    &&& statement.sql@ == DEFER_CLIENT_MESSAGE@ ==> {
        let id = bound[2]->Integer_0 as i64;
        after == if before.entries.contains_key(id) {
            OutboxRows {
                entries: before.entries.insert(
                    id,
                    OutboxEntry {
                        attempts: bound[0]->Integer_0,
                        next_attempt: bound[1]->Integer_0,
                        ..before.entries[id]
                    },
                ),
                ..before
            }
        } else {
            before
        }
    }
    &&& statement.sql@ == EXPEDITE_CLIENT_MESSAGES@ ==> after == (OutboxRows {
        entries: before.entries.map_values(
            |entry: OutboxEntry| entry.expedited(bound[0]->Text_0),
        ),
        ..before
    })
}

/// What a statement selects from the rows: what its text says, for the values that are bound to it.
/// Selecting changes nothing.
pub open spec fn selects(
    statement: Statement,
    rows: OutboxRows,
    selected: Seq<ClientOutboxRow>,
) -> bool {
    statement.sql@ == SELECT_DUE_CLIENT_MESSAGES@ ==> rows.are_selected(
        statement.bound()[0]->Integer_0,
        selected,
    )
}

/// Each statement makes of the rows what its operation is.
pub proof fn law_statement_performs_its_operation(
    statement: Statement,
    operation: OutboxOperation,
    before: OutboxRows,
    after: OutboxRows,
    inserted: i64,
)
    requires
        runs_operation(statement, operation),
        executes(statement, before, after, inserted),
    ensures
        after == before.after(operation, inserted),
        operation is Enqueue ==> inserted > before.last_id,
{
    match operation {
        OutboxOperation::Expedite { recipient } => {
            assert(statement.bound()[0] == SqlValueView::Text(recipient));
            assert(after.entries =~= before.after(operation, inserted).entries);
        },
        _ => {},
    }
}

/// The store's functions give the statements of the operations.
pub proof fn law_store_runs_the_operations(
    store: SqliteStore,
    kind: ClientOutboxKind,
    recipient: &str,
    body: &str,
    timestamp: u64,
    id: i64,
    attempts: u32,
    next_attempt: u64,
    enqueue: Result<Statement, SqliteStoreError>,
    complete: Statement,
    defer: Result<Statement, SqliteStoreError>,
    expedite: Statement,
)
    requires
        call_ensures(
            SqliteStore::enqueue_client_message,
            (&store, kind, recipient, body, timestamp),
            enqueue,
        ),
        call_ensures(SqliteStore::complete_client_message, (&store, id), complete),
        call_ensures(
            SqliteStore::defer_client_message,
            (&store, id, attempts, next_attempt),
            defer,
        ),
        call_ensures(SqliteStore::expedite_client_messages, (&store, recipient), expedite),
    ensures
        enqueue matches Ok(statement) ==> timestamp <= i64::MAX && runs_operation(
            statement,
            OutboxOperation::Enqueue { kind, recipient: recipient@, body: body@, timestamp },
        ),
        runs_operation(complete, OutboxOperation::Complete { id }),
        defer matches Ok(statement) ==> runs_operation(
            statement,
            OutboxOperation::Defer { id, attempts, next_attempt },
        ),
        runs_operation(expedite, OutboxOperation::Expedite { recipient: recipient@ }),
{
}

/// A use of the outbox: operations, each with the number that an added message got.
pub open spec fn rows_after(uses: Seq<(OutboxOperation, i64)>) -> OutboxRows
    decreases uses.len(),
{
    if uses.len() == 0 {
        OutboxRows::created()
    } else {
        rows_after(uses.drop_last()).after(uses.last().0, uses.last().1)
    }
}

/// Whether every added message had a time that the outbox accepts and got a number larger than any
/// before.
pub open spec fn are_uses(uses: Seq<(OutboxOperation, i64)>) -> bool
    decreases uses.len(),
{
    uses.len() > 0 ==> {
        &&& are_uses(uses.drop_last())
        &&& uses.last().0 matches OutboxOperation::Enqueue { timestamp, .. } ==> {
            &&& timestamp <= i64::MAX
            &&& uses.last().1 > rows_after(uses.drop_last()).last_id
        }
    }
}

/// Whether a use added the message with a number.
pub open spec fn adds(used: (OutboxOperation, i64), id: i64) -> bool {
    used.0 is Enqueue && used.1 == id
}

/// Whether the message with a number was added by a use and not completed after it.
pub open spec fn is_open_since(uses: Seq<(OutboxOperation, i64)>, id: i64, at: int) -> bool {
    &&& 0 <= at < uses.len()
    &&& adds(uses[at], id)
    &&& forall|later: int|
        at < later < uses.len() ==> (#[trigger] uses[later]).0 != (OutboxOperation::Complete { id })
}

/// The attempts of a message: as it was last deferred, and none since it was added.
pub open spec fn attempts_of(uses: Seq<(OutboxOperation, i64)>, id: i64) -> int
    decreases uses.len(),
{
    if uses.len() == 0 || adds(uses.last(), id) {
        0
    } else {
        match uses.last().0 {
            OutboxOperation::Defer { id: deferred, attempts, .. } if deferred == id => {
                attempts as int
            },
            _ => attempts_of(uses.drop_last(), id),
        }
    }
}

/// When the next attempt for a message to a recipient is due: as it was last deferred, and at once
/// since it was added or expedited.
pub open spec fn next_attempt_of(
    uses: Seq<(OutboxOperation, i64)>,
    id: i64,
    recipient: Seq<char>,
) -> int
    decreases uses.len(),
{
    if uses.len() == 0 || adds(uses.last(), id) || uses.last().0 == (OutboxOperation::Expedite {
        recipient,
    }) {
        0
    } else {
        match uses.last().0 {
            OutboxOperation::Defer { id: deferred, next_attempt, .. } if deferred == id => {
                next_attempt as int
            },
            _ => next_attempt_of(uses.drop_last(), id, recipient),
        }
    }
}

/// Numbers are not given twice: none that is in use, or was, is larger than the last one.
proof fn lemma_numbers_are_fresh(uses: Seq<(OutboxOperation, i64)>)
    requires
        are_uses(uses),
    ensures
        forall|id: i64| #[trigger]
            rows_after(uses).entries.contains_key(id) ==> id <= rows_after(uses).last_id,
        forall|i: int|
            0 <= i < uses.len() && (#[trigger] uses[i]).0 is Enqueue ==> uses[i].1 <= rows_after(
                uses,
            ).last_id,
    decreases uses.len(),
{
    if uses.len() > 0 {
        let start = uses.drop_last();
        lemma_numbers_are_fresh(start);
        assert forall|i: int| 0 <= i < uses.len() && (#[trigger] uses[i]).0 is Enqueue implies uses[i].1
            <= rows_after(uses).last_id by {
            if i < start.len() {
                assert(start[i] == uses[i]);
            }
        }
    }
}

/// After any use, the outbox holds exactly the messages that were added and not completed. Each is
/// as it was added, with the attempts and the time of the next one as it was last deferred, or
/// neither since it was added, and at once since its recipient was expedited.
pub proof fn law_outbox_holds_what_is_open(uses: Seq<(OutboxOperation, i64)>, id: i64)
    requires
        are_uses(uses),
    ensures
        rows_after(uses).are_valid(),
        rows_after(uses).entries.contains_key(id) <==> exists|at: int| is_open_since(uses, id, at),
        forall|at: int| #[trigger]
            is_open_since(uses, id, at) ==> {
                let entry = rows_after(uses).entries[id];
                uses[at].0 matches OutboxOperation::Enqueue { kind, recipient, body, timestamp } && {
                    &&& entry.kind == kind.text()
                    &&& entry.recipient == recipient
                    &&& entry.body == body
                    &&& entry.timestamp == timestamp
                    &&& entry.attempts == attempts_of(uses, id)
                    &&& entry.next_attempt == next_attempt_of(uses, id, recipient)
                }
            },
    decreases uses.len(),
{
    if uses.len() > 0 {
        let start = uses.drop_last();
        let last = uses.len() - 1;
        let before = rows_after(start);
        let rows = rows_after(uses);
        law_outbox_holds_what_is_open(start, id);
        lemma_numbers_are_fresh(start);
        assert(rows.are_valid()) by {
            assert forall|other: i64| #[trigger]
                rows.entries.contains_key(other) implies rows.entries[other].is_valid() by {
                assert(before.entries.contains_key(other) || adds(uses.last(), other));
            }
        }
        assert forall|at: int| #[trigger] is_open_since(uses, id, at) && at < last implies
            is_open_since(start, id, at) by {
            assert(start[at] == uses[at]);
            assert forall|later: int| at < later < start.len() implies (#[trigger] start[later]).0
                != (OutboxOperation::Complete { id }) by {
                assert(start[later] == uses[later]);
            }
        }
        assert forall|at: int| #[trigger] is_open_since(start, id, at) && uses[last].0 != (
        OutboxOperation::Complete { id }) implies is_open_since(uses, id, at) by {
            assert(start[at] == uses[at]);
            assert forall|later: int| at < later < uses.len() implies (#[trigger] uses[later]).0
                != (OutboxOperation::Complete { id }) by {
                if later < last {
                    assert(start[later] == uses[later]);
                }
            }
        }
        if adds(uses[last], id) {
            assert(is_open_since(uses, id, last));
            assert forall|at: int| #[trigger] is_open_since(uses, id, at) implies at == last by {
                if at < last {
                    assert(start[at] == uses[at]);
                    assert(start[at].0 is Enqueue && start[at].1 == id);
                }
            }
        } else {
            assert forall|at: int| #[trigger] is_open_since(uses, id, at) implies at < last
                && is_open_since(start, id, at) by {
            }
            if rows.entries.contains_key(id) {
                assert(before.entries.contains_key(id));
                let at = choose|at: int| is_open_since(start, id, at);
                assert(is_open_since(uses, id, at));
            }
            if exists|at: int| is_open_since(uses, id, at) {
                let at = choose|at: int| is_open_since(uses, id, at);
                assert(is_open_since(start, id, at));
                assert(uses[last].0 != (OutboxOperation::Complete { id }));
                assert(before.entries.contains_key(id));
                assert(rows.entries.contains_key(id));
            }
            assert forall|at: int| #[trigger] is_open_since(uses, id, at) implies {
                let entry = rows.entries[id];
                uses[at].0 matches OutboxOperation::Enqueue { kind, recipient, body, timestamp } && {
                    &&& entry.kind == kind.text()
                    &&& entry.recipient == recipient
                    &&& entry.body == body
                    &&& entry.timestamp == timestamp
                    &&& entry.attempts == attempts_of(uses, id)
                    &&& entry.next_attempt == next_attempt_of(uses, id, recipient)
                }
            } by {
                assert(is_open_since(start, id, at));
                assert(start[at] == uses[at]);
                assert(uses[last].0 != (OutboxOperation::Complete { id }));
                assert(before.entries.contains_key(id));
            }
        }
    } else {
        assert forall|at: int| !is_open_since(uses, id, at) by {
        }
    }
}

/// The due messages are exactly those in the outbox whose next attempt is not later than now, each
/// once, by rising number, as the outbox holds them; they can always be read.
pub proof fn law_due_messages_are_those_in_time(
    store: SqliteStore,
    rows: OutboxRows,
    now: u64,
    statement: Result<Statement, SqliteStoreError>,
    selected: Vec<ClientOutboxRow>,
    read: Result<Vec<ClientOutboxMessage>, SqliteStoreError>,
)
    requires
        rows.are_valid(),
        call_ensures(SqliteStore::due_client_messages, (&store, now), statement),
        statement matches Ok(s) ==> selects(s, rows, selected@),
        call_ensures(decode_client_messages, (selected,), read),
    ensures
        statement is Err <==> now > i64::MAX,
        statement is Ok ==> (read matches Ok(messages) && rows.are_due(now as int, messages@)),
{
    if statement is Ok {
        assert(statement->Ok_0.bound()[0] == SqlValueView::Integer(now as int));
        assert forall|i: int| 0 <= i < selected@.len() implies (#[trigger] selected@[i]).is_valid() by {
            assert(rows.entries[selected@[i].id].is_valid());
        }
        assert(read is Ok);
        let messages = read->Ok_0@;
        assert forall|i: int| 0 <= i < messages.len() implies (#[trigger] messages[i]).id
            == selected@[i].id && rows.entries[selected@[i].id].holds(messages[i]) by {
            assert(selected@[i].spells(messages[i]));
        }
        assert forall|i: int, j: int|
            #![trigger messages[i], messages[j]]
            0 <= i < j < messages.len() implies messages[i].id < messages[j].id by {
            assert(selected@[i].id < selected@[j].id);
        }
        assert forall|i: int| 0 <= i < messages.len() implies {
            let id = (#[trigger] messages[i]).id;
            &&& rows.entries.contains_key(id)
            &&& rows.entries[id].next_attempt <= now
        } by {
            assert(selected@[i].id == messages[i].id);
        }
        assert forall|id: i64| #[trigger]
            rows.entries.contains_key(id) && rows.entries[id].next_attempt <= now implies exists|i: int|
            0 <= i < messages.len() && (#[trigger] messages[i]).id == id by {
            let i = choose|i: int| 0 <= i < selected@.len() && (#[trigger] selected@[i]).id == id;
            assert(messages[i].id == id);
        }
    }
}

/// What is due at a time is due later too, in the same order, as long as the outbox is not changed.
pub proof fn law_due_messages_stay_due(
    rows: OutboxRows,
    now: int,
    later: int,
    messages: Seq<ClientOutboxMessage>,
    more: Seq<ClientOutboxMessage>,
)
    requires
        now <= later,
        rows.are_due(now, messages),
        rows.are_due(later, more),
    ensures
        forall|i: int|
            0 <= i < messages.len() ==> exists|j: int|
                0 <= j < more.len() && (#[trigger] more[j]).id == (#[trigger] messages[i]).id
                    && rows.entries[messages[i].id].holds(more[j]),
        forall|a: int, b: int, i: int, j: int|
            #![trigger messages[a], messages[b], more[i], more[j]]
            0 <= a < b < messages.len() && 0 <= i < more.len() && 0 <= j < more.len() && more[i].id
                == messages[a].id && more[j].id == messages[b].id ==> i < j,
{
    assert forall|i: int| 0 <= i < messages.len() implies exists|j: int|
        0 <= j < more.len() && (#[trigger] more[j]).id == (#[trigger] messages[i]).id
            && rows.entries[messages[i].id].holds(more[j]) by {
        let id = messages[i].id;
        assert(rows.entries.contains_key(id) && rows.entries[id].next_attempt <= later);
        let j = choose|j: int| 0 <= j < more.len() && (#[trigger] more[j]).id == id;
        assert(rows.entries[more[j].id].holds(more[j]));
    }
    assert forall|a: int, b: int, i: int, j: int|
        #![trigger messages[a], messages[b], more[i], more[j]]
        0 <= a < b < messages.len() && 0 <= i < more.len() && 0 <= j < more.len() && more[i].id
            == messages[a].id && more[j].id == messages[b].id implies i < j by {
        assert(messages[a].id < messages[b].id);
        if j < i {
            assert(more[j].id < more[i].id);
        }
    }
}

} // verus!
