use std::time::Duration;

use presage::content::ServiceId;
use presage::identity::OnNewIdentity;
use presage::identity_changes::{IdentityChange, IdentityChangeNotice};
use presage::outbox::{
    decode_client_message, decode_client_messages, ClientOutboxKind, ClientOutboxMessage,
    ClientOutboxRow,
};
use presage::statement::{SqlValue, Statement};
use presage::store::{parsed_value, quote, stored_pool_text, SqliteStore, SqliteStoreError};
use presage::store::{JournalMode, Synchronous};
use sqlx::sqlite::{SqliteArguments, SqlitePoolOptions, SqliteRow};
use sqlx::{ConnectOptions, Row, Sqlite, SqlitePool};

fn block_on<F: std::future::Future>(future: F) -> F::Output {
    tokio::runtime::Builder::new_current_thread()
        .enable_all()
        .build()
        .unwrap()
        .block_on(future)
}

async fn open(url: &str, trust: OnNewIdentity) -> (SqlitePool, SqliteStore) {
    let (options, plan) = SqliteStore::open(url, trust).unwrap();
    assert_eq!(plan.pool.journal_mode, JournalMode::Wal);
    assert_eq!(plan.pool.synchronous, Synchronous::Full);
    let pool = SqlitePoolOptions::new()
        .max_connections(plan.pool.max_connections)
        .connect_with(
            options
                .create_if_missing(plan.create_if_missing)
                .foreign_keys(plan.foreign_keys),
        )
        .await
        .unwrap();
    (pool, SqliteStore::new(plan.trust_new_identities))
}

fn prepared(statement: &Statement) -> sqlx::query::Query<'_, Sqlite, SqliteArguments<'_>> {
    let mut query = sqlx::query(statement.sql);
    for value in &statement.values {
        query = match value {
            SqlValue::Integer(number) => query.bind(*number),
            SqlValue::Text(text) => query.bind(text.as_str()),
            SqlValue::Blob(bytes) => query.bind(bytes.as_slice()),
            SqlValue::Boolean(flag) => query.bind(*flag),
            SqlValue::Uuid(uuid) => query.bind(sqlx::types::Uuid::from_u128(*uuid)),
        };
    }
    query
}

async fn execute(pool: &SqlitePool, statement: Statement) -> i64 {
    prepared(&statement)
        .execute(pool)
        .await
        .unwrap()
        .last_insert_rowid()
}

async fn rows(pool: &SqlitePool, statement: Statement) -> Vec<SqliteRow> {
    prepared(&statement).fetch_all(pool).await.unwrap()
}

async fn due(pool: &SqlitePool, store: &SqliteStore, now: u64) -> Vec<ClientOutboxMessage> {
    let statement = store.due_client_messages(now).unwrap();
    let rows = rows(pool, statement)
        .await
        .into_iter()
        .map(|row| ClientOutboxRow {
            id: row.get("id"),
            kind: row.get("kind"),
            recipient: row.get("recipient"),
            body: row.get("body"),
            timestamp: row.get("timestamp"),
            attempts: row.get("attempts"),
        })
        .collect();
    decode_client_messages(rows).unwrap()
}

#[test]
fn persists_and_schedules_client_outbox_messages() {
    block_on(async {
        let (pool, store) = open(":memory:", OnNewIdentity::Reject).await;
        execute(&pool, store.initialize_client_outbox()).await;
        let id = execute(
            &pool,
            store
                .enqueue_client_message(ClientOutboxKind::Direct, "recipient", "hello", 123)
                .unwrap(),
        )
        .await;
        let found = due(&pool, &store, 0).await;
        assert_eq!(found.len(), 1);
        assert_eq!(found[0].id, id);
        assert_eq!(found[0].body, "hello");
        assert_eq!(found[0].kind, ClientOutboxKind::Direct);
        assert_eq!(found[0].timestamp, 123);

        execute(&pool, store.defer_client_message(id, 1, 500).unwrap()).await;
        assert!(due(&pool, &store, 499).await.is_empty());
        assert_eq!(due(&pool, &store, 500).await[0].attempts, 1);
        execute(&pool, store.expedite_client_messages("recipient")).await;
        assert_eq!(due(&pool, &store, 0).await.len(), 1);
        execute(&pool, store.complete_client_message(id)).await;
        assert!(due(&pool, &store, u64::MAX / 2).await.is_empty());
    });
}

#[test]
fn database_is_named_by_its_url() {
    let (options, plan) = SqliteStore::open("sqlite://client.db", OnNewIdentity::Trust).unwrap();
    assert_eq!(
        options.get_filename().to_str(),
        Some("client.db")
    );
    assert_eq!(plan.key_pragma, None);
    assert_eq!(plan.pool.max_connections, 1);
    for url in ["sqlite://client.db?mode=none", "sqlite://client.db?unknown=1", "%ff"] {
        assert!(matches!(
            SqliteStore::open(url, OnNewIdentity::Trust),
            Err(SqliteStoreError::InvalidUrl)
        ));
    }
    for url in ["", ":memory:", "client.db", "sqlite://client.db?mode=ro", "a%20b.db"] {
        assert!(SqliteStore::open(url, OnNewIdentity::Trust).is_ok());
    }
}

#[test]
fn options_follow_the_url() {
    let query = |url: &str| {
        let (options, _) = SqliteStore::open(url, OnNewIdentity::Trust).unwrap();
        (
            options.get_filename().to_str().unwrap().to_string(),
            options.to_url_lossy().query().unwrap().to_string(),
        )
    };
    let expected = |path: &str, settings: &str| (path.to_string(), settings.to_string());
    assert_eq!(query("client.db"), expected("client.db", "mode=rw&cache=private"));
    assert_eq!(
        query("sqlite://sqlite://sqlite:client.db?mode=ro&cache=shared"),
        expected("client.db", "mode=ro&cache=shared")
    );
    assert_eq!(
        query("sqlite:a%20b.db?immutable=1&vfs=unix"),
        expected("a b.db", "mode=rw&cache=private&immutable=true&vfs=unix")
    );
    let (first, _) = SqliteStore::open("sqlite::memory:", OnNewIdentity::Trust).unwrap();
    let (second, _) = SqliteStore::open("sqlite::memory:", OnNewIdentity::Trust).unwrap();
    assert_ne!(first.get_filename(), second.get_filename());
    let (options, plan) =
        SqliteStore::open_with_passphrase("sqlite://client.db", Some("a'b"), OnNewIdentity::Trust)
            .unwrap();
    assert_eq!(options.get_filename().to_str(), Some("client.db"));
    assert!(plan.key_pragma.is_some());
}

#[test]
fn sqlite_store_serializes_pool_access() {
    block_on(async {
        let (pool, _) = open("sqlite::memory:", OnNewIdentity::TrustUnverified).await;
        assert_eq!(pool.options().get_max_connections(), 1);
        pool.close().await;
    });
}

#[test]
fn writer_waits_behind_an_active_transaction() {
    block_on(async {
        let (pool, store) = open(":memory:", OnNewIdentity::Reject).await;
        execute(&pool, store.initialize_client_outbox()).await;
        let mut transaction = pool.begin().await.unwrap();
        let first = store
            .enqueue_client_message(ClientOutboxKind::Direct, "a", "first", 1)
            .unwrap();
        prepared(&first).execute(&mut *transaction).await.unwrap();
        let second = store
            .enqueue_client_message(ClientOutboxKind::Direct, "b", "second", 2)
            .unwrap();
        let mut second_write = Box::pin(prepared(&second).execute(&pool));
        assert!(
            tokio::time::timeout(Duration::from_millis(100), &mut second_write)
                .await
                .is_err()
        );
        transaction.commit().await.unwrap();
        tokio::time::timeout(Duration::from_secs(1), second_write)
            .await
            .unwrap()
            .unwrap();
        assert_eq!(due(&pool, &store, 0).await.len(), 2);
    });
}

#[test]
fn outbox_keeps_the_order_of_messages() {
    block_on(async {
        let (pool, store) = open(":memory:", OnNewIdentity::Reject).await;
        execute(&pool, store.initialize_client_outbox()).await;
        execute(&pool, store.initialize_client_outbox()).await;
        for body in ["first", "second", "third"] {
            execute(
                &pool,
                store
                    .enqueue_client_message(ClientOutboxKind::Group, "group", body, 9)
                    .unwrap(),
            )
            .await;
        }
        let bodies: Vec<String> = due(&pool, &store, 0)
            .await
            .into_iter()
            .map(|message| message.body)
            .collect();
        assert_eq!(bodies, vec!["first", "second", "third"]);
    });
}

#[test]
fn due_messages_are_the_open_ones_in_time() {
    block_on(async {
        let (pool, store) = open(":memory:", OnNewIdentity::Reject).await;
        execute(&pool, store.initialize_client_outbox()).await;
        let mut ids = Vec::new();
        for (recipient, body) in [("a", "1"), ("b", "2"), ("a", "3"), ("c", "4")] {
            let statement = store
                .enqueue_client_message(ClientOutboxKind::Direct, recipient, body, 9)
                .unwrap();
            ids.push(execute(&pool, statement).await);
        }
        execute(&pool, store.defer_client_message(ids[0], 2, 100).unwrap()).await;
        execute(&pool, store.defer_client_message(ids[1], 5, 50).unwrap()).await;
        execute(&pool, store.complete_client_message(ids[2])).await;
        execute(&pool, store.defer_client_message(ids[2], 7, 0).unwrap()).await;
        let listed = |now: u64| {
            let (pool, store) = (pool.clone(), store.clone());
            async move {
                due(&pool, &store, now)
                    .await
                    .into_iter()
                    .map(|message| (message.id, message.attempts))
                    .collect::<Vec<_>>()
            }
        };
        assert_eq!(listed(0).await, vec![(ids[3], 0)]);
        assert_eq!(listed(50).await, vec![(ids[1], 5), (ids[3], 0)]);
        assert_eq!(
            listed(100).await,
            vec![(ids[0], 2), (ids[1], 5), (ids[3], 0)]
        );
        execute(&pool, store.expedite_client_messages("a")).await;
        assert_eq!(listed(0).await, vec![(ids[0], 2), (ids[3], 0)]);
        let statement = store
            .enqueue_client_message(ClientOutboxKind::Direct, "d", "5", 9)
            .unwrap();
        assert!(execute(&pool, statement).await > ids[3]);
    });
}

#[test]
fn times_beyond_the_database_are_refused() {
    let store = SqliteStore::new(OnNewIdentity::Trust);
    assert_eq!(
        store
            .enqueue_client_message(ClientOutboxKind::Direct, "a", "b", u64::MAX)
            .unwrap_err(),
        SqliteStoreError::InvalidFormat
    );
    assert_eq!(
        store.due_client_messages(1 << 63).unwrap_err(),
        SqliteStoreError::InvalidFormat
    );
    assert!(store.due_client_messages((1 << 63) - 1).is_ok());
    assert_eq!(
        store.defer_client_message(1, 1, u64::MAX).unwrap_err(),
        SqliteStoreError::InvalidFormat
    );
}

#[test]
fn malformed_rows_are_refused() {
    let row = |kind: &str, timestamp: i64, attempts: i64| ClientOutboxRow {
        id: 1,
        kind: kind.to_string(),
        recipient: "recipient".to_string(),
        body: "body".to_string(),
        timestamp,
        attempts,
    };
    assert!(decode_client_message(row("group", 0, 0)).is_ok());
    assert!(decode_client_message(row("Group", 0, 0)).is_err());
    assert!(decode_client_message(row("direct", -1, 0)).is_err());
    assert!(decode_client_message(row("direct", 0, -1)).is_err());
    assert!(decode_client_message(row("direct", 0, 1 << 32)).is_err());
    assert!(decode_client_messages(vec![row("direct", 0, 0), row("", 0, 0)]).is_err());
    for kind in [ClientOutboxKind::Direct, ClientOutboxKind::Group] {
        assert_eq!(ClientOutboxKind::parse(kind.as_str()).unwrap(), kind);
    }
}

#[test]
fn passphrase_is_quoted() {
    assert_eq!(quote("secret"), "'secret'");
    assert_eq!(quote("it's ''\u{e4}"), "'it''s ''''\u{e4}'");
    assert_eq!(quote(""), "''");
    let (_, plan) = SqliteStore::open_with_passphrase(
        "sqlite://client.db",
        Some("o'clock"),
        OnNewIdentity::Trust,
    )
    .unwrap();
    assert!(plan.create_if_missing);
    assert!(plan.foreign_keys);
    assert_eq!(plan.key_pragma.as_deref(), Some("'o''clock'"));
    assert_eq!(plan.pool, SqliteStore::open_with_options());
    assert_eq!(plan.trust_new_identities, OnNewIdentity::Trust);
    block_on(async {
        let (pool, _) = open(":memory:", OnNewIdentity::Reject).await;
        let sql = format!("SELECT {}", quote("it's ''\u{e4}"));
        let read: String = sqlx::query_scalar(sql.as_str())
            .fetch_one(&pool)
            .await
            .unwrap();
        assert_eq!(read, "it's ''\u{e4}");
    });
}

async fn open_state() -> (SqlitePool, SqliteStore) {
    let (pool, store) = open(":memory:", OnNewIdentity::Reject).await;
    for sql in [
        "CREATE TABLE kv (key TEXT PRIMARY KEY, value BLOB NOT NULL)",
        "CREATE TABLE sessions (address TEXT, identity TEXT)",
        "CREATE TABLE identities (address TEXT, identity TEXT, record BLOB)",
        "CREATE TABLE pre_keys (id INTEGER)",
        "CREATE TABLE signed_pre_keys (id INTEGER)",
        "CREATE TABLE kyber_pre_keys (id INTEGER)",
        "CREATE TABLE sender_keys (address TEXT, identity TEXT)",
        "CREATE TABLE contacts_verification_state \
         (destination_aci, identity_key BLOB, is_verified BOOLEAN)",
    ] {
        sqlx::query(sql).execute(&pool).await.unwrap();
    }
    (pool, store)
}

async fn value(pool: &SqlitePool, statement: Statement) -> Option<Vec<u8>> {
    rows(pool, statement)
        .await
        .first()
        .map(|row| row.get::<Vec<u8>, _>(0))
}

#[test]
fn account_entropy_pool_is_read_back() {
    block_on(async {
        let (pool, store) = open_state().await;
        let stored = value(&pool, store.fetch_account_entropy_pool()).await;
        assert_eq!(stored_pool_text(stored), Ok(None));
        execute(&pool, store.store_account_entropy_pool(Some("p\u{e4}ool"))).await;
        let stored = value(&pool, store.fetch_account_entropy_pool()).await;
        assert_eq!(stored_pool_text(stored), Ok(Some("p\u{e4}ool".to_string())));
        execute(&pool, store.store_account_entropy_pool(None)).await;
        assert_eq!(value(&pool, store.fetch_account_entropy_pool()).await, None);
        assert_eq!(
            stored_pool_text(Some(vec![0xff])),
            Err(SqliteStoreError::InvalidFormat)
        );
    });
}

#[test]
fn state_is_stored_and_removed() {
    block_on(async {
        let (pool, store) = open_state().await;
        execute(&pool, store.store_master_key(Some(&[7; 32]))).await;
        assert_eq!(
            value(&pool, store.fetch_master_key()).await,
            Some(vec![7; 32])
        );
        execute(&pool, store.store_master_key(None)).await;
        assert_eq!(value(&pool, store.fetch_master_key()).await, None);
        execute(&pool, store.save_sender_certificate(vec![1, 2])).await;
        assert_eq!(
            value(&pool, store.sender_certificate()).await,
            Some(vec![1, 2])
        );
        execute(&pool, store.set_aci_identity_key_pair("aci", vec![3])).await;
        execute(&pool, store.set_pni_identity_key_pair("pni", vec![4])).await;
        execute(&pool, store.save_registration_data("{}".to_string())).await;
        let found = rows(&pool, store.load_registration_data()).await;
        assert_eq!(found[0].get::<String, _>(0), "{}");
        sqlx::query("INSERT INTO sessions VALUES ('a', 'aci')")
            .execute(&pool)
            .await
            .unwrap();
        let statements = store.clear_registration();
        assert_eq!(statements.len(), 7);
        for statement in statements {
            execute(&pool, statement).await;
        }
        assert!(rows(&pool, store.load_registration_data()).await.is_empty());
        let sessions = sqlx::query("SELECT * FROM sessions")
            .fetch_all(&pool)
            .await
            .unwrap();
        assert!(sessions.is_empty());
        assert!(value(&pool, store.sender_certificate()).await.is_some());
        execute(&pool, store.clear()).await;
        assert!(value(&pool, store.sender_certificate()).await.is_none());
    });
}

#[test]
fn registration_counts_only_when_it_was_read() {
    let store = SqliteStore::new(OnNewIdentity::TrustUnverified);
    assert!(!store.is_registered::<()>(&Ok(None)));
    assert!(!store.is_registered(&Err(())));
    assert_eq!(parsed_value::<u8>(None), Ok(None));
    assert_eq!(parsed_value(Some(Some(1))), Ok(Some(1)));
    assert_eq!(
        parsed_value::<u8>(Some(None)),
        Err(SqliteStoreError::InvalidFormat)
    );
}

async fn notices(pool: &SqlitePool, store: &SqliteStore) -> Vec<IdentityChangeNotice> {
    rows(pool, store.identity_change_notices())
        .await
        .into_iter()
        .map(|row| IdentityChangeNotice {
            address: row.get("address"),
            verified: row.get("verified"),
        })
        .collect()
}

async fn found_change(
    pool: &SqlitePool,
    store: &SqliteStore,
    address: &str,
) -> Option<IdentityChange> {
    rows(pool, store.find_identity_change(address))
        .await
        .first()
        .map(|row| IdentityChange {
            identity: row.get("identity"),
            new_record: row.get("new_record"),
        })
}

async fn verification(
    pool: &SqlitePool,
    store: &SqliteStore,
    address: &str,
    service_id: Option<ServiceId>,
) -> bool {
    let read = match store.find_verification(address, service_id) {
        Some(statement) => rows(pool, statement)
            .await
            .first()
            .map(|row| row.get::<Option<bool>, _>(0)),
        None => None,
    };
    store.contact_is_verified(read)
}

#[test]
fn changes_of_unverified_contacts_are_dismissed() {
    block_on(async {
        let (pool, store) = open_state().await;
        execute(&pool, store.initialize_identity_change_tracking()).await;
        execute(&pool, store.record_identity_change("b", "aci", vec![1], false)).await;
        execute(&pool, store.record_identity_change("a", "aci", vec![2], true)).await;
        let found = notices(&pool, &store).await;
        assert_eq!(found.len(), 2);
        assert_eq!(found[0].address, "a");
        assert!(found[0].verified);
        assert!(!found[1].verified);
        execute(&pool, store.dismiss_identity_change("a")).await;
        execute(&pool, store.dismiss_identity_change("b")).await;
        assert_eq!(notices(&pool, &store).await.len(), 1);
        execute(&pool, store.record_identity_change("a", "aci", vec![3], false)).await;
        assert!(notices(&pool, &store).await[0].verified);
    });
}

#[test]
fn accepted_change_replaces_the_identity() {
    block_on(async {
        let (pool, store) = open_state().await;
        execute(&pool, store.initialize_identity_change_tracking()).await;
        for sql in [
            "INSERT INTO identities VALUES ('a', 'aci', X'01'), ('b', 'aci', X'01')",
            "INSERT INTO sessions VALUES ('a', 'aci'), ('b', 'aci')",
            "INSERT INTO sender_keys VALUES ('a', 'aci'), ('b', 'aci')",
            "INSERT INTO contacts_verification_state VALUES ('a', X'01', true), ('b', X'01', true)",
        ] {
            sqlx::query(sql).execute(&pool).await.unwrap();
        }
        execute(&pool, store.record_identity_change("a", "aci", vec![2], true)).await;
        let identity = Some(ServiceId::Aci(5));
        assert!(verification(&pool, &store, "a", identity).await);
        assert!(!verification(&pool, &store, "a", None).await);
        let blocking = rows(&pool, store.count_blocking_identity_changes("a", "aci")).await;
        assert!(store.has_blocking_identity_change(blocking[0].get(0)));

        assert!(store
            .accept_identity_change("b", identity, found_change(&pool, &store, "b").await)
            .is_none());
        let change = found_change(&pool, &store, "a").await;
        let statements = store.accept_identity_change("a", identity, change).unwrap();
        assert_eq!(statements.len(), 5);
        for statement in statements {
            execute(&pool, statement).await;
        }
        assert!(notices(&pool, &store).await.is_empty());
        let blocking = rows(&pool, store.count_blocking_identity_changes("a", "aci")).await;
        assert!(!store.has_blocking_identity_change(blocking[0].get(0)));
        assert!(!verification(&pool, &store, "a", identity).await);
        let remaining = |table: &'static str| {
            let pool = pool.clone();
            async move {
                sqlx::query(table)
                    .fetch_all(&pool)
                    .await
                    .unwrap()
                    .into_iter()
                    .map(|row| row.get::<String, _>(0))
                    .collect::<Vec<_>>()
            }
        };
        assert_eq!(remaining("SELECT address FROM sessions").await, vec!["b"]);
        assert_eq!(remaining("SELECT address FROM sender_keys").await, vec!["b"]);
        let record: Vec<u8> = sqlx::query_scalar("SELECT record FROM identities WHERE address = 'a'")
            .fetch_one(&pool)
            .await
            .unwrap();
        assert_eq!(record, vec![2]);
    });
}

#[test]
fn change_at_an_unreadable_address_leaves_verification_alone() {
    let store = SqliteStore::new(OnNewIdentity::Reject);
    let change = IdentityChange {
        identity: "aci".to_string(),
        new_record: vec![2],
    };
    let statements = store
        .accept_identity_change("nobody", None, Some(change))
        .unwrap();
    assert_eq!(statements.len(), 4);
}
