use wallet_storage::config::{PostgresConfig, PostgresCredentials, PostgresStorageType};
use wallet_storage::error::{BackendError, WalletStorageError};
use wallet_storage::iterator::StorageIterator;
use wallet_storage::options::{Document, RecordOptions, SearchOptions};
use wallet_storage::protocol::{Reply, Request, Sql, SqlValue, Step};
use wallet_storage::record::{EncryptedValue, StorageRecord, Tag, TagName};
use wallet_storage::statement::Statement;
use wallet_storage::storage::PostgresStorage;

fn storage() -> PostgresStorage {
    PostgresStorage::new("w1")
}

fn secret() -> EncryptedValue {
    EncryptedValue::new(vec![7, 8, 9], vec![10, 11, 12])
}

fn key() -> Vec<SqlValue> {
    vec![
        SqlValue::Text("w1".to_string()),
        SqlValue::Bytes(vec![1, 2, 3]),
        SqlValue::Bytes(vec![4, 5, 6]),
    ]
}

fn failed(code: Option<&str>, message: &str) -> Reply {
    Reply::Failed(BackendError::new(code.map(|code| code.to_string()), message.to_string()))
}

fn login(admin: bool) -> (Document<PostgresConfig>, Document<PostgresCredentials>) {
    (
        Document::Parsed(PostgresConfig { url: "db:5432".to_string() }),
        Document::Parsed(PostgresCredentials {
            account: "alice".to_string(),
            password: "secret".to_string(),
            admin_account: if admin { Some("root".to_string()) } else { None },
            admin_password: if admin { Some("hunter2".to_string()) } else { None },
        }),
    )
}

#[test]
fn add_asks_for_transaction_item_tags_and_commit() {
    let tags = vec![
        Tag::Encrypted(vec![1], vec![2]),
        Tag::PlainText(vec![3], "x".to_string()),
    ];
    let mut operation = storage().add(&[1, 2, 3], &[4, 5, 6], &secret(), &tags);
    assert_eq!(operation.advance(Reply::Ready), Step::Perform(Request::Begin));
    let mut item = key();
    item.push(SqlValue::Bytes(vec![7, 8, 9]));
    item.push(SqlValue::Bytes(vec![10, 11, 12]));
    assert_eq!(
        operation.advance(Reply::Done),
        Step::Perform(Request::Query { sql: Sql::Fixed(Statement::InsertItem), params: item })
    );
    assert_eq!(
        operation.advance(Reply::Rows(vec![vec![SqlValue::Int(41)]])),
        Step::Perform(Request::Execute {
            statement: Statement::InsertEncryptedTag,
            params: vec![
                SqlValue::Text("w1".to_string()),
                SqlValue::Int(41),
                SqlValue::Bytes(vec![1]),
                SqlValue::Bytes(vec![2]),
            ],
        })
    );
    assert_eq!(
        operation.advance(Reply::Affected(1)),
        Step::Perform(Request::Execute {
            statement: Statement::InsertPlainTag,
            params: vec![
                SqlValue::Text("w1".to_string()),
                SqlValue::Int(41),
                SqlValue::Bytes(vec![3]),
                SqlValue::Text("x".to_string()),
            ],
        })
    );
    assert_eq!(operation.advance(Reply::Affected(1)), Step::Perform(Request::Commit));
    assert_eq!(operation.advance(Reply::Done), Step::Finish(Ok(())));
    assert!(matches!(
        operation.advance(Reply::Done),
        Step::Finish(Err(WalletStorageError::InvalidState(_)))
    ));
}

#[test]
fn add_abandons_the_transaction_on_a_unique_violation() {
    let tags = vec![Tag::Encrypted(vec![1], vec![2])];
    let mut operation = storage().add(&[1, 2, 3], &[4, 5, 6], &secret(), &tags);
    operation.advance(Reply::Ready);
    operation.advance(Reply::Done);
    assert_eq!(
        operation.advance(failed(Some("23505"), "duplicate key")),
        Step::Perform(Request::Rollback)
    );
    assert_eq!(
        operation.advance(Reply::Done),
        Step::Finish(Err(WalletStorageError::ItemAlreadyExists))
    );
}

#[test]
fn add_abandons_the_transaction_when_a_tag_fails() {
    let tags = vec![Tag::Encrypted(vec![1], vec![2]), Tag::Encrypted(vec![1], vec![3])];
    let mut operation = storage().add(&[1, 2, 3], &[4, 5, 6], &secret(), &tags);
    operation.advance(Reply::Ready);
    operation.advance(Reply::Done);
    operation.advance(Reply::Rows(vec![vec![SqlValue::Int(1)]]));
    operation.advance(Reply::Affected(1));
    assert_eq!(
        operation.advance(failed(Some("23000"), "integrity")),
        Step::Perform(Request::Rollback)
    );
    assert_eq!(
        operation.advance(failed(None, "rollback failed too")),
        Step::Finish(Err(WalletStorageError::ItemAlreadyExists))
    );
}

#[test]
fn add_reports_other_failures_as_io_errors() {
    let mut operation = storage().add(&[1], &[2], &secret(), &[]);
    operation.advance(Reply::Ready);
    assert_eq!(
        operation.advance(failed(None, "connection closed")),
        Step::Finish(Err(WalletStorageError::IOError(
            "IO error during storage operation: connection closed".to_string()
        )))
    );
}

#[test]
fn add_without_tags_commits_after_the_item() {
    let mut operation = storage().add(&[1], &[2], &secret(), &[]);
    operation.advance(Reply::Ready);
    operation.advance(Reply::Done);
    assert_eq!(
        operation.advance(Reply::Rows(vec![vec![SqlValue::Int(5)]])),
        Step::Perform(Request::Commit)
    );
}

#[test]
fn add_tags_upserts_and_needs_the_item() {
    let tags = vec![Tag::PlainText(vec![3], "x".to_string())];
    let mut operation = storage().add_tags(&[1, 2, 3], &[4, 5, 6], &tags);
    assert_eq!(operation.advance(Reply::Ready), Step::Perform(Request::Begin));
    assert_eq!(
        operation.advance(Reply::Done),
        Step::Perform(Request::Query { sql: Sql::Fixed(Statement::SelectItemId), params: key() })
    );
    assert_eq!(
        operation.advance(Reply::Rows(vec![vec![SqlValue::Int(9)]])),
        Step::Perform(Request::Execute {
            statement: Statement::UpsertPlainTag,
            params: vec![
                SqlValue::Text("w1".to_string()),
                SqlValue::Int(9),
                SqlValue::Bytes(vec![3]),
                SqlValue::Text("x".to_string()),
            ],
        })
    );

    let mut missing = storage().add_tags(&[1, 2, 3], &[4, 5, 6], &tags);
    missing.advance(Reply::Ready);
    missing.advance(Reply::Done);
    assert_eq!(missing.advance(Reply::Rows(vec![])), Step::Perform(Request::Rollback));
    assert_eq!(
        missing.advance(Reply::Done),
        Step::Finish(Err(WalletStorageError::ItemNotFound))
    );
}

#[test]
fn update_tags_deletes_both_variants_before_it_inserts() {
    let tags = vec![Tag::Encrypted(vec![1], vec![2])];
    let mut operation = storage().update_tags(&[1, 2, 3], &[4, 5, 6], &tags);
    operation.advance(Reply::Ready);
    operation.advance(Reply::Done);
    let item = vec![SqlValue::Text("w1".to_string()), SqlValue::Int(9)];
    assert_eq!(
        operation.advance(Reply::Rows(vec![vec![SqlValue::Int(9)]])),
        Step::Perform(Request::Execute {
            statement: Statement::DeleteItemEncryptedTags,
            params: item.clone(),
        })
    );
    assert_eq!(
        operation.advance(Reply::Affected(3)),
        Step::Perform(Request::Execute {
            statement: Statement::DeleteItemPlainTags,
            params: item,
        })
    );
    assert!(matches!(
        operation.advance(Reply::Affected(0)),
        Step::Perform(Request::Execute { statement: Statement::InsertEncryptedTag, .. })
    ));
    assert_eq!(operation.advance(Reply::Affected(1)), Step::Perform(Request::Commit));
}

#[test]
fn delete_tags_looks_the_item_up_before_the_transaction() {
    let names = vec![TagName::OfEncrypted(vec![1]), TagName::OfPlain(vec![3])];
    let mut operation = storage().delete_tags(&[1, 2, 3], &[4, 5, 6], &names);
    assert_eq!(
        operation.advance(Reply::Ready),
        Step::Perform(Request::Query { sql: Sql::Fixed(Statement::SelectItemId), params: key() })
    );
    assert_eq!(
        operation.advance(Reply::Rows(vec![vec![SqlValue::Int(9)]])),
        Step::Perform(Request::Begin)
    );
    assert_eq!(
        operation.advance(Reply::Done),
        Step::Perform(Request::Execute {
            statement: Statement::DeleteEncryptedTag,
            params: vec![
                SqlValue::Text("w1".to_string()),
                SqlValue::Int(9),
                SqlValue::Bytes(vec![1]),
            ],
        })
    );
    assert!(matches!(
        operation.advance(Reply::Affected(1)),
        Step::Perform(Request::Execute { statement: Statement::DeletePlainTag, .. })
    ));
    assert_eq!(operation.advance(Reply::Affected(0)), Step::Perform(Request::Commit));
    assert_eq!(operation.advance(Reply::Done), Step::Finish(Ok(())));

    let mut missing = storage().delete_tags(&[1, 2, 3], &[4, 5, 6], &names);
    missing.advance(Reply::Ready);
    assert_eq!(
        missing.advance(Reply::Rows(vec![])),
        Step::Finish(Err(WalletStorageError::ItemNotFound))
    );
}

#[test]
fn update_judges_the_row_count() {
    let run = |reply: Reply| {
        let mut operation = storage().update(&[1, 2, 3], &[4, 5, 6], &secret());
        let mut params =
            vec![SqlValue::Bytes(vec![7, 8, 9]), SqlValue::Bytes(vec![10, 11, 12])];
        params.extend(key());
        assert_eq!(
            operation.advance(Reply::Ready),
            Step::Perform(Request::Execute { statement: Statement::UpdateItem, params })
        );
        operation.advance(reply)
    };
    assert_eq!(run(Reply::Affected(1)), Step::Finish(Ok(())));
    assert_eq!(run(Reply::Affected(0)), Step::Finish(Err(WalletStorageError::ItemNotFound)));
    assert_eq!(
        run(Reply::Affected(2)),
        Step::Finish(Err(WalletStorageError::InvalidState(
            "Postgres returned update row count: 2".to_string()
        )))
    );
    assert_eq!(
        run(Reply::Affected(1234567890123)),
        Step::Finish(Err(WalletStorageError::InvalidState(
            "Postgres returned update row count: 1234567890123".to_string()
        )))
    );
    assert!(matches!(
        run(Reply::Done),
        Step::Finish(Err(WalletStorageError::InvalidState(_)))
    ));
}

#[test]
fn delete_needs_exactly_one_row() {
    let run = |reply: Reply| {
        let mut operation = storage().delete(&[1, 2, 3], &[4, 5, 6]);
        assert_eq!(
            operation.advance(Reply::Ready),
            Step::Perform(Request::Execute { statement: Statement::DeleteItem, params: key() })
        );
        operation.advance(reply)
    };
    assert_eq!(run(Reply::Affected(1)), Step::Finish(Ok(())));
    assert_eq!(run(Reply::Affected(0)), Step::Finish(Err(WalletStorageError::ItemNotFound)));
    assert_eq!(run(Reply::Affected(2)), Step::Finish(Err(WalletStorageError::ItemNotFound)));
}

#[test]
fn set_storage_metadata_never_misses() {
    let run = |reply: Reply| {
        let mut operation = storage().set_storage_metadata(&[9, 9]);
        assert_eq!(
            operation.advance(Reply::Ready),
            Step::Perform(Request::Execute {
                statement: Statement::UpdateMetadata,
                params: vec![SqlValue::Bytes(vec![9, 9]), SqlValue::Text("w1".to_string())],
            })
        );
        operation.advance(reply)
    };
    assert_eq!(run(Reply::Affected(0)), Step::Finish(Ok(())));
    assert_eq!(run(Reply::Affected(1)), Step::Finish(Ok(())));
    assert_eq!(
        run(failed(Some("23505"), "duplicate")),
        Step::Finish(Err(WalletStorageError::IOError(
            "Error occurred while inserting the keys: duplicate".to_string()
        )))
    );
}

#[test]
fn get_storage_metadata_takes_the_first_row() {
    let run = |reply: Reply| {
        let mut operation = storage().get_storage_metadata();
        assert_eq!(
            operation.advance(Reply::Ready),
            Step::Perform(Request::Query {
                sql: Sql::Fixed(Statement::SelectMetadata),
                params: vec![SqlValue::Text("w1".to_string())],
            })
        );
        operation.advance(reply)
    };
    assert_eq!(
        run(Reply::Rows(vec![vec![SqlValue::Bytes(vec![1, 2])], vec![SqlValue::Bytes(vec![3])]])),
        Step::Finish(Ok(vec![1, 2]))
    );
    assert_eq!(run(Reply::Rows(vec![])), Step::Finish(Err(WalletStorageError::ItemNotFound)));
    assert!(matches!(
        run(Reply::Rows(vec![vec![SqlValue::Int(1)]])),
        Step::Finish(Err(WalletStorageError::InvalidState(_)))
    ));
}

#[test]
fn get_rejects_unreadable_options_before_any_request() {
    let mut operation = storage().get(&[1, 2, 3], &[4, 5, 6], Document::Malformed);
    assert_eq!(
        operation.advance(Reply::Ready),
        Step::Finish(Err(WalletStorageError::ConfigError))
    );
}

#[test]
fn get_shapes_the_record_by_its_options() {
    let item = Reply::Rows(vec![vec![
        SqlValue::Int(9),
        SqlValue::Bytes(vec![7, 8, 9]),
        SqlValue::Bytes(vec![10, 11, 12]),
    ]]);
    let mut operation = storage().get(&[1, 2, 3], &[4, 5, 6], Document::Absent);
    assert_eq!(
        operation.advance(Reply::Ready),
        Step::Perform(Request::Query { sql: Sql::Fixed(Statement::SelectItem), params: key() })
    );
    assert_eq!(
        operation.advance(item.clone()),
        Step::Finish(Ok(StorageRecord::new(vec![4, 5, 6], Some(secret()), None, None)))
    );

    let all = Document::Parsed(RecordOptions::new(true, false, true));
    let mut operation = storage().get(&[1, 2, 3], &[4, 5, 6], all);
    operation.advance(Reply::Ready);
    let tags = vec![SqlValue::Text("w1".to_string()), SqlValue::Int(9)];
    assert_eq!(
        operation.advance(item),
        Step::Perform(Request::Query {
            sql: Sql::Fixed(Statement::SelectEncryptedTags),
            params: tags.clone(),
        })
    );
    assert_eq!(
        operation.advance(Reply::Rows(vec![vec![
            SqlValue::Bytes(vec![1]),
            SqlValue::Bytes(vec![2]),
        ]])),
        Step::Perform(Request::Query {
            sql: Sql::Fixed(Statement::SelectPlainTags),
            params: tags,
        })
    );
    assert_eq!(
        operation.advance(Reply::Rows(vec![vec![
            SqlValue::Bytes(vec![3]),
            SqlValue::Text("x".to_string()),
        ]])),
        Step::Finish(Ok(StorageRecord::new(
            vec![4, 5, 6],
            None,
            Some(vec![1, 2, 3]),
            Some(vec![
                Tag::Encrypted(vec![1], vec![2]),
                Tag::PlainText(vec![3], "x".to_string()),
            ]),
        )))
    );
}

#[test]
fn get_of_a_missing_item_is_not_found() {
    let mut operation = storage().get(&[1, 2, 3], &[4, 5, 6], Document::Absent);
    operation.advance(Reply::Ready);
    assert_eq!(
        operation.advance(Reply::Rows(vec![])),
        Step::Finish(Err(WalletStorageError::ItemNotFound))
    );
}

#[test]
fn search_counts_before_it_streams() {
    let options = Document::Parsed(SearchOptions::new(true, true, true, true, true));
    let mut operation = storage().search(&[1, 2, 3], options);
    assert_eq!(
        operation.advance(Reply::Ready),
        Step::Perform(Request::Translate { wallet_id: "w1".to_string(), type_: vec![1, 2, 3], count: true })
    );
    let translated = || Reply::Translated {
        text: "SELECT 1".to_string(),
        params: vec![SqlValue::Bytes(vec![1, 2, 3])],
    };
    assert_eq!(
        operation.advance(translated()),
        Step::Perform(Request::Query {
            sql: Sql::Translated("SELECT 1".to_string()),
            params: vec![SqlValue::Bytes(vec![1, 2, 3])],
        })
    );
    assert_eq!(
        operation.advance(Reply::Rows(vec![vec![SqlValue::Int(2)]])),
        Step::Perform(Request::Translate { wallet_id: "w1".to_string(), type_: vec![1, 2, 3], count: false })
    );
    assert_eq!(operation.advance(translated()), Step::Perform(Request::PrepareTags));
    assert_eq!(
        operation.advance(Reply::Done),
        Step::Perform(Request::OpenCursor {
            wallet_id: "w1".to_string(),
            sql: Sql::Translated("SELECT 1".to_string()),
            params: vec![SqlValue::Bytes(vec![1, 2, 3])],
        })
    );
    match operation.advance(Reply::Done) {
        Step::Finish(Ok(stream)) => {
            assert_eq!(stream.get_total_count(), Ok(Some(2)));
            assert!(stream.has_cursor);
            assert!(stream.has_tag_retriever);
            assert_eq!(stream.options, RecordOptions::new(true, true, true));
        }
        _ => panic!("the search did not finish"),
    }
}

fn item_row(id: i64, name: u8) -> Vec<SqlValue> {
    vec![
        SqlValue::Int(id),
        SqlValue::Bytes(vec![name]),
        SqlValue::Bytes(vec![7]),
        SqlValue::Bytes(vec![8]),
        SqlValue::Bytes(vec![9]),
    ]
}

#[test]
fn count_of_a_search_is_the_number_of_streamed_records() {
    let rows = vec![item_row(1, 1), item_row(2, 2), item_row(3, 3)];

    let counting = Document::Parsed(SearchOptions::new(false, true, false, true, false));
    let mut operation = storage().search(&[1], counting);
    operation.advance(Reply::Ready);
    operation.advance(Reply::Translated { text: "count".to_string(), params: vec![] });
    let counted = match operation.advance(Reply::Rows(vec![vec![SqlValue::Int(rows.len() as i64)]]))
    {
        Step::Finish(Ok(mut stream)) => {
            assert_eq!(stream.advance(Reply::Ready), Step::Finish(Ok(None)));
            stream.get_total_count().unwrap().unwrap()
        }
        _ => panic!("the search for the count did not finish"),
    };

    let streaming = Document::Parsed(SearchOptions::new(true, false, false, true, false));
    let mut operation = storage().search(&[1], streaming);
    operation.advance(Reply::Ready);
    operation.advance(Reply::Translated { text: "records".to_string(), params: vec![] });
    let mut stream = match operation.advance(Reply::Done) {
        Step::Finish(Ok(stream)) => stream,
        _ => panic!("the search for the records did not finish"),
    };
    assert_eq!(stream.get_total_count(), Ok(None));
    let mut left = rows.into_iter();
    let mut records = 0;
    loop {
        assert_eq!(stream.advance(Reply::Ready), Step::Perform(Request::Fetch));
        match stream.advance(Reply::Fetched(left.next())) {
            Step::Finish(Ok(Some(record))) => {
                records += 1;
                assert_eq!(record.value, Some(EncryptedValue::new(vec![7], vec![8])));
                assert_eq!(record.type_, None);
                assert_eq!(record.tags, None);
            }
            Step::Finish(Ok(None)) => break,
            _ => panic!("the fetch failed"),
        }
    }
    assert_eq!(records, counted);
    assert_eq!(stream.consumed, 3);
}

#[test]
fn search_without_records_is_exhausted_at_once() {
    let options = Document::Parsed(SearchOptions::new(false, false, true, true, true));
    let mut operation = storage().search(&[1], options);
    match operation.advance(Reply::Ready) {
        Step::Finish(Ok(mut stream)) => {
            assert_eq!(stream.get_total_count(), Ok(None));
            assert_eq!(stream.advance(Reply::Ready), Step::Finish(Ok(None)));
            assert_eq!(stream.advance(Reply::Ready), Step::Finish(Ok(None)));
        }
        _ => panic!("the search asked for something"),
    }
}

#[test]
fn search_rejects_unreadable_options_and_expressions() {
    let mut operation = storage().search(&[1], Document::Malformed);
    assert!(matches!(
        operation.advance(Reply::Ready),
        Step::Finish(Err(WalletStorageError::ConfigError))
    ));
    let mut operation = storage().search(&[1], Document::Absent);
    assert_eq!(
        operation.advance(Reply::Ready),
        Step::Perform(Request::Translate { wallet_id: "w1".to_string(), type_: vec![1], count: false })
    );
    assert!(matches!(
        operation.advance(Reply::Rejected("unknown operator".to_string())),
        Step::Finish(Err(WalletStorageError::QueryError(message))) if message == "unknown operator"
    ));
}

#[test]
fn search_rejects_a_count_that_is_none() {
    let options = Document::Parsed(SearchOptions::new(false, true, false, true, false));
    let mut operation = storage().search(&[1], options);
    operation.advance(Reply::Ready);
    operation.advance(Reply::Translated { text: "count".to_string(), params: vec![] });
    assert!(matches!(
        operation.advance(Reply::Rows(vec![vec![SqlValue::Int(-1)]])),
        Step::Finish(Err(WalletStorageError::InvalidState(_)))
    ));
}

#[test]
fn stream_fetches_tags_plaintext_first() {
    let mut stream = StorageIterator::new(true, true, RecordOptions::new(true, true, true), None);
    assert_eq!(stream.advance(Reply::Ready), Step::Perform(Request::Fetch));
    assert_eq!(
        stream.advance(Reply::Fetched(Some(item_row(5, 1)))),
        Step::Perform(Request::Query {
            sql: Sql::Fixed(Statement::SelectPlainTagsById),
            params: vec![SqlValue::Int(5)],
        })
    );
    assert_eq!(
        stream.advance(Reply::Rows(vec![vec![
            SqlValue::Bytes(vec![3]),
            SqlValue::Text("x".to_string()),
        ]])),
        Step::Perform(Request::Query {
            sql: Sql::Fixed(Statement::SelectEncryptedTagsById),
            params: vec![SqlValue::Int(5)],
        })
    );
    assert_eq!(
        stream.advance(Reply::Rows(vec![vec![
            SqlValue::Bytes(vec![1]),
            SqlValue::Bytes(vec![2]),
        ]])),
        Step::Finish(Ok(Some(StorageRecord::new(
            vec![1],
            Some(EncryptedValue::new(vec![7], vec![8])),
            Some(vec![9]),
            Some(vec![
                Tag::PlainText(vec![3], "x".to_string()),
                Tag::Encrypted(vec![1], vec![2]),
            ]),
        ))))
    );
    assert_eq!(stream.consumed, 1);
}

#[test]
fn stream_without_tag_statements_cannot_fetch_tags() {
    let mut stream = StorageIterator::new(true, false, RecordOptions::new(false, true, true), None);
    stream.advance(Reply::Ready);
    assert_eq!(
        stream.advance(Reply::Fetched(Some(item_row(5, 1)))),
        Step::Finish(Err(WalletStorageError::InvalidState(
            "Fetch tags option set and tag retriever is None".to_string()
        )))
    );
}

#[test]
fn get_all_prepares_tags_and_opens_a_cursor() {
    let mut operation = storage().get_all();
    assert_eq!(operation.advance(Reply::Ready), Step::Perform(Request::PrepareTags));
    assert_eq!(
        operation.advance(Reply::Done),
        Step::Perform(Request::OpenCursor {
            wallet_id: "w1".to_string(),
            sql: Sql::Fixed(Statement::SelectAllItems),
            params: vec![SqlValue::Text("w1".to_string())],
        })
    );
    match operation.advance(Reply::Done) {
        Step::Finish(Ok(stream)) => {
            assert_eq!(stream.options, RecordOptions::new(true, true, true));
            assert_eq!(stream.get_total_count(), Ok(None));
        }
        _ => panic!("the scan did not finish"),
    }
}

#[test]
fn close_succeeds() {
    let mut handle = storage();
    assert_eq!(handle.close(), Ok(()));
    assert_eq!(handle, storage());
}

#[test]
fn lifecycle_needs_readable_documents() {
    let storage_type = PostgresStorageType::new();
    let (config, credentials) = login(true);
    let mut operation = storage_type.init_storage(Document::Absent, credentials.clone());
    assert_eq!(
        operation.advance(Reply::Ready),
        Step::Finish(Err(WalletStorageError::ConfigError))
    );
    let mut operation = storage_type.create_storage("w1", config.clone(), Document::Malformed, &[1]);
    assert_eq!(
        operation.advance(Reply::Ready),
        Step::Finish(Err(WalletStorageError::ConfigError))
    );
    let mut operation = storage_type.open_storage("w1", Document::Malformed, credentials);
    assert!(matches!(
        operation.advance(Reply::Ready),
        Step::Finish(Err(WalletStorageError::ConfigError))
    ));
    let mut operation = storage_type.delete_storage("w1", config, Document::Absent);
    assert_eq!(
        operation.advance(Reply::Ready),
        Step::Finish(Err(WalletStorageError::ConfigError))
    );
}

#[test]
fn administrative_operations_do_nothing_without_the_admin_login() {
    let storage_type = PostgresStorageType::new();
    let (config, credentials) = login(false);
    let mut operation = storage_type.init_storage(config.clone(), credentials.clone());
    assert_eq!(operation.advance(Reply::Ready), Step::Finish(Ok(())));
    let mut operation =
        storage_type.create_storage("w1", config.clone(), credentials.clone(), &[1]);
    assert_eq!(operation.advance(Reply::Ready), Step::Finish(Ok(())));
    let mut operation = storage_type.delete_storage("w1", config, credentials);
    assert_eq!(operation.advance(Reply::Ready), Step::Finish(Ok(())));
}

#[test]
fn init_creates_database_then_schema() {
    let storage_type = PostgresStorageType::new();
    let (config, credentials) = login(true);
    let mut operation = storage_type.init_storage(config, credentials);
    assert_eq!(
        operation.advance(Reply::Ready),
        Step::Perform(Request::Connect { url: "postgresql://root:hunter2@db:5432".to_string() })
    );
    assert_eq!(
        operation.advance(Reply::Done),
        Step::Perform(Request::Execute { statement: Statement::CreateDatabase, params: vec![] })
    );
    assert_eq!(
        operation.advance(failed(Some("42P04"), "database exists")),
        Step::Perform(Request::Disconnect)
    );
    assert_eq!(
        operation.advance(Reply::Done),
        Step::Perform(Request::Connect {
            url: "postgresql://alice:secret@db:5432/wallets".to_string()
        })
    );
    let mut step = operation.advance(Reply::Done);
    let mut statements = 0;
    while let Step::Perform(Request::Execute { statement, params }) = step {
        assert_eq!(Some(statement), wallet_storage::statement::schema_statement(statements));
        assert!(params.is_empty());
        statements += 1;
        step = operation.advance(Reply::Affected(0));
    }
    assert_eq!(statements, 14);
    assert_eq!(step, Step::Perform(Request::Disconnect));
    assert_eq!(operation.advance(Reply::Done), Step::Finish(Ok(())));
}

#[test]
fn init_reports_a_database_that_cannot_be_created() {
    let storage_type = PostgresStorageType::new();
    let (config, credentials) = login(true);
    let mut operation = storage_type.init_storage(config, credentials);
    operation.advance(Reply::Ready);
    operation.advance(Reply::Done);
    assert_eq!(
        operation.advance(failed(Some("42501"), "permission denied")),
        Step::Perform(Request::Disconnect)
    );
    assert_eq!(
        operation.advance(Reply::Done),
        Step::Finish(Err(WalletStorageError::IOError(
            "Error occurred while creating the database: permission denied".to_string()
        )))
    );
}

#[test]
fn init_reports_a_schema_that_cannot_be_created() {
    let storage_type = PostgresStorageType::new();
    let (config, credentials) = login(true);
    let mut operation = storage_type.init_storage(config, credentials);
    operation.advance(Reply::Ready);
    operation.advance(Reply::Done);
    operation.advance(Reply::Affected(0));
    assert_eq!(
        operation.advance(Reply::Done),
        Step::Perform(Request::Connect {
            url: "postgresql://alice:secret@db:5432/wallets".to_string()
        })
    );
    operation.advance(Reply::Done);
    assert_eq!(
        operation.advance(failed(None, "disk full")),
        Step::Perform(Request::Disconnect)
    );
    assert_eq!(
        operation.advance(Reply::Done),
        Step::Finish(Err(WalletStorageError::IOError(
            "Error occurred while creating wallet schema: disk full".to_string()
        )))
    );
}

fn creation_up_to_the_lookup() -> wallet_storage::lifecycle::WalletCreate {
    let storage_type = PostgresStorageType::new();
    let (config, credentials) = login(true);
    let mut operation = storage_type.create_storage("w1", config, credentials, &[1, 2]);
    assert_eq!(
        operation.advance(Reply::Ready),
        Step::Perform(Request::Connect {
            url: "postgresql://alice:secret@db:5432/wallets".to_string()
        })
    );
    assert_eq!(
        operation.advance(Reply::Done),
        Step::Perform(Request::Query {
            sql: Sql::Fixed(Statement::SelectWallet),
            params: vec![SqlValue::Text("w1".to_string())],
        })
    );
    operation
}

#[test]
fn create_inserts_the_metadata_of_a_wallet_that_has_none() {
    let mut operation = creation_up_to_the_lookup();
    assert_eq!(
        operation.advance(Reply::Rows(vec![])),
        Step::Perform(Request::Execute {
            statement: Statement::InsertMetadata,
            params: vec![SqlValue::Text("w1".to_string()), SqlValue::Bytes(vec![1, 2])],
        })
    );
    assert_eq!(operation.advance(Reply::Affected(1)), Step::Perform(Request::Disconnect));
    assert_eq!(operation.advance(Reply::Done), Step::Finish(Ok(())));
}

#[test]
fn create_of_a_wallet_that_has_metadata_already_exists() {
    let mut operation = creation_up_to_the_lookup();
    assert_eq!(
        operation.advance(Reply::Rows(vec![vec![SqlValue::Text("w1".to_string())]])),
        Step::Perform(Request::Disconnect)
    );
    assert_eq!(
        operation.advance(Reply::Done),
        Step::Finish(Err(WalletStorageError::AlreadyExists))
    );
}

#[test]
fn create_maps_a_unique_violation_to_already_exists() {
    let mut operation = creation_up_to_the_lookup();
    operation.advance(Reply::Rows(vec![]));
    assert_eq!(
        operation.advance(failed(Some("23505"), "duplicate key")),
        Step::Perform(Request::Disconnect)
    );
    assert_eq!(
        operation.advance(Reply::Done),
        Step::Finish(Err(WalletStorageError::AlreadyExists))
    );
}

#[test]
fn create_reports_other_failures_with_their_message() {
    let storage_type = PostgresStorageType::new();
    let (config, credentials) = login(true);
    let mut operation = storage_type.create_storage("w1", config, credentials, &[1]);
    operation.advance(Reply::Ready);
    assert_eq!(
        operation.advance(failed(None, "refused")),
        Step::Finish(Err(WalletStorageError::IOError(
            "Error occurred while connecting to wallet schema: refused".to_string()
        )))
    );
    let mut operation = creation_up_to_the_lookup();
    assert_eq!(
        operation.advance(failed(None, "no such table")),
        Step::Perform(Request::Disconnect)
    );
    assert_eq!(
        operation.advance(Reply::Done),
        Step::Finish(Err(WalletStorageError::IOError(
            "Error occurred while inserting into metadata: no such table".to_string()
        )))
    );
    let mut operation = creation_up_to_the_lookup();
    operation.advance(Reply::Rows(vec![]));
    operation.advance(failed(Some("23000"), "integrity"));
    assert_eq!(
        operation.advance(Reply::Done),
        Step::Finish(Err(WalletStorageError::IOError(
            "Error occurred while inserting into metadata: integrity".to_string()
        )))
    );
}

#[test]
fn open_checks_the_metadata_and_builds_the_pool() {
    let storage_type = PostgresStorageType::new();
    let (config, credentials) = login(false);
    let url = "postgresql://alice:secret@db:5432/wallets".to_string();
    let mut operation = storage_type.open_storage("w1", config, credentials);
    assert_eq!(operation.advance(Reply::Ready), Step::Perform(Request::Connect { url: url.clone() }));
    assert_eq!(
        operation.advance(Reply::Done),
        Step::Perform(Request::Query {
            sql: Sql::Fixed(Statement::SelectWallet),
            params: vec![SqlValue::Text("w1".to_string())],
        })
    );
    assert_eq!(
        operation.advance(Reply::Rows(vec![vec![SqlValue::Text("w1".to_string())]])),
        Step::Perform(Request::Disconnect)
    );
    assert_eq!(operation.advance(Reply::Done), Step::Perform(Request::OpenPool { url }));
    assert_eq!(operation.advance(Reply::Done), Step::Finish(Ok(PostgresStorage::new("w1"))));
}

#[test]
fn open_of_an_unknown_wallet_is_not_found() {
    let storage_type = PostgresStorageType::new();
    let (config, credentials) = login(true);
    let mut operation = storage_type.open_storage("w1", config, credentials);
    operation.advance(Reply::Ready);
    operation.advance(Reply::Done);
    assert_eq!(operation.advance(Reply::Rows(vec![])), Step::Perform(Request::Disconnect));
    assert_eq!(operation.advance(Reply::Done), Step::Finish(Err(WalletStorageError::NotFound)));
}

#[test]
fn open_reports_a_backend_that_cannot_be_reached() {
    let storage_type = PostgresStorageType::new();
    let (config, credentials) = login(true);
    let mut operation = storage_type.open_storage("w1", config.clone(), credentials.clone());
    operation.advance(Reply::Ready);
    assert_eq!(
        operation.advance(failed(None, "connection refused")),
        Step::Finish(Err(WalletStorageError::IOError(
            "Error occurred while connecting to wallet schema: connection refused".to_string()
        )))
    );
    let mut operation = storage_type.open_storage("w1", config.clone(), credentials.clone());
    operation.advance(Reply::Ready);
    assert_eq!(
        operation.advance(failed(Some("28P01"), "password authentication failed")),
        Step::Finish(Err(WalletStorageError::IOError(
            "Error occurred while connecting to wallet schema: password authentication failed"
                .to_string()
        )))
    );
    let mut operation = storage_type.open_storage("w1", config, credentials);
    operation.advance(Reply::Ready);
    operation.advance(Reply::Done);
    operation.advance(Reply::Rows(vec![vec![SqlValue::Text("w1".to_string())]]));
    operation.advance(Reply::Done);
    assert_eq!(
        operation.advance(failed(None, "no pool")),
        Step::Finish(Err(WalletStorageError::IOError(
            "Error occurred while connecting to wallet schema: no pool".to_string()
        )))
    );
}

#[test]
fn searches_of_two_wallets_differ() {
    let first = PostgresStorage::new("w1").search(&[1], Document::Absent);
    let second = PostgresStorage::new("w2").search(&[1], Document::Absent);
    assert_eq!(first.wallet_id, "w1");
    assert_eq!(second.wallet_id, "w2");
    let mut second = second;
    assert_eq!(
        second.advance(Reply::Ready),
        Step::Perform(Request::Translate {
            wallet_id: "w2".to_string(),
            type_: vec![1],
            count: false,
        })
    );
    second.advance(Reply::Translated { text: "records".to_string(), params: vec![] });
    assert!(matches!(
        second.advance(Reply::Done),
        Step::Finish(Ok(_))
    ));
}

#[test]
fn delete_storage_runs_in_one_transaction() {
    let storage_type = PostgresStorageType::new();
    let (config, credentials) = login(true);
    let mut operation = storage_type.delete_storage("w1", config, credentials);
    operation.advance(Reply::Ready);
    assert_eq!(operation.advance(Reply::Done), Step::Perform(Request::Begin));
    let mut step = operation.advance(Reply::Done);
    for index in 0..4 {
        assert_eq!(
            step,
            Step::Perform(Request::Execute {
                statement: wallet_storage::statement::wallet_deletion(index).unwrap(),
                params: vec![SqlValue::Text("w1".to_string())],
            })
        );
        step = operation.advance(Reply::Affected(if index == 2 { 1 } else { 0 }));
    }
    assert_eq!(step, Step::Perform(Request::Commit));
    assert_eq!(operation.advance(Reply::Done), Step::Perform(Request::Disconnect));
    assert_eq!(operation.advance(Reply::Done), Step::Finish(Ok(())));
}

#[test]
fn delete_storage_abandons_the_transaction_on_a_failure() {
    let storage_type = PostgresStorageType::new();
    let (config, credentials) = login(true);
    let mut operation = storage_type.delete_storage("w1", config, credentials);
    operation.advance(Reply::Ready);
    operation.advance(Reply::Done);
    operation.advance(Reply::Done);
    operation.advance(Reply::Affected(2));
    assert_eq!(
        operation.advance(failed(None, "lock timeout")),
        Step::Perform(Request::Rollback)
    );
    assert_eq!(operation.advance(Reply::Done), Step::Perform(Request::Disconnect));
    assert_eq!(
        operation.advance(Reply::Done),
        Step::Finish(Err(WalletStorageError::IOError(
            "Error occurred while deleting wallet: lock timeout".to_string()
        )))
    );
}

#[test]
fn delete_storage_that_removes_nothing_is_not_found() {
    let storage_type = PostgresStorageType::new();
    let (config, credentials) = login(true);
    let mut operation = storage_type.delete_storage("w1", config, credentials);
    operation.advance(Reply::Ready);
    operation.advance(Reply::Done);
    operation.advance(Reply::Done);
    for _ in 0..4 {
        operation.advance(Reply::Affected(0));
    }
    operation.advance(Reply::Done);
    assert_eq!(operation.advance(Reply::Done), Step::Finish(Err(WalletStorageError::NotFound)));
}
