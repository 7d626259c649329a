use wallet_storage::config::{PostgresConfig, PostgresCredentials, PostgresStorageType};
use wallet_storage::error::WalletStorageError;
use wallet_storage::memory::backend::MemoryBackend;
use wallet_storage::options::{Document, RecordOptions, SearchOptions};
use wallet_storage::record::{EncryptedValue, Tag, TagName};
use wallet_storage::storage::PostgresStorage;

fn config() -> Document<PostgresConfig> {
    Document::Parsed(PostgresConfig { url: "db:5432".to_string() })
}

fn credentials(admin: bool) -> Document<PostgresCredentials> {
    Document::Parsed(PostgresCredentials {
        account: "alice".to_string(),
        password: "secret".to_string(),
        admin_account: if admin { Some("root".to_string()) } else { None },
        admin_password: if admin { Some("hunter2".to_string()) } else { None },
    })
}

fn wallet(backend: &mut MemoryBackend, id: &str) -> PostgresStorage {
    let storage_type = PostgresStorageType::new();
    backend.create_storage(&storage_type, id, config(), credentials(true), &[1, 2, 3]).unwrap();
    backend.open_storage(&storage_type, id, config(), credentials(true)).unwrap()
}

fn all() -> Document<RecordOptions> {
    Document::Parsed(RecordOptions::new(true, true, true))
}

fn value(i: u8) -> EncryptedValue {
    EncryptedValue::new(vec![i, i + 1], vec![i + 2])
}

fn sorted(mut tags: Vec<Tag>) -> Vec<Tag> {
    tags.sort();
    tags
}

#[test]
fn scenario_add_get_delete_tags_delete() {
    let mut backend = MemoryBackend::new();
    let storage = wallet(&mut backend, "w1");
    let type_ = [1, 2, 3];
    let name = [4, 5, 6];
    let value = EncryptedValue::new(vec![7, 8, 9], vec![10, 11, 12]);
    let tags = vec![Tag::Encrypted(vec![1], vec![2]), Tag::PlainText(vec![3], "x".to_string())];

    backend.add(&storage, &type_, &name, &value, &tags).unwrap();
    let options = Document::Parsed(RecordOptions::new(false, true, true));
    let record = backend.get(&storage, &type_, &name, options).unwrap();
    assert_eq!(record.value, Some(EncryptedValue::new(vec![7, 8, 9], vec![10, 11, 12])));
    assert_eq!(record.type_, None);
    assert_eq!(sorted(record.tags.unwrap()), sorted(tags));

    backend.delete_tags(&storage, &type_, &name, &[TagName::OfEncrypted(vec![1])]).unwrap();
    let record = backend.get(&storage, &type_, &name, options).unwrap();
    assert_eq!(record.tags, Some(vec![Tag::PlainText(vec![3], "x".to_string())]));

    backend.delete(&storage, &type_, &name).unwrap();
    assert_eq!(
        backend.get(&storage, &type_, &name, options),
        Err(WalletStorageError::ItemNotFound)
    );
}

#[test]
fn scenario_create_without_admin_provisions_nothing() {
    let mut backend = MemoryBackend::new();
    let storage_type = PostgresStorageType::new();
    assert_eq!(
        backend.create_storage(&storage_type, "w1", config(), credentials(false), &[1, 2, 3]),
        Ok(())
    );
    assert_eq!(
        backend.open_storage(&storage_type, "w1", config(), credentials(false)),
        Err(WalletStorageError::NotFound)
    );
    assert_eq!(
        backend.open_storage(&storage_type, "w1", config(), credentials(true)),
        Err(WalletStorageError::NotFound)
    );
}

#[test]
fn add_then_get_returns_value_and_type() {
    let mut backend = MemoryBackend::new();
    let storage = wallet(&mut backend, "w1");
    backend.add(&storage, &[1], &[2], &value(1), &[]).unwrap();
    backend.add(&storage, &[1], &[3], &value(5), &[]).unwrap();
    let record = backend.get(&storage, &[1], &[3], all()).unwrap();
    assert_eq!(record.id, vec![3]);
    assert_eq!(record.type_, Some(vec![1]));
    assert_eq!(record.value, Some(value(5)));
    assert_eq!(record.tags, Some(vec![]));
    let record = backend.get(&storage, &[1], &[2], Document::Absent).unwrap();
    assert_eq!(record.value, Some(value(1)));
    assert_eq!(record.type_, None);
    assert_eq!(record.tags, None);
    let none = Document::Parsed(RecordOptions::new(false, false, false));
    let record = backend.get(&storage, &[1], &[2], none).unwrap();
    assert_eq!(record.id, vec![2]);
    assert_eq!(record.value, None);
}

#[test]
fn add_of_existing_item_leaves_item_and_tags_unchanged() {
    let mut backend = MemoryBackend::new();
    let storage = wallet(&mut backend, "w1");
    let tags = vec![Tag::Encrypted(vec![1], vec![2])];
    backend.add(&storage, &[1], &[2], &value(1), &tags).unwrap();
    let other = vec![Tag::Encrypted(vec![9], vec![9]), Tag::PlainText(vec![9], "y".to_string())];
    assert_eq!(
        backend.add(&storage, &[1], &[2], &value(7), &other),
        Err(WalletStorageError::ItemAlreadyExists)
    );
    let record = backend.get(&storage, &[1], &[2], all()).unwrap();
    assert_eq!(record.value, Some(value(1)));
    assert_eq!(record.tags, Some(tags));
}

#[test]
fn add_with_a_repeated_tag_leaves_no_partial_state() {
    let mut backend = MemoryBackend::new();
    let storage = wallet(&mut backend, "w1");
    let tags = vec![
        Tag::Encrypted(vec![1], vec![2]),
        Tag::PlainText(vec![1], "same name, other variant".to_string()),
        Tag::Encrypted(vec![1], vec![3]),
    ];
    assert_eq!(
        backend.add(&storage, &[1], &[2], &value(1), &tags),
        Err(WalletStorageError::ItemAlreadyExists)
    );
    assert_eq!(backend.get(&storage, &[1], &[2], all()), Err(WalletStorageError::ItemNotFound));
    backend.add(&storage, &[1], &[2], &value(1), &tags[..2]).unwrap();
    let record = backend.get(&storage, &[1], &[2], all()).unwrap();
    assert_eq!(sorted(record.tags.unwrap()), sorted(tags[..2].to_vec()));
}

#[test]
fn items_of_wallets_are_apart() {
    let mut backend = MemoryBackend::new();
    let first = wallet(&mut backend, "w1");
    let second = wallet(&mut backend, "w2");
    backend.add(&first, &[1], &[2], &value(1), &[]).unwrap();
    assert_eq!(backend.get(&second, &[1], &[2], all()), Err(WalletStorageError::ItemNotFound));
    backend.add(&second, &[1], &[2], &value(3), &[]).unwrap();
    assert_eq!(backend.get(&first, &[1], &[2], all()).unwrap().value, Some(value(1)));
    assert_eq!(backend.get(&second, &[1], &[2], all()).unwrap().value, Some(value(3)));
    backend.delete(&first, &[1], &[2]).unwrap();
    assert_eq!(backend.get(&second, &[1], &[2], all()).unwrap().value, Some(value(3)));
}

#[test]
fn delete_removes_the_tags_with_the_item() {
    let mut backend = MemoryBackend::new();
    let storage = wallet(&mut backend, "w1");
    let tags = vec![Tag::Encrypted(vec![1], vec![2]), Tag::PlainText(vec![3], "x".to_string())];
    backend.add(&storage, &[1], &[2], &value(1), &tags).unwrap();
    backend.add(&storage, &[1], &[3], &value(2), &tags).unwrap();
    backend.delete(&storage, &[1], &[2]).unwrap();
    assert_eq!(backend.get(&storage, &[1], &[2], all()), Err(WalletStorageError::ItemNotFound));
    assert_eq!(backend.delete(&storage, &[1], &[2]), Err(WalletStorageError::ItemNotFound));
    backend.add(&storage, &[1], &[2], &value(1), &[]).unwrap();
    assert_eq!(backend.get(&storage, &[1], &[2], all()).unwrap().tags, Some(vec![]));
    assert_eq!(sorted(backend.get(&storage, &[1], &[3], all()).unwrap().tags.unwrap()), sorted(tags));
    let mut stream = backend.get_all(&storage).unwrap();
    let mut names = Vec::new();
    while let Some(record) = stream.next(&mut backend).unwrap() {
        names.push((record.id, record.tags.unwrap().len()));
    }
    assert_eq!(names, vec![(vec![3], 2), (vec![2], 0)]);
}

#[test]
fn update_tags_replaces_whatever_was_there() {
    let mut backend = MemoryBackend::new();
    let storage = wallet(&mut backend, "w1");
    let old = vec![Tag::Encrypted(vec![1], vec![2]), Tag::PlainText(vec![3], "x".to_string())];
    backend.add(&storage, &[1], &[2], &value(1), &old).unwrap();
    let new = vec![
        Tag::PlainText(vec![1], "p".to_string()),
        Tag::Encrypted(vec![3], vec![4]),
        Tag::Encrypted(vec![5], vec![6]),
    ];
    backend.update_tags(&storage, &[1], &[2], &new).unwrap();
    let record = backend.get(&storage, &[1], &[2], all()).unwrap();
    assert_eq!(
        record.tags,
        Some(vec![
            Tag::Encrypted(vec![3], vec![4]),
            Tag::Encrypted(vec![5], vec![6]),
            Tag::PlainText(vec![1], "p".to_string()),
        ])
    );
    backend.update_tags(&storage, &[1], &[2], &[]).unwrap();
    assert_eq!(backend.get(&storage, &[1], &[2], all()).unwrap().tags, Some(vec![]));
}

#[test]
fn update_tags_with_a_repeated_tag_keeps_the_old_tags() {
    let mut backend = MemoryBackend::new();
    let storage = wallet(&mut backend, "w1");
    let old = vec![Tag::Encrypted(vec![1], vec![2])];
    backend.add(&storage, &[1], &[2], &value(1), &old).unwrap();
    let new = vec![Tag::Encrypted(vec![7], vec![1]), Tag::Encrypted(vec![7], vec![2])];
    assert_eq!(
        backend.update_tags(&storage, &[1], &[2], &new),
        Err(WalletStorageError::ItemAlreadyExists)
    );
    assert_eq!(backend.get(&storage, &[1], &[2], all()).unwrap().tags, Some(old));
}

#[test]
fn add_tags_twice_is_the_union_and_the_latest_value_wins() {
    let mut backend = MemoryBackend::new();
    let storage = wallet(&mut backend, "w1");
    backend.add(&storage, &[1], &[2], &value(1), &[Tag::Encrypted(vec![0], vec![0])]).unwrap();
    let first = vec![
        Tag::Encrypted(vec![1], vec![1]),
        Tag::PlainText(vec![1], "first".to_string()),
        Tag::Encrypted(vec![2], vec![1]),
    ];
    let second = vec![
        Tag::Encrypted(vec![2], vec![2]),
        Tag::PlainText(vec![1], "second".to_string()),
        Tag::PlainText(vec![3], "third".to_string()),
        Tag::PlainText(vec![3], "fourth".to_string()),
    ];
    backend.add_tags(&storage, &[1], &[2], &first).unwrap();
    backend.add_tags(&storage, &[1], &[2], &second).unwrap();
    let record = backend.get(&storage, &[1], &[2], all()).unwrap();
    assert_eq!(
        sorted(record.tags.unwrap()),
        sorted(vec![
            Tag::Encrypted(vec![0], vec![0]),
            Tag::Encrypted(vec![1], vec![1]),
            Tag::Encrypted(vec![2], vec![2]),
            Tag::PlainText(vec![1], "second".to_string()),
            Tag::PlainText(vec![3], "fourth".to_string()),
        ])
    );
}

#[test]
fn delete_tags_deletes_from_the_named_variant_only() {
    let mut backend = MemoryBackend::new();
    let storage = wallet(&mut backend, "w1");
    let tags = vec![Tag::Encrypted(vec![1], vec![2]), Tag::PlainText(vec![1], "x".to_string())];
    backend.add(&storage, &[1], &[2], &value(1), &tags).unwrap();
    backend
        .delete_tags(&storage, &[1], &[2], &[TagName::OfPlain(vec![1]), TagName::OfPlain(vec![8])])
        .unwrap();
    assert_eq!(
        backend.get(&storage, &[1], &[2], all()).unwrap().tags,
        Some(vec![Tag::Encrypted(vec![1], vec![2])])
    );
}

#[test]
fn update_replaces_the_value_and_keeps_the_tags() {
    let mut backend = MemoryBackend::new();
    let storage = wallet(&mut backend, "w1");
    let tags = vec![Tag::Encrypted(vec![1], vec![2])];
    backend.add(&storage, &[1], &[2], &value(1), &tags).unwrap();
    backend.update(&storage, &[1], &[2], &value(9)).unwrap();
    let record = backend.get(&storage, &[1], &[2], all()).unwrap();
    assert_eq!(record.value, Some(value(9)));
    assert_eq!(record.tags, Some(tags));
}

#[test]
fn get_all_streams_every_item_once() {
    let mut backend = MemoryBackend::new();
    let storage = wallet(&mut backend, "w1");
    let other = wallet(&mut backend, "w2");
    backend.add(&other, &[9], &[9], &value(9), &[]).unwrap();
    for i in 0..5u8 {
        let tags = vec![Tag::PlainText(vec![i], "t".to_string())];
        backend.add(&storage, &[i], &[i, i], &value(i), &tags).unwrap();
    }
    let mut stream = backend.get_all(&storage).unwrap();
    assert_eq!(stream.get_total_count(), Ok(None));
    let mut seen = Vec::new();
    while let Some(record) = stream.next(&mut backend).unwrap() {
        let i = record.id[0];
        assert_eq!(record.id, vec![i, i]);
        assert_eq!(record.type_, Some(vec![i]));
        assert_eq!(record.value, Some(value(i)));
        assert_eq!(record.tags, Some(vec![Tag::PlainText(vec![i], "t".to_string())]));
        seen.push(i);
    }
    assert_eq!(seen, vec![0, 1, 2, 3, 4]);
    assert_eq!(stream.next(&mut backend), Ok(None));
}

#[test]
fn search_counts_and_streams_the_items_of_its_wallet_with_its_type() {
    let mut backend = MemoryBackend::new();
    let storage = wallet(&mut backend, "w1");
    let other = wallet(&mut backend, "w2");
    backend.add(&storage, &[1], &[1], &value(1), &[Tag::Encrypted(vec![1], vec![2])]).unwrap();
    backend.add(&other, &[1], &[9], &value(9), &[]).unwrap();
    backend.add(&storage, &[2], &[2], &value(2), &[]).unwrap();
    backend.add(&storage, &[1], &[3], &value(3), &[]).unwrap();
    backend.add(&other, &[1], &[8], &value(8), &[]).unwrap();

    let counting = Document::Parsed(SearchOptions::new(false, true, false, true, false));
    let mut counted = backend.search(&storage, &[1], counting).unwrap();
    assert_eq!(counted.get_total_count(), Ok(Some(2)));
    assert_eq!(counted.next(&mut backend), Ok(None));

    let streaming = Document::Parsed(SearchOptions::new(true, false, true, true, true));
    let mut stream = backend.search(&storage, &[1], streaming).unwrap();
    assert_eq!(stream.get_total_count(), Ok(None));
    let mut names = Vec::new();
    while let Some(record) = stream.next(&mut backend).unwrap() {
        assert_eq!(record.type_, Some(vec![1]));
        names.push((record.id, record.value.unwrap(), record.tags.unwrap().len()));
    }
    assert_eq!(names, vec![(vec![1], value(1), 1), (vec![3], value(3), 0)]);

    let both = Document::Parsed(SearchOptions::new(true, true, false, false, false));
    let mut stream = backend.search(&other, &[1], both).unwrap();
    assert_eq!(stream.get_total_count(), Ok(Some(2)));
    let mut names = Vec::new();
    while let Some(record) = stream.next(&mut backend).unwrap() {
        assert_eq!(record.value, None);
        assert_eq!(record.tags, None);
        names.push(record.id);
    }
    assert_eq!(names, vec![vec![9], vec![8]]);
    assert_eq!(stream.get_total_count(), Ok(Some(2)));
}

#[test]
fn search_without_matches_counts_none_and_streams_nothing() {
    let mut backend = MemoryBackend::new();
    let storage = wallet(&mut backend, "w1");
    let other = wallet(&mut backend, "w2");
    backend.add(&other, &[1], &[9], &value(9), &[]).unwrap();
    let both = Document::Parsed(SearchOptions::new(true, true, false, true, false));
    let mut stream = backend.search(&storage, &[1], both).unwrap();
    assert_eq!(stream.get_total_count(), Ok(Some(0)));
    assert_eq!(stream.next(&mut backend), Ok(None));
    let mut stream = backend.search(&storage, &[1], Document::Absent).unwrap();
    assert_eq!(stream.get_total_count(), Ok(None));
    assert_eq!(stream.next(&mut backend), Ok(None));
}

#[test]
fn search_rejects_unreadable_options_and_can_stream_nothing() {
    let mut backend = MemoryBackend::new();
    let storage = wallet(&mut backend, "w1");
    backend.add(&storage, &[1], &[1], &value(1), &[]).unwrap();
    assert!(matches!(
        backend.search(&storage, &[1], Document::Malformed),
        Err(WalletStorageError::ConfigError)
    ));
    let neither = Document::Parsed(SearchOptions::new(false, false, false, true, false));
    let mut stream = backend.search(&storage, &[1], neither).unwrap();
    assert_eq!(stream.get_total_count(), Ok(None));
    assert_eq!(stream.next(&mut backend), Ok(None));
}

#[test]
fn create_of_an_existing_wallet_keeps_its_one_blob() {
    let mut backend = MemoryBackend::new();
    let storage_type = PostgresStorageType::new();
    let storage = wallet(&mut backend, "w1");
    assert_eq!(
        backend.create_storage(&storage_type, "w1", config(), credentials(true), &[9, 9]),
        Err(WalletStorageError::AlreadyExists)
    );
    assert_eq!(
        backend.create_storage(&storage_type, "w1", config(), credentials(true), &[1, 2, 3]),
        Err(WalletStorageError::AlreadyExists)
    );
    assert_eq!(backend.get_storage_metadata(&storage), Ok(vec![1, 2, 3]));
    backend.set_storage_metadata(&storage, &[9, 9]).unwrap();
    assert_eq!(backend.get_storage_metadata(&storage), Ok(vec![9, 9]));
    assert_eq!(
        backend.create_storage(&storage_type, "w2", config(), credentials(true), &[9, 9]),
        Ok(())
    );
}

#[test]
fn add_of_existing_item_fails_for_every_value_and_tags() {
    let mut backend = MemoryBackend::new();
    let storage = wallet(&mut backend, "w1");
    let tags = vec![Tag::Encrypted(vec![1], vec![2]), Tag::PlainText(vec![3], "x".to_string())];
    backend.add(&storage, &[1], &[2], &value(1), &tags).unwrap();
    for (new_value, new_tags) in [
        (value(1), vec![]),
        (value(1), tags.clone()),
        (value(7), vec![Tag::Encrypted(vec![9], vec![9])]),
    ] {
        assert_eq!(
            backend.add(&storage, &[1], &[2], &new_value, &new_tags),
            Err(WalletStorageError::ItemAlreadyExists)
        );
        let record = backend.get(&storage, &[1], &[2], all()).unwrap();
        assert_eq!(record.value, Some(value(1)));
        assert_eq!(record.tags, Some(tags.clone()));
    }
    let mut stream = backend.get_all(&storage).unwrap();
    assert!(stream.next(&mut backend).unwrap().is_some());
    assert_eq!(stream.next(&mut backend), Ok(None));
}

#[test]
fn delete_then_add_without_tags_starts_without_tags() {
    let mut backend = MemoryBackend::new();
    let storage = wallet(&mut backend, "w1");
    let tags = vec![Tag::Encrypted(vec![1], vec![2]), Tag::PlainText(vec![3], "x".to_string())];
    backend.add(&storage, &[1], &[2], &value(1), &tags).unwrap();
    backend.delete(&storage, &[1], &[2]).unwrap();
    backend.add(&storage, &[1], &[2], &value(2), &[]).unwrap();
    let record = backend.get(&storage, &[1], &[2], all()).unwrap();
    assert_eq!(record.value, Some(value(2)));
    assert_eq!(record.tags, Some(vec![]));
}

#[test]
fn metadata_is_replaced_in_place() {
    let mut backend = MemoryBackend::new();
    let storage = wallet(&mut backend, "w1");
    assert_eq!(backend.get_storage_metadata(&storage), Ok(vec![1, 2, 3]));
    backend.set_storage_metadata(&storage, &[4, 5]).unwrap();
    assert_eq!(backend.get_storage_metadata(&storage), Ok(vec![4, 5]));
    let missing = PostgresStorage::new("nobody");
    assert_eq!(backend.set_storage_metadata(&missing, &[6]), Ok(()));
    assert_eq!(backend.get_storage_metadata(&missing), Err(WalletStorageError::ItemNotFound));
}

#[test]
fn delete_storage_removes_items_tags_and_metadata() {
    let mut backend = MemoryBackend::new();
    let storage_type = PostgresStorageType::new();
    let storage = wallet(&mut backend, "w1");
    let kept = wallet(&mut backend, "w2");
    backend.add(&storage, &[1], &[2], &value(1), &[Tag::Encrypted(vec![1], vec![2])]).unwrap();
    backend.add(&kept, &[1], &[2], &value(2), &[Tag::Encrypted(vec![1], vec![2])]).unwrap();
    backend.delete_storage(&storage_type, "w1", config(), credentials(true)).unwrap();
    assert_eq!(
        backend.open_storage(&storage_type, "w1", config(), credentials(true)),
        Err(WalletStorageError::NotFound)
    );
    assert_eq!(backend.get(&storage, &[1], &[2], all()), Err(WalletStorageError::ItemNotFound));
    assert_eq!(
        backend.delete_storage(&storage_type, "w1", config(), credentials(true)),
        Err(WalletStorageError::NotFound)
    );
    let record = backend.get(&kept, &[1], &[2], all()).unwrap();
    assert_eq!(record.value, Some(value(2)));
    assert_eq!(record.tags, Some(vec![Tag::Encrypted(vec![1], vec![2])]));
}

#[test]
fn delete_storage_without_admin_deletes_nothing() {
    let mut backend = MemoryBackend::new();
    let storage_type = PostgresStorageType::new();
    let storage = wallet(&mut backend, "w1");
    assert_eq!(backend.delete_storage(&storage_type, "w1", config(), credentials(false)), Ok(()));
    assert_eq!(backend.get_storage_metadata(&storage), Ok(vec![1, 2, 3]));
}

#[test]
fn init_storage_can_be_repeated() {
    let mut backend = MemoryBackend::new();
    let storage_type = PostgresStorageType::new();
    assert_eq!(backend.init_storage(&storage_type, config(), credentials(true)), Ok(()));
    let storage = wallet(&mut backend, "w1");
    backend.add(&storage, &[1], &[2], &value(1), &[]).unwrap();
    assert_eq!(backend.init_storage(&storage_type, config(), credentials(true)), Ok(()));
    assert_eq!(backend.init_storage(&storage_type, config(), credentials(false)), Ok(()));
    assert_eq!(backend.get(&storage, &[1], &[2], all()).unwrap().value, Some(value(1)));
    assert_eq!(
        backend.init_storage(&storage_type, Document::Malformed, credentials(true)),
        Err(WalletStorageError::ConfigError)
    );
}

#[test]
fn unreadable_options_are_a_config_error() {
    let mut backend = MemoryBackend::new();
    let storage = wallet(&mut backend, "w1");
    backend.add(&storage, &[1], &[2], &value(1), &[]).unwrap();
    assert_eq!(
        backend.get(&storage, &[1], &[2], Document::Malformed),
        Err(WalletStorageError::ConfigError)
    );
}
