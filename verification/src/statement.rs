//! The statements of the engine. Their text is fixed: it is data that the
//! backend owns, not state.

use vstd::prelude::*;

verus! {

/// A statement of the engine, named by what it does.
#[derive(Clone, Copy, Debug, PartialEq, Eq, Structural)]
pub enum Statement {
    /// The id, value and key of the item of a wallet with a type and a name.
    SelectItem,
    /// The id of the item of a wallet with a type and a name.
    SelectItemId,
    /// The id, name, value, key and type of every item of a wallet.
    SelectAllItems,
    /// Inserts an item and returns its id.
    InsertItem,
    /// Replaces the value and key of an item.
    UpdateItem,
    /// Deletes an item; its tags go with it.
    DeleteItem,
    /// The name and value of the encrypted tags of an item of a wallet.
    SelectEncryptedTags,
    /// The name and value of the plaintext tags of an item of a wallet.
    SelectPlainTags,
    /// The name and value of the encrypted tags of an item, by its id alone.
    SelectEncryptedTagsById,
    /// The name and value of the plaintext tags of an item, by its id alone.
    SelectPlainTagsById,
    /// Inserts an encrypted tag.
    InsertEncryptedTag,
    /// Inserts a plaintext tag.
    InsertPlainTag,
    /// Inserts an encrypted tag, or overwrites the value of the tag of that
    /// name.
    UpsertEncryptedTag,
    /// Inserts a plaintext tag, or overwrites the value of the tag of that
    /// name.
    UpsertPlainTag,
    /// Deletes all encrypted tags of an item.
    DeleteItemEncryptedTags,
    /// Deletes all plaintext tags of an item.
    DeleteItemPlainTags,
    /// Deletes the encrypted tag of an item with a name.
    DeleteEncryptedTag,
    /// Deletes the plaintext tag of an item with a name.
    DeletePlainTag,
    /// The metadata of a wallet.
    SelectMetadata,
    /// Replaces the metadata of a wallet.
    UpdateMetadata,
    /// Inserts the metadata of a new wallet.
    InsertMetadata,
    /// The id of a wallet, if its metadata exists.
    SelectWallet,
    /// Deletes the plaintext tags of a wallet.
    DeleteWalletPlainTags,
    /// Deletes the encrypted tags of a wallet.
    DeleteWalletEncryptedTags,
    /// Deletes the items of a wallet.
    DeleteWalletItems,
    /// Deletes the metadata of a wallet.
    DeleteWalletMetadata,
    /// Creates the database that holds all wallets.
    CreateDatabase,
    CreateMetadataTable,
    CreateMetadataIdIndex,
    CreateMetadataValueIndex,
    CreateItemsTable,
    CreateItemsIdIndex,
    CreateItemsNameIndex,
    CreateEncryptedTagsTable,
    CreateEncryptedTagsNameIndex,
    CreateEncryptedTagsValueIndex,
    CreateEncryptedTagsItemIndex,
    CreatePlainTagsTable,
    CreatePlainTagsNameIndex,
    CreatePlainTagsValueIndex,
    CreatePlainTagsItemIndex,
}

/// The database that holds the tables of all wallets.
pub open spec fn wallets_database() -> Seq<char> {
    "wallets"@
}

/// The name of the database that holds the tables of all wallets.
pub fn wallets_database_name() -> (name: &'static str)
    ensures
        name@ == wallets_database(),
{
    "wallets"
}

/// The statements that provision the schema, in the order in which they run:
/// each table before its indexes, the items before the tags that refer to
/// them.
pub open spec fn schema_statements() -> Seq<Statement> {
    seq![
        Statement::CreateMetadataTable,
        Statement::CreateMetadataIdIndex,
        Statement::CreateMetadataValueIndex,
        Statement::CreateItemsTable,
        Statement::CreateItemsIdIndex,
        Statement::CreateItemsNameIndex,
        Statement::CreateEncryptedTagsTable,
        Statement::CreateEncryptedTagsNameIndex,
        Statement::CreateEncryptedTagsValueIndex,
        Statement::CreateEncryptedTagsItemIndex,
        Statement::CreatePlainTagsTable,
        Statement::CreatePlainTagsNameIndex,
        Statement::CreatePlainTagsValueIndex,
        Statement::CreatePlainTagsItemIndex,
    ]
}

/// The statements that delete a wallet, in the order in which they run: the
/// tags before the items that they refer to, the metadata last.
pub open spec fn wallet_deletions() -> Seq<Statement> {
    seq![
        Statement::DeleteWalletPlainTags,
        Statement::DeleteWalletEncryptedTags,
        Statement::DeleteWalletItems,
        Statement::DeleteWalletMetadata,
    ]
}

/// The statement at `index` among those that provision the schema, if
/// there is one.
pub fn schema_statement(index: usize) -> (statement: Option<Statement>)
    ensures
        statement == if index < schema_statements().len() {
            Some(schema_statements()[index as int])
        } else {
            None
        },
{
    if index == 0 {
        Some(Statement::CreateMetadataTable)
    } else if index == 1 {
        Some(Statement::CreateMetadataIdIndex)
    } else if index == 2 {
        Some(Statement::CreateMetadataValueIndex)
    } else if index == 3 {
        Some(Statement::CreateItemsTable)
    } else if index == 4 {
        Some(Statement::CreateItemsIdIndex)
    } else if index == 5 {
        Some(Statement::CreateItemsNameIndex)
    } else if index == 6 {
        Some(Statement::CreateEncryptedTagsTable)
    } else if index == 7 {
        Some(Statement::CreateEncryptedTagsNameIndex)
    } else if index == 8 {
        Some(Statement::CreateEncryptedTagsValueIndex)
    } else if index == 9 {
        Some(Statement::CreateEncryptedTagsItemIndex)
    } else if index == 10 {
        Some(Statement::CreatePlainTagsTable)
    } else if index == 11 {
        Some(Statement::CreatePlainTagsNameIndex)
    } else if index == 12 {
        Some(Statement::CreatePlainTagsValueIndex)
    } else if index == 13 {
        Some(Statement::CreatePlainTagsItemIndex)
    } else {
        None
    }
}

/// The statement at `index` among those that delete a wallet, if there is
/// one.
pub fn wallet_deletion(index: usize) -> (statement: Option<Statement>)
    ensures
        statement == if index < wallet_deletions().len() {
            Some(wallet_deletions()[index as int])
        } else {
            None
        },
{
    if index == 0 {
        Some(Statement::DeleteWalletPlainTags)
    } else if index == 1 {
        Some(Statement::DeleteWalletEncryptedTags)
    } else if index == 2 {
        Some(Statement::DeleteWalletItems)
    } else if index == 3 {
        Some(Statement::DeleteWalletMetadata)
    } else {
        None
    }
}

impl Statement {
    /// The text of the statement, with `$1`, `$2`, ... for its parameters.
    pub open spec fn sql(self) -> Seq<char> {
        match self {
            Statement::SelectItem => "SELECT id, value, key FROM items where wallet_id = $1 AND type = $2 AND name = $3"@,
            Statement::SelectItemId => "SELECT id FROM items WHERE wallet_id = $1 AND type = $2 AND name = $3"@,
            Statement::SelectAllItems => "SELECT id, name, value, key, type FROM items WHERE wallet_id = $1"@,
            Statement::InsertItem => "INSERT INTO items (wallet_id, type, name, value, key) VALUES ($1, $2, $3, $4, $5) RETURNING id"@,
            Statement::UpdateItem => "UPDATE items SET value = $1, key = $2 WHERE wallet_id = $3 AND type = $4 AND name = $5"@,
            Statement::DeleteItem => "DELETE FROM items where wallet_id = $1 AND type = $2 AND name = $3"@,
            Statement::SelectEncryptedTags => "SELECT name, value FROM tags_encrypted WHERE wallet_id = $1 AND item_id = $2"@,
            Statement::SelectPlainTags => "SELECT name, value FROM tags_plaintext WHERE wallet_id = $1 AND item_id = $2"@,
            Statement::SelectEncryptedTagsById => "SELECT name, value from tags_encrypted where item_id = $1"@,
            Statement::SelectPlainTagsById => "SELECT name, value from tags_plaintext where item_id = $1"@,
            Statement::InsertEncryptedTag => "INSERT INTO tags_encrypted (wallet_id, item_id, name, value) VALUES ($1, $2, $3, $4)"@,
            Statement::InsertPlainTag => "INSERT INTO tags_plaintext (wallet_id, item_id, name, value) VALUES ($1, $2, $3, $4)"@,
            Statement::UpsertEncryptedTag => "INSERT INTO tags_encrypted (wallet_id, item_id, name, value) VALUES ($1, $2, $3, $4) ON CONFLICT (wallet_id, name, item_id) DO UPDATE SET value = excluded.value"@,
            Statement::UpsertPlainTag => "INSERT INTO tags_plaintext (wallet_id, item_id, name, value) VALUES ($1, $2, $3, $4) ON CONFLICT (wallet_id, name, item_id) DO UPDATE SET value = excluded.value"@,
            Statement::DeleteItemEncryptedTags => "DELETE FROM tags_encrypted WHERE wallet_id = $1 AND item_id = $2"@,
            Statement::DeleteItemPlainTags => "DELETE FROM tags_plaintext WHERE wallet_id = $1 AND item_id = $2"@,
            Statement::DeleteEncryptedTag => "DELETE FROM tags_encrypted WHERE wallet_id = $1 AND item_id = $2 AND name = $3"@,
            Statement::DeletePlainTag => "DELETE FROM tags_plaintext WHERE wallet_id = $1 AND item_id = $2 AND name = $3"@,
            Statement::SelectMetadata => "SELECT value FROM metadata WHERE wallet_id = $1"@,
            Statement::UpdateMetadata => "UPDATE metadata SET value = $1 WHERE wallet_id = $2"@,
            Statement::InsertMetadata => "INSERT INTO metadata(wallet_id, value) VALUES($1, $2)"@,
            Statement::SelectWallet => "SELECT wallet_id FROM metadata WHERE wallet_id = $1"@,
            Statement::DeleteWalletPlainTags => "DELETE FROM tags_plaintext WHERE wallet_id = $1"@,
            Statement::DeleteWalletEncryptedTags => "DELETE FROM tags_encrypted WHERE wallet_id = $1"@,
            Statement::DeleteWalletItems => "DELETE FROM items WHERE wallet_id = $1"@,
            Statement::DeleteWalletMetadata => "DELETE FROM metadata WHERE wallet_id = $1"@,
            Statement::CreateDatabase => "CREATE DATABASE wallets"@,
            Statement::CreateMetadataTable => "CREATE TABLE IF NOT EXISTS metadata (wallet_id VARCHAR(64) NOT NULL, id BIGSERIAL NOT NULL, value BYTEA NOT NULL, PRIMARY KEY(wallet_id, id))"@,
            Statement::CreateMetadataIdIndex => "CREATE UNIQUE INDEX IF NOT EXISTS ux_metadata_wallet_id_id ON metadata(wallet_id, id)"@,
            Statement::CreateMetadataValueIndex => "CREATE UNIQUE INDEX IF NOT EXISTS ux_metadata_values ON metadata(wallet_id, value)"@,
            Statement::CreateItemsTable => "CREATE TABLE IF NOT EXISTS items(wallet_id VARCHAR(64) NOT NULL, id BIGSERIAL NOT NULL, type BYTEA NOT NULL, name BYTEA NOT NULL, value BYTEA NOT NULL, key BYTEA NOT NULL, PRIMARY KEY(wallet_id, id))"@,
            Statement::CreateItemsIdIndex => "CREATE UNIQUE INDEX IF NOT EXISTS ux_items_wallet_id_id ON items(wallet_id, id)"@,
            Statement::CreateItemsNameIndex => "CREATE UNIQUE INDEX IF NOT EXISTS ux_items_type_name ON items(wallet_id, type, name)"@,
            Statement::CreateEncryptedTagsTable => "CREATE TABLE IF NOT EXISTS tags_encrypted(wallet_id VARCHAR(64) NOT NULL, name BYTEA NOT NULL, value BYTEA NOT NULL, item_id BIGINT NOT NULL, PRIMARY KEY(wallet_id, name, item_id), FOREIGN KEY(wallet_id, item_id) REFERENCES items(wallet_id, id) ON DELETE CASCADE ON UPDATE CASCADE)"@,
            Statement::CreateEncryptedTagsNameIndex => "CREATE INDEX IF NOT EXISTS ix_tags_encrypted_name ON tags_encrypted(wallet_id, name)"@,
            Statement::CreateEncryptedTagsValueIndex => "CREATE INDEX IF NOT EXISTS ix_tags_encrypted_value ON tags_encrypted(wallet_id, value)"@,
            Statement::CreateEncryptedTagsItemIndex => "CREATE INDEX IF NOT EXISTS ix_tags_encrypted_wallet_id_item_id ON tags_encrypted(wallet_id, item_id)"@,
            Statement::CreatePlainTagsTable => "CREATE TABLE IF NOT EXISTS tags_plaintext(wallet_id VARCHAR(64) NOT NULL, name BYTEA NOT NULL, value TEXT NOT NULL, item_id BIGINT NOT NULL, PRIMARY KEY(wallet_id, name, item_id), FOREIGN KEY(wallet_id, item_id) REFERENCES items(wallet_id, id) ON DELETE CASCADE ON UPDATE CASCADE)"@,
            Statement::CreatePlainTagsNameIndex => "CREATE INDEX IF NOT EXISTS ix_tags_plaintext_name ON tags_plaintext(wallet_id, name)"@,
            Statement::CreatePlainTagsValueIndex => "CREATE INDEX IF NOT EXISTS ix_tags_plaintext_value ON tags_plaintext(wallet_id, value)"@,
            Statement::CreatePlainTagsItemIndex => "CREATE INDEX IF NOT EXISTS ix_tags_plaintext_wallet_id_item_id ON tags_plaintext(wallet_id, item_id)"@,
        }
    }

    /// The text of the statement.
    pub fn text(&self) -> (text: &'static str)
        ensures
            text@ == self.sql(),
    {
        match self {
            Statement::SelectItem => "SELECT id, value, key FROM items where wallet_id = $1 AND type = $2 AND name = $3",
            Statement::SelectItemId => "SELECT id FROM items WHERE wallet_id = $1 AND type = $2 AND name = $3",
            Statement::SelectAllItems => "SELECT id, name, value, key, type FROM items WHERE wallet_id = $1",
            Statement::InsertItem => "INSERT INTO items (wallet_id, type, name, value, key) VALUES ($1, $2, $3, $4, $5) RETURNING id",
            Statement::UpdateItem => "UPDATE items SET value = $1, key = $2 WHERE wallet_id = $3 AND type = $4 AND name = $5",
            Statement::DeleteItem => "DELETE FROM items where wallet_id = $1 AND type = $2 AND name = $3",
            Statement::SelectEncryptedTags => "SELECT name, value FROM tags_encrypted WHERE wallet_id = $1 AND item_id = $2",
            Statement::SelectPlainTags => "SELECT name, value FROM tags_plaintext WHERE wallet_id = $1 AND item_id = $2",
            Statement::SelectEncryptedTagsById => "SELECT name, value from tags_encrypted where item_id = $1",
            Statement::SelectPlainTagsById => "SELECT name, value from tags_plaintext where item_id = $1",
            Statement::InsertEncryptedTag => "INSERT INTO tags_encrypted (wallet_id, item_id, name, value) VALUES ($1, $2, $3, $4)",
            Statement::InsertPlainTag => "INSERT INTO tags_plaintext (wallet_id, item_id, name, value) VALUES ($1, $2, $3, $4)",
            Statement::UpsertEncryptedTag => "INSERT INTO tags_encrypted (wallet_id, item_id, name, value) VALUES ($1, $2, $3, $4) ON CONFLICT (wallet_id, name, item_id) DO UPDATE SET value = excluded.value",
            Statement::UpsertPlainTag => "INSERT INTO tags_plaintext (wallet_id, item_id, name, value) VALUES ($1, $2, $3, $4) ON CONFLICT (wallet_id, name, item_id) DO UPDATE SET value = excluded.value",
            Statement::DeleteItemEncryptedTags => "DELETE FROM tags_encrypted WHERE wallet_id = $1 AND item_id = $2",
            Statement::DeleteItemPlainTags => "DELETE FROM tags_plaintext WHERE wallet_id = $1 AND item_id = $2",
            Statement::DeleteEncryptedTag => "DELETE FROM tags_encrypted WHERE wallet_id = $1 AND item_id = $2 AND name = $3",
            Statement::DeletePlainTag => "DELETE FROM tags_plaintext WHERE wallet_id = $1 AND item_id = $2 AND name = $3",
            Statement::SelectMetadata => "SELECT value FROM metadata WHERE wallet_id = $1",
            Statement::UpdateMetadata => "UPDATE metadata SET value = $1 WHERE wallet_id = $2",
            Statement::InsertMetadata => "INSERT INTO metadata(wallet_id, value) VALUES($1, $2)",
            Statement::SelectWallet => "SELECT wallet_id FROM metadata WHERE wallet_id = $1",
            Statement::DeleteWalletPlainTags => "DELETE FROM tags_plaintext WHERE wallet_id = $1",
            Statement::DeleteWalletEncryptedTags => "DELETE FROM tags_encrypted WHERE wallet_id = $1",
            Statement::DeleteWalletItems => "DELETE FROM items WHERE wallet_id = $1",
            Statement::DeleteWalletMetadata => "DELETE FROM metadata WHERE wallet_id = $1",
            Statement::CreateDatabase => "CREATE DATABASE wallets",
            Statement::CreateMetadataTable => "CREATE TABLE IF NOT EXISTS metadata (wallet_id VARCHAR(64) NOT NULL, id BIGSERIAL NOT NULL, value BYTEA NOT NULL, PRIMARY KEY(wallet_id, id))",
            Statement::CreateMetadataIdIndex => "CREATE UNIQUE INDEX IF NOT EXISTS ux_metadata_wallet_id_id ON metadata(wallet_id, id)",
            Statement::CreateMetadataValueIndex => "CREATE UNIQUE INDEX IF NOT EXISTS ux_metadata_values ON metadata(wallet_id, value)",
            Statement::CreateItemsTable => "CREATE TABLE IF NOT EXISTS items(wallet_id VARCHAR(64) NOT NULL, id BIGSERIAL NOT NULL, type BYTEA NOT NULL, name BYTEA NOT NULL, value BYTEA NOT NULL, key BYTEA NOT NULL, PRIMARY KEY(wallet_id, id))",
            Statement::CreateItemsIdIndex => "CREATE UNIQUE INDEX IF NOT EXISTS ux_items_wallet_id_id ON items(wallet_id, id)",
            Statement::CreateItemsNameIndex => "CREATE UNIQUE INDEX IF NOT EXISTS ux_items_type_name ON items(wallet_id, type, name)",
            Statement::CreateEncryptedTagsTable => "CREATE TABLE IF NOT EXISTS tags_encrypted(wallet_id VARCHAR(64) NOT NULL, name BYTEA NOT NULL, value BYTEA NOT NULL, item_id BIGINT NOT NULL, PRIMARY KEY(wallet_id, name, item_id), FOREIGN KEY(wallet_id, item_id) REFERENCES items(wallet_id, id) ON DELETE CASCADE ON UPDATE CASCADE)",
            Statement::CreateEncryptedTagsNameIndex => "CREATE INDEX IF NOT EXISTS ix_tags_encrypted_name ON tags_encrypted(wallet_id, name)",
            Statement::CreateEncryptedTagsValueIndex => "CREATE INDEX IF NOT EXISTS ix_tags_encrypted_value ON tags_encrypted(wallet_id, value)",
            Statement::CreateEncryptedTagsItemIndex => "CREATE INDEX IF NOT EXISTS ix_tags_encrypted_wallet_id_item_id ON tags_encrypted(wallet_id, item_id)",
            Statement::CreatePlainTagsTable => "CREATE TABLE IF NOT EXISTS tags_plaintext(wallet_id VARCHAR(64) NOT NULL, name BYTEA NOT NULL, value TEXT NOT NULL, item_id BIGINT NOT NULL, PRIMARY KEY(wallet_id, name, item_id), FOREIGN KEY(wallet_id, item_id) REFERENCES items(wallet_id, id) ON DELETE CASCADE ON UPDATE CASCADE)",
            Statement::CreatePlainTagsNameIndex => "CREATE INDEX IF NOT EXISTS ix_tags_plaintext_name ON tags_plaintext(wallet_id, name)",
            Statement::CreatePlainTagsValueIndex => "CREATE INDEX IF NOT EXISTS ix_tags_plaintext_value ON tags_plaintext(wallet_id, value)",
            Statement::CreatePlainTagsItemIndex => "CREATE INDEX IF NOT EXISTS ix_tags_plaintext_wallet_id_item_id ON tags_plaintext(wallet_id, item_id)",
        }
    }
}

} // verus!
