//! The records a wallet stores: encrypted values, their tags, and the view of a
//! record that a query hands back.

use vstd::prelude::*;
use crate::bytes::{copy_bytes, copy_text};

verus! {

/// A ciphertext together with the wrapped key that opens it.
#[derive(Clone, Debug, PartialEq, Eq, PartialOrd, Ord)]
pub struct EncryptedValue {
    pub data: Vec<u8>,
    pub key: Vec<u8>,
}

/// What an [`EncryptedValue`] holds.
pub struct EncryptedValueView {
    pub data: Seq<u8>,
    pub key: Seq<u8>,
}

impl View for EncryptedValue {
    type V = EncryptedValueView;

    open spec fn view(&self) -> EncryptedValueView {
        EncryptedValueView { data: self.data@, key: self.key@ }
    }
}

impl DeepView for EncryptedValue {
    type V = EncryptedValueView;

    open spec fn deep_view(&self) -> EncryptedValueView {
        self@
    }
}

impl EncryptedValue {
    pub fn new(data: Vec<u8>, key: Vec<u8>) -> (value: EncryptedValue)
        ensures
            value@ == (EncryptedValueView { data: data@, key: key@ }),
    {
        EncryptedValue { data, key }
    }

    /// A copy of this value, byte for byte.
    pub fn duplicate(&self) -> (copy: EncryptedValue)
        ensures
            copy@ == self@,
    {
        EncryptedValue { data: copy_bytes(self.data.as_slice()), key: copy_bytes(self.key.as_slice()) }
    }
}

/// A searchable annotation of an item. The variant decides the table that holds
/// the tag and how it can be searched: an encrypted tag by exact match only, a
/// plaintext tag also by range and pattern.
#[derive(Clone, Debug, PartialEq, Eq, PartialOrd, Ord)]
pub enum Tag {
    Encrypted(Vec<u8>, Vec<u8>),
    PlainText(Vec<u8>, String),
}

/// What a [`Tag`] holds: its name and its value.
pub enum TagView {
    Encrypted(Seq<u8>, Seq<u8>),
    PlainText(Seq<u8>, Seq<char>),
}

impl View for Tag {
    type V = TagView;

    open spec fn view(&self) -> TagView {
        match *self {
            Tag::Encrypted(name, value) => TagView::Encrypted(name@, value@),
            Tag::PlainText(name, value) => TagView::PlainText(name@, value@),
        }
    }
}

impl DeepView for Tag {
    type V = TagView;

    open spec fn deep_view(&self) -> TagView {
        self@
    }
}

impl Tag {
    /// A copy of this tag.
    pub fn duplicate(&self) -> (copy: Tag)
        ensures
            copy@ == self@,
    {
        match self {
            Tag::Encrypted(name, value) => Tag::Encrypted(
                copy_bytes(name.as_slice()),
                copy_bytes(value.as_slice()),
            ),
            Tag::PlainText(name, value) => Tag::PlainText(
                copy_bytes(name.as_slice()),
                copy_text(value.as_str()),
            ),
        }
    }
}

/// The name of a tag and the variant it belongs to.
#[derive(Clone, Debug, PartialEq, Eq, PartialOrd, Ord)]
pub enum TagName {
    OfEncrypted(Vec<u8>),
    OfPlain(Vec<u8>),
}

/// What a [`TagName`] holds.
pub enum TagNameView {
    OfEncrypted(Seq<u8>),
    OfPlain(Seq<u8>),
}

impl View for TagName {
    type V = TagNameView;

    open spec fn view(&self) -> TagNameView {
        match *self {
            TagName::OfEncrypted(name) => TagNameView::OfEncrypted(name@),
            TagName::OfPlain(name) => TagNameView::OfPlain(name@),
        }
    }
}

impl DeepView for TagName {
    type V = TagNameView;

    open spec fn deep_view(&self) -> TagNameView {
        self@
    }
}

impl TagName {
    /// A copy of this tag name.
    pub fn duplicate(&self) -> (copy: TagName)
        ensures
            copy@ == self@,
    {
        match self {
            TagName::OfEncrypted(name) => TagName::OfEncrypted(copy_bytes(name.as_slice())),
            TagName::OfPlain(name) => TagName::OfPlain(copy_bytes(name.as_slice())),
        }
    }
}

/// A record as a query returns it: the item's name, and the value, type and tags
/// where the options of the query asked for them.
#[derive(Clone, Debug, PartialEq, Eq)]
pub struct StorageRecord {
    pub id: Vec<u8>,
    pub value: Option<EncryptedValue>,
    pub type_: Option<Vec<u8>>,
    pub tags: Option<Vec<Tag>>,
}

/// What a [`StorageRecord`] holds.
pub struct StorageRecordView {
    pub id: Seq<u8>,
    pub value: Option<EncryptedValueView>,
    pub type_: Option<Seq<u8>>,
    pub tags: Option<Seq<TagView>>,
}

impl View for StorageRecord {
    type V = StorageRecordView;

    open spec fn view(&self) -> StorageRecordView {
        StorageRecordView {
            id: self.id@,
            value: self.value.deep_view(),
            type_: match self.type_ {
                Some(type_) => Some(type_@),
                None => None,
            },
            tags: self.tags.deep_view(),
        }
    }
}

impl DeepView for StorageRecord {
    type V = StorageRecordView;

    open spec fn deep_view(&self) -> StorageRecordView {
        self@
    }
}

impl StorageRecord {
    pub fn new(
        id: Vec<u8>,
        value: Option<EncryptedValue>,
        type_: Option<Vec<u8>>,
        tags: Option<Vec<Tag>>,
    ) -> (record: StorageRecord)
        ensures
            record@ == (StorageRecordView {
                id: id@,
                value: value.deep_view(),
                type_: match type_ {
                    Some(type_) => Some(type_@),
                    None => None,
                },
                tags: tags.deep_view(),
            }),
    {
        StorageRecord { id, value, type_, tags }
    }
}

/// Copies of the tags of `tags`, in their order.
pub fn copy_tags(tags: &[Tag]) -> (copy: Vec<Tag>)
    ensures
        copy.deep_view() == tags.deep_view(),
{
    let mut copy: Vec<Tag> = Vec::new();
    let mut i: usize = 0;
    while i < tags.len()
        invariant
            i <= tags.len(),
            copy.len() == i,
            forall|k: int| 0 <= k < i ==> copy@[k]@ == tags@[k]@,
        decreases tags.len() - i,
    {
        copy.push(tags[i].duplicate());
        i += 1;
    }
    assert(copy.deep_view() =~= tags.deep_view());
    copy
}

/// Copies of the tag names of `names`, in their order.
pub fn copy_tag_names(names: &[TagName]) -> (copy: Vec<TagName>)
    ensures
        copy.deep_view() == names.deep_view(),
{
    let mut copy: Vec<TagName> = Vec::new();
    let mut i: usize = 0;
    while i < names.len()
        invariant
            i <= names.len(),
            copy.len() == i,
            forall|k: int| 0 <= k < i ==> copy@[k]@ == names@[k]@,
        decreases names.len() - i,
    {
        copy.push(names[i].duplicate());
        i += 1;
    }
    assert(copy.deep_view() =~= names.deep_view());
    copy
}

} // verus!
