//! The configuration objects that shape what a query returns. They select the
//! fields that are computed and returned; they never change what is stored.

use vstd::prelude::*;
use crate::bytes::copy_text;

verus! {

/// The value a retrieval flag takes when a configuration document leaves it
/// out and the flag is on by default.
pub fn default_true() -> (flag: bool)
    ensures
        flag,
{
    true
}

/// The value a retrieval flag takes when a configuration document leaves it
/// out and the flag is off by default.
pub fn default_false() -> (flag: bool)
    ensures
        !flag,
{
    false
}

/// A configuration document as it reached the engine: left out, unreadable,
/// or read.
#[derive(Clone, Copy, Debug, PartialEq, Eq)]
pub enum Document<T> {
    Absent,
    Malformed,
    Parsed(T),
}

/// Which fields of a record a lookup returns.
#[derive(Clone, Copy, Debug, PartialEq, Eq, Structural)]
pub struct RecordOptions {
    pub retrieve_type: bool,
    pub retrieve_value: bool,
    pub retrieve_tags: bool,
}

impl RecordOptions {
    /// The options of an empty document: the value, without type and tags.
    pub open spec fn defaults() -> RecordOptions {
        RecordOptions { retrieve_type: false, retrieve_value: true, retrieve_tags: false }
    }

    /// The options that a document resolves to, if it can be read: the
    /// defaults where it is left out.
    pub open spec fn resolve(document: Document<RecordOptions>) -> Option<RecordOptions> {
        match document {
            Document::Absent => Some(RecordOptions::defaults()),
            Document::Malformed => None,
            Document::Parsed(options) => Some(options),
        }
    }

    pub fn new(retrieve_type: bool, retrieve_value: bool, retrieve_tags: bool) -> (options:
        RecordOptions)
        ensures
            options == (RecordOptions { retrieve_type, retrieve_value, retrieve_tags }),
    {
        RecordOptions { retrieve_type, retrieve_value, retrieve_tags }
    }

    /// The document that asks for the name of a record alone.
    pub fn id() -> (document: String)
        ensures
            document@ == "{\"retrieveType\":false,\"retrieveValue\":false,\"retrieveTags\":false}"@,
    {
        copy_text("{\"retrieveType\":false,\"retrieveValue\":false,\"retrieveTags\":false}")
    }

    /// The document that asks for the name and the value of a record.
    pub fn id_value() -> (document: String)
        ensures
            document@ == "{\"retrieveType\":false,\"retrieveValue\":true,\"retrieveTags\":false}"@,
    {
        copy_text("{\"retrieveType\":false,\"retrieveValue\":true,\"retrieveTags\":false}")
    }
}

impl Default for RecordOptions {
    fn default() -> (options: RecordOptions)
        ensures
            options == RecordOptions::defaults(),
    {
        RecordOptions {
            retrieve_type: default_false(),
            retrieve_value: default_true(),
            retrieve_tags: default_false(),
        }
    }
}

/// Whether a search streams records, whether it counts them, and which
/// fields of a record it returns.
#[derive(Clone, Copy, Debug, PartialEq, Eq, Structural)]
pub struct SearchOptions {
    pub retrieve_records: bool,
    pub retrieve_total_count: bool,
    pub retrieve_type: bool,
    pub retrieve_value: bool,
    pub retrieve_tags: bool,
}

impl SearchOptions {
    /// The options of an empty document: the records with their values,
    /// without count, type and tags.
    pub open spec fn defaults() -> SearchOptions {
        SearchOptions {
            retrieve_records: true,
            retrieve_total_count: false,
            retrieve_type: false,
            retrieve_value: true,
            retrieve_tags: false,
        }
    }

    /// The options that a document resolves to, if it can be read: the
    /// defaults where it is left out.
    pub open spec fn resolve(document: Document<SearchOptions>) -> Option<SearchOptions> {
        match document {
            Document::Absent => Some(SearchOptions::defaults()),
            Document::Malformed => None,
            Document::Parsed(options) => Some(options),
        }
    }

    /// The fields that these options ask of each record.
    pub open spec fn fields(self) -> RecordOptions {
        RecordOptions {
            retrieve_type: self.retrieve_type,
            retrieve_value: self.retrieve_value,
            retrieve_tags: self.retrieve_tags,
        }
    }

    pub fn new(
        retrieve_records: bool,
        retrieve_total_count: bool,
        retrieve_type: bool,
        retrieve_value: bool,
        retrieve_tags: bool,
    ) -> (options: SearchOptions)
        ensures
            options == (SearchOptions {
                retrieve_records,
                retrieve_total_count,
                retrieve_type,
                retrieve_value,
                retrieve_tags,
            }),
    {
        SearchOptions {
            retrieve_records,
            retrieve_total_count,
            retrieve_type,
            retrieve_value,
            retrieve_tags,
        }
    }

    /// The document that asks for the records with their types and values,
    /// and for their count.
    pub fn id_value() -> (document: String)
        ensures
            document@
                == "{\"retrieveRecords\":true,\"retrieveTotalCount\":true,\"retrieveType\":true,\"retrieveValue\":true,\"retrieveTags\":false}"@,
    {
        copy_text(
            "{\"retrieveRecords\":true,\"retrieveTotalCount\":true,\"retrieveType\":true,\"retrieveValue\":true,\"retrieveTags\":false}",
        )
    }

    /// The fields that these options ask of each record.
    pub fn record_options(&self) -> (options: RecordOptions)
        ensures
            options == self.fields(),
    {
        RecordOptions {
            retrieve_type: self.retrieve_type,
            retrieve_value: self.retrieve_value,
            retrieve_tags: self.retrieve_tags,
        }
    }
}

impl Default for SearchOptions {
    fn default() -> (options: SearchOptions)
        ensures
            options == SearchOptions::defaults(),
    {
        SearchOptions {
            retrieve_records: default_true(),
            retrieve_total_count: default_false(),
            retrieve_type: default_false(),
            retrieve_value: default_true(),
            retrieve_tags: default_false(),
        }
    }
}

} // verus!
