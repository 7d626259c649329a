//! The values of the attributes of a credential as a wallet shows them
//! before it stores the credential: a name and a value, by the media type
//! of the value.

use vstd::prelude::*;
use crate::bytes::copy_text;

verus! {

/// The name and the value of one attribute.
#[derive(Clone, Debug, PartialEq, Eq)]
pub struct CredentialValueData {
    pub name: String,
    pub value: String,
}

/// What a [`CredentialValueData`] holds.
pub struct CredentialValueDataView {
    pub name: Seq<char>,
    pub value: Seq<char>,
}

impl View for CredentialValueData {
    type V = CredentialValueDataView;

    open spec fn view(&self) -> CredentialValueDataView {
        CredentialValueDataView { name: self.name@, value: self.value@ }
    }
}

impl DeepView for CredentialValueData {
    type V = CredentialValueDataView;

    open spec fn deep_view(&self) -> CredentialValueDataView {
        self@
    }
}

impl CredentialValueData {
    /// The attribute `name` with the value `value`.
    pub fn new(name: &str, value: &str) -> (data: CredentialValueData)
        ensures
            data@ == (CredentialValueDataView { name: name@, value: value@ }),
    {
        CredentialValueData { name: copy_text(name), value: copy_text(value) }
    }
}

/// The value of an attribute, by its media type. Plain text is the one
/// media type there is.
#[derive(Clone, Debug, PartialEq, Eq)]
pub enum CredentialValue {
    /// A value of the media type `text/plain`.
    String(CredentialValueData),
}

/// What a [`CredentialValue`] holds.
pub enum CredentialValueView {
    String(CredentialValueDataView),
}

impl View for CredentialValue {
    type V = CredentialValueView;

    open spec fn view(&self) -> CredentialValueView {
        match *self {
            CredentialValue::String(data) => CredentialValueView::String(data@),
        }
    }
}

impl DeepView for CredentialValue {
    type V = CredentialValueView;

    open spec fn deep_view(&self) -> CredentialValueView {
        self@
    }
}

impl CredentialValue {
    /// The name and the value of the attribute.
    pub fn data(&self) -> (data: &CredentialValueData)
        ensures
            self@ == CredentialValueView::String(data@),
    {
        match self {
            CredentialValue::String(data) => data,
        }
    }
}

} // verus!
