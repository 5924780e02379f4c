//! The read-only record of one fetched secret, and its validation.

use vstd::prelude::*;

verus! {

/// A fetched secret broke the data contract: a field the filter needs is
/// missing. Guessing a default would misclassify the secret, so this is
/// surfaced as an error instead.
#[derive(Clone, Copy, PartialEq, Eq, Structural, Debug)]
pub enum DataContractError {
    /// The secret has no name.
    MissingName,
    /// The secret has no type.
    MissingType,
}

impl DataContractError {
    /// A plain-text description of the error, for the surrounding binary to print.
    pub fn message(&self) -> (r: String)
        ensures
            *self == DataContractError::MissingName ==> r@ == "a fetched secret has no name"@,
            *self == DataContractError::MissingType ==> r@ == "a fetched secret has no type"@,
    {
        match self {
            DataContractError::MissingName => String::from_str("a fetched secret has no name"),
            DataContractError::MissingType => String::from_str("a fetched secret has no type"),
        }
    }
}

/// The mathematical image of a `SecretRecord`.
pub struct SecretModel {
    pub name: Seq<char>,
    pub type_: Seq<char>,
    pub data: Seq<(Seq<char>, Seq<u8>)>,
}

/// One secret as handed over by the fetching side: its name, its type
/// (for instance "Opaque" or "kubernetes.io/tls"), and its key/value byte
/// payloads in the order they were fetched.
pub struct SecretRecord {
    pub name: String,
    pub type_: String,
    pub data: Vec<(String, Vec<u8>)>,
}

impl View for SecretRecord {
    type V = SecretModel;

    open spec fn view(&self) -> SecretModel {
        SecretModel { name: self.name@, type_: self.type_@, data: self.data.deep_view() }
    }
}

impl SecretRecord {
    /// Validates one fetched secret. Name and type are required fields of
    /// the external data contract; a record that lacks one is rejected.
    pub fn new(name: Option<String>, type_: Option<String>, data: Vec<(String, Vec<u8>)>) -> (r: Result<
        SecretRecord,
        DataContractError,
    >)
        ensures
            r is Ok <==> (name is Some && type_ is Some),
            name is None ==> r == Err::<SecretRecord, DataContractError>(
                DataContractError::MissingName,
            ),
            name is Some && type_ is None ==> r == Err::<SecretRecord, DataContractError>(
                DataContractError::MissingType,
            ),
            r matches Ok(s) ==> s.name == name->0 && s.type_ == type_->0 && s.data == data,
    {
        match (name, type_) {
            (None, _) => Err(DataContractError::MissingName),
            (Some(_), None) => Err(DataContractError::MissingType),
            (Some(nm), Some(t)) => Ok(SecretRecord { name: nm, type_: t, data }),
        }
    }
}

} // verus!
