//! The identifier of a row of storage.

use crate::field::ClipError;
use uuid::Uuid;
use vstd::prelude::*;

verus! {

/// uuid's reason for refusing a text, carried through unread.
#[verifier::external_type_specification]
#[verifier::external_body]
pub struct ExUuidError(uuid::Error);

/// The number of the UUID that `Uuid::parse_str` reads from `text`; `None`
/// where it refuses the text.
pub uninterp spec fn uuid_of(text: Seq<char>) -> Option<u128>;

/// The text that the UUID of number `id` displays.
pub uninterp spec fn uuid_text(id: u128) -> Seq<char>;

/// Whether `id` is the number of a random (version 4) UUID: the version and
/// variant fields hold 4 and binary 10.
pub open spec fn is_random_uuid(id: u128) -> bool {
    (id >> 76) & 0xf == 4 && (id >> 62) & 0x3 == 2
}

/// `Uuid::new_v4`, by its number: a random UUID, of which only the version
/// and variant fields are known.
#[verifier::external_body]
fn random_uuid() -> (id: u128)
    ensures
        is_random_uuid(id),
{
    Uuid::new_v4().as_u128()
}

/// `Uuid::parse_str`, by the number of the UUID it reads. The contract names
/// the number and says that an error comes exactly where there is none.
#[verifier::external_body]
fn parse_uuid(text: &str) -> (id: Result<u128, uuid::Error>)
    ensures
        match id {
            Ok(number) => uuid_of(text@) == Some(number),
            Err(_) => uuid_of(text@) is None,
        },
{
    match Uuid::parse_str(text) {
        Ok(id) => Ok(id.as_u128()),
        Err(error) => Err(error),
    }
}

/// The display form of the UUID with the given number. The contract only
/// names the text.
#[verifier::external_body]
fn display_uuid(id: u128) -> (text: String)
    ensures
        text@ == uuid_text(id),
{
    Uuid::from_u128(id).to_string()
}

/// The text that `uuid::Error` displays. Nothing is claimed of it.
#[verifier::external_body]
fn describe(error: &uuid::Error) -> (text: String) {
    error.to_string()
}

/// The identifier of a row: a UUID, held as its number.
#[derive(Clone, Copy, Debug, PartialEq, Eq, Hash)]
pub struct DbId(u128);

impl View for DbId {
    type V = u128;

    closed spec fn view(&self) -> u128 {
        self.0
    }
}

impl DbId {
    /// A fresh random identifier. It is never the nil identifier.
    pub fn new() -> (id: DbId)
        ensures
            is_random_uuid(id@),
            id@ != 0,
    {
        let number = random_uuid();
        assert(is_random_uuid(number) ==> number != 0) by (bit_vector);
        DbId(number)
    }

    /// The nil identifier, whose bits are all zero.
    pub fn nil() -> (id: DbId)
        ensures
            id@ == 0,
    {
        DbId(0)
    }

    /// Reads an identifier from the text of a UUID.
    pub fn from_str(id: &str) -> (parsed: Result<DbId, uuid::Error>)
        ensures
            match parsed {
                Ok(read) => uuid_of(id@) == Some(read@),
                Err(_) => uuid_of(id@) is None,
            },
    {
        match parse_uuid(id) {
            Ok(number) => Ok(DbId(number)),
            Err(e) => Err(e),
        }
    }

    /// Reads the identifier of a stored clip. Text that is no UUID is refused
    /// with `ClipError::Id`.
    pub fn from_stored(id: &str) -> (parsed: Result<DbId, ClipError>)
        ensures
            match parsed {
                Ok(read) => uuid_of(id@) == Some(read@),
                Err(error) => uuid_of(id@) is None && error is Id,
            },
    {
        match DbId::from_str(id) {
            Ok(read) => Ok(read),
            Err(error) => Err(ClipError::Id(describe(&error))),
        }
    }

    /// The identifier as the text of its UUID.
    pub fn to_text(&self) -> (text: String)
        ensures
            text@ == uuid_text(self@),
    {
        display_uuid(self.0)
    }
}

impl Default for DbId {
    /// A fresh random identifier.
    fn default() -> (id: DbId)
        ensures
            is_random_uuid(id@),
    {
        DbId::new()
    }
}

} // verus!
