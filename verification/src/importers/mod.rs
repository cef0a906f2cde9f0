use crate::utils::ImportError;
use vstd::prelude::*;

pub mod wikitree;

verus! {

/// The gender recorded for a person, or asked for in a search.
#[derive(Debug, Clone, Copy, PartialEq, Eq, Structural)]
pub enum Gender {
    Unknown,
    Female,
    Male,
    Other,
}

impl Default for Gender {
    /// Where nothing is said of it, the gender is unknown.
    fn default() -> (gender: Gender)
        ensures
            gender == Gender::Unknown,
    {
        Gender::Unknown
    }
}

/// The text of an optional string: `None` where the string is absent.
pub open spec fn option_text(value: Option<String>) -> Option<Seq<char>> {
    match value {
        Some(text) => Some(text@),
        None => None,
    }
}

/// Search criteria. An absent field does not constrain the search; an empty
/// string is a value like any other.
#[derive(Debug)]
pub struct Search {
    pub first_name: Option<String>,
    pub last_name: Option<String>,
    pub birth_date: Option<String>,
    pub death_date: Option<String>,
    pub birth_location: Option<String>,
    pub death_location: Option<String>,
    pub gender: Gender,
    pub father_first_name: Option<String>,
    pub father_last_name: Option<String>,
    pub mother_first_name: Option<String>,
    pub mother_last_name: Option<String>,
}

impl Search {
    /// Puts the criteria together as given; nothing is validated.
    pub fn new(
        first_name: Option<String>,
        last_name: Option<String>,
        birth_date: Option<String>,
        death_date: Option<String>,
        birth_location: Option<String>,
        death_location: Option<String>,
        gender: Gender,
        father_first_name: Option<String>,
        father_last_name: Option<String>,
        mother_first_name: Option<String>,
        mother_last_name: Option<String>,
    ) -> (search: Search)
        ensures
            search == (Search {
                first_name,
                last_name,
                birth_date,
                death_date,
                birth_location,
                death_location,
                gender,
                father_first_name,
                father_last_name,
                mother_first_name,
                mother_last_name,
            }),
    {
        Search {
            first_name,
            last_name,
            birth_date,
            death_date,
            birth_location,
            death_location,
            gender,
            father_first_name,
            father_last_name,
            mother_first_name,
            mother_last_name,
        }
    }

    /// Every text criterion is absent.
    pub open spec fn has_no_text(self) -> bool {
        &&& self.first_name is None
        &&& self.last_name is None
        &&& self.birth_date is None
        &&& self.death_date is None
        &&& self.birth_location is None
        &&& self.death_location is None
        &&& self.father_first_name is None
        &&& self.father_last_name is None
        &&& self.mother_first_name is None
        &&& self.mother_last_name is None
    }
}

/// Turns the text of an input field into a criterion: an empty field
/// constrains nothing.
pub fn val_as_opt(value: String) -> (criterion: Option<String>)
    ensures
        criterion == if value@.len() == 0 {
            None
        } else {
            Some(value)
        },
{
    if value.as_str().is_empty() {
        None
    } else {
        Some(value)
    }
}

/// What a person record says, as plain values. An absent field is unknown.
pub struct PersonView {
    pub id: Seq<char>,
    pub first_name: Option<Seq<char>>,
    pub middle_name: Option<Seq<char>>,
    pub last_name_at_birth: Option<Seq<char>>,
    pub last_name_current: Option<Seq<char>>,
    pub nicknames: Option<Seq<char>>,
    pub last_name_other: Option<Seq<char>>,
    pub real_name: Option<Seq<char>>,
    pub prefix: Option<Seq<char>>,
    pub suffix: Option<Seq<char>>,
    pub gender: Gender,
    pub birth_date: Option<Seq<char>>,
    pub death_date: Option<Seq<char>>,
    pub birth_location: Option<Seq<char>>,
    pub death_location: Option<Seq<char>>,
    pub is_living: bool,
}

/// A person record of any provider, read-only.
pub trait Person: std::fmt::Debug {
    /// The record as plain values; every accessor returns its part of it.
    spec fn view(&self) -> PersonView;

    /// The provider's key of this record, usable as it is for a later lookup.
    fn get_id(&self) -> (id: String)
        ensures
            id@ == self.view().id,
    ;

    fn first_name(&self) -> (value: &Option<String>)
        ensures
            option_text(*value) == self.view().first_name,
    ;

    fn middle_name(&self) -> (value: &Option<String>)
        ensures
            option_text(*value) == self.view().middle_name,
    ;

    fn last_name_at_birth(&self) -> (value: &Option<String>)
        ensures
            option_text(*value) == self.view().last_name_at_birth,
    ;

    fn last_name_current(&self) -> (value: &Option<String>)
        ensures
            option_text(*value) == self.view().last_name_current,
    ;

    fn nicknames(&self) -> (value: &Option<String>)
        ensures
            option_text(*value) == self.view().nicknames,
    ;

    fn last_name_other(&self) -> (value: &Option<String>)
        ensures
            option_text(*value) == self.view().last_name_other,
    ;

    fn real_name(&self) -> (value: &Option<String>)
        ensures
            option_text(*value) == self.view().real_name,
    ;

    fn prefix(&self) -> (value: &Option<String>)
        ensures
            option_text(*value) == self.view().prefix,
    ;

    fn suffix(&self) -> (value: &Option<String>)
        ensures
            option_text(*value) == self.view().suffix,
    ;

    fn gender(&self) -> (gender: Gender)
        ensures
            gender == self.view().gender,
    ;

    fn birth_date(&self) -> (value: &Option<String>)
        ensures
            option_text(*value) == self.view().birth_date,
    ;

    fn death_date(&self) -> (value: &Option<String>)
        ensures
            option_text(*value) == self.view().death_date,
    ;

    fn birth_location(&self) -> (value: &Option<String>)
        ensures
            option_text(*value) == self.view().birth_location,
    ;

    fn death_location(&self) -> (value: &Option<String>)
        ensures
            option_text(*value) == self.view().death_location,
    ;

    fn is_living(&self) -> (living: bool)
        ensures
            living == self.view().is_living,
    ;
}

/// A provider of person records.
///
/// A source never touches the network itself. Each operation comes in two
/// halves: one builds the URL to fetch, the other reads what the provider
/// answered, once the caller has fetched and decoded it.
pub trait ImportSource {
    /// The provider's own record.
    type Record: Person;

    /// The decoded answer to a search.
    type SearchReply;

    /// The decoded answer to a lookup.
    type PersonReply;

    /// Whether `id` is the text of one of this provider's keys.
    spec fn is_key(id: Seq<char>) -> bool;

    /// The records that the answer to a search holds, or none where the
    /// answer lacks the envelope that must hold them.
    spec fn matches_in(reply: Self::SearchReply) -> Option<Vec<Self::Record>>;

    /// The record that the answer to a lookup holds, if it holds one.
    spec fn record_in(reply: Self::PersonReply) -> Option<Self::Record>;

    /// The identifier of a record is a key of the provider it came from, so
    /// that it can be handed back as it is to look the record up.
    proof fn lemma_record_id_is_key(record: Self::Record)
        ensures
            Self::is_key(record.view().id),
    ;

    /// The URL to fetch for a search.
    fn search_request(&self, search: Search) -> (url: Result<String, ImportError>);

    /// The matches in the provider's answer, none being a success; an
    /// answer without its envelope is an error.
    fn search_person(&self, reply: Self::SearchReply) -> (found: Result<
        Vec<Self::Record>,
        ImportError,
    >)
        ensures
            found == match Self::matches_in(reply) {
                Some(records) => Ok::<Vec<Self::Record>, ImportError>(records),
                None => Err(ImportError::ProviderProtocolError),
            },
    ;

    /// The URL to fetch for the record with the given identifier, which
    /// must be one of the provider's keys.
    fn person_request(&self, id: String) -> (url: Result<String, ImportError>)
        ensures
            !Self::is_key(id@) ==> url == Err::<String, ImportError>(
                ImportError::InvalidIdentifier(id),
            ),
            Self::is_key(id@) ==> !(url matches Err(ImportError::InvalidIdentifier(_))),
    ;

    /// The one record in the provider's answer; an answer without a record
    /// is an error.
    fn get_person(&self, reply: Self::PersonReply) -> (found: Result<Self::Record, ImportError>)
        ensures
            found == match Self::record_in(reply) {
                Some(record) => Ok::<Self::Record, ImportError>(record),
                None => Err(ImportError::NoMatchesError),
            },
    ;
}

} // verus!
