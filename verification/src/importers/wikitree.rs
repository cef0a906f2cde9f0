//! The WikiTree provider: its request parameters, its response envelopes,
//! and the record it returns, mapped onto the generic model.
//!
//! Nothing here touches the network. A request is built as a URL; the
//! caller performs the GET, reports what came back, and hands the decoded
//! envelopes in.

use super::{option_text, Gender, ImportSource, Person, PersonView, Search};
use crate::decimal::{i64_text, int_text, lemma_i64_round_trip, parse_i64, parsed_i64};
use crate::utils::ImportError;
use vstd::prelude::*;
use vstd::std_specs::convert::FromSpec;

verus! {

/// The provider's endpoint; every request goes to it.
pub const API_URL: &'static str = "https://api.wikitree.com/api.php";

/// The fields asked for with every request, so that each record that comes
/// back can answer every accessor of `Person`.
pub const PERSON_FIELDS: &'static str =
    "Id,FirstName,MiddleName,Nicknames,LastNameAtBirth,LastNameCurrent,Nicknames,LastNameOther,RealName,Prefix,Suffix,Gender,BirthDate,DeathDate,BirthLocation,DeathLocation,IsLiving";

/// Request parameters as plain text: names and values, in the order sent.
pub open spec fn params_text(params: Seq<(String, String)>) -> Seq<(Seq<char>, Seq<char>)> {
    Seq::new(params.len(), |i: int| (params[i].0@, params[i].1@))
}

/// The parameter that an optional value gives: none where it is absent.
pub open spec fn optional_param(name: Seq<char>, value: Option<Seq<char>>) -> Seq<
    (Seq<char>, Seq<char>),
> {
    match value {
        Some(text) => seq![(name, text)],
        None => seq![],
    }
}

fn push_param(params: &mut Vec<(String, String)>, name: &str, value: String)
    ensures
        params_text(final(params)@) == params_text(old(params)@).push((name@, value@)),
{
    params.push((String::from_str(name), value));
    assert(params_text(params@) =~= params_text(old(params)@).push((name@, value@)));
}

/// Appends the parameter that `value` gives, if any, to a list that holds
/// `sent` after an older part `base`.
fn push_optional_param(
    params: &mut Vec<(String, String)>,
    name: &str,
    value: &Option<String>,
    Ghost(base): Ghost<Seq<(Seq<char>, Seq<char>)>>,
    Ghost(sent): Ghost<Seq<(Seq<char>, Seq<char>)>>,
)
    requires
        params_text(old(params)@) == base + sent,
    ensures
        params_text(final(params)@) == base + (sent + optional_param(name@, option_text(*value))),
{
    match value {
        Some(text) => {
            push_param(params, name, text.clone());
        },
        None => {},
    }
    assert(params_text(params@) =~= base + (sent + optional_param(name@, option_text(*value))));
}

/// The value sent for a gender: only male and female are asked for by name.
pub open spec fn gender_param(gender: Gender) -> Option<Seq<char>> {
    match gender {
        Gender::Female => Some("female"@),
        Gender::Male => Some("male"@),
        Gender::Other => None,
        Gender::Unknown => None,
    }
}

/// The text of an optional literal: `None` where it is absent.
pub open spec fn literal_text(value: Option<&'static str>) -> Option<Seq<char>> {
    match value {
        Some(text) => Some(text@),
        None => None,
    }
}

fn same_text(value: &String, text: &str) -> (same: bool)
    ensures
        same == (value@ == text@),
{
    let other = String::from_str(text);
    *value == other
}

/// The gender that a record's text stands for.
pub open spec fn gender_of(text: Option<Seq<char>>) -> Gender {
    match text {
        Some(text) => if text == "male"@ {
            Gender::Male
        } else if text == "female"@ {
            Gender::Female
        } else {
            Gender::Other
        },
        None => Gender::Unknown,
    }
}

/// The criteria of a search as the provider names them.
#[allow(non_snake_case)]
#[derive(Debug)]
pub struct WikiTreeSearchPerson {
    pub FirstName: Option<String>,
    pub LastName: Option<String>,
    pub BirthDate: Option<String>,
    pub DeathDate: Option<String>,
    pub BirthLocation: Option<String>,
    pub DeathLocation: Option<String>,
    pub Gender: Option<&'static str>,
    pub fatherFirstName: Option<String>,
    pub fatherLastName: Option<String>,
    pub motherFirstName: Option<String>,
    pub motherLastName: Option<String>,
}

impl Default for WikiTreeSearchPerson {
    fn default() -> (person: Self)
        ensures
            person.params() == Seq::<(Seq<char>, Seq<char>)>::empty(),
            person == (WikiTreeSearchPerson {
                FirstName: None,
                LastName: None,
                BirthDate: None,
                DeathDate: None,
                BirthLocation: None,
                DeathLocation: None,
                Gender: None,
                fatherFirstName: None,
                fatherLastName: None,
                motherFirstName: None,
                motherLastName: None,
            }),
    {
        let person = WikiTreeSearchPerson {
            FirstName: None,
            LastName: None,
            BirthDate: None,
            DeathDate: None,
            BirthLocation: None,
            DeathLocation: None,
            Gender: None,
            fatherFirstName: None,
            fatherLastName: None,
            motherFirstName: None,
            motherLastName: None,
        };
        assert(person.params() =~= Seq::<(Seq<char>, Seq<char>)>::empty());
        person
    }
}

impl WikiTreeSearchPerson {
    /// The parameters these criteria are sent as: one for each criterion
    /// that is present, under the provider's name for it.
    pub open spec fn params(self) -> Seq<(Seq<char>, Seq<char>)> {
        optional_param("FirstName"@, option_text(self.FirstName)) + optional_param(
            "LastName"@,
            option_text(self.LastName),
        ) + optional_param("BirthDate"@, option_text(self.BirthDate)) + optional_param(
            "DeathDate"@,
            option_text(self.DeathDate),
        ) + optional_param("BirthLocation"@, option_text(self.BirthLocation)) + optional_param(
            "DeathLocation"@,
            option_text(self.DeathLocation),
        ) + optional_param("Gender"@, literal_text(self.Gender)) + optional_param(
            "fatherFirstName"@,
            option_text(self.fatherFirstName),
        ) + optional_param("fatherLastName"@, option_text(self.fatherLastName)) + optional_param(
            "motherFirstName"@,
            option_text(self.motherFirstName),
        ) + optional_param("motherLastName"@, option_text(self.motherLastName))
    }

    /// Appends these parameters to `params`.
    fn push_params(&self, params: &mut Vec<(String, String)>)
        ensures
            params_text(final(params)@) == params_text(old(params)@) + self.params(),
    {
        let ghost base = params_text(params@);
        let ghost mut sent = Seq::<(Seq<char>, Seq<char>)>::empty();
        assert(base + sent =~= base);
        push_optional_param(params, "FirstName", &self.FirstName, Ghost(base), Ghost(sent));
        proof {
            assert(sent + optional_param("FirstName"@, option_text(self.FirstName))
                =~= optional_param("FirstName"@, option_text(self.FirstName)));
            sent = optional_param("FirstName"@, option_text(self.FirstName));
        }
        push_optional_param(params, "LastName", &self.LastName, Ghost(base), Ghost(sent));
        proof {
            sent = sent + optional_param("LastName"@, option_text(self.LastName));
        }
        push_optional_param(params, "BirthDate", &self.BirthDate, Ghost(base), Ghost(sent));
        proof {
            sent = sent + optional_param("BirthDate"@, option_text(self.BirthDate));
        }
        push_optional_param(params, "DeathDate", &self.DeathDate, Ghost(base), Ghost(sent));
        proof {
            sent = sent + optional_param("DeathDate"@, option_text(self.DeathDate));
        }
        push_optional_param(params, "BirthLocation", &self.BirthLocation, Ghost(base), Ghost(sent));
        proof {
            sent = sent + optional_param("BirthLocation"@, option_text(self.BirthLocation));
        }
        push_optional_param(params, "DeathLocation", &self.DeathLocation, Ghost(base), Ghost(sent));
        proof {
            sent = sent + optional_param("DeathLocation"@, option_text(self.DeathLocation));
        }
        let gender = match self.Gender {
            Some(text) => Some(String::from_str(text)),
            None => None,
        };
        push_optional_param(params, "Gender", &gender, Ghost(base), Ghost(sent));
        proof {
            sent = sent + optional_param("Gender"@, literal_text(self.Gender));
        }
        push_optional_param(
            params,
            "fatherFirstName",
            &self.fatherFirstName,
            Ghost(base),
            Ghost(sent),
        );
        proof {
            sent = sent + optional_param("fatherFirstName"@, option_text(self.fatherFirstName));
        }
        push_optional_param(params, "fatherLastName", &self.fatherLastName, Ghost(base), Ghost(sent));
        proof {
            sent = sent + optional_param("fatherLastName"@, option_text(self.fatherLastName));
        }
        push_optional_param(
            params,
            "motherFirstName",
            &self.motherFirstName,
            Ghost(base),
            Ghost(sent),
        );
        proof {
            sent = sent + optional_param("motherFirstName"@, option_text(self.motherFirstName));
        }
        push_optional_param(params, "motherLastName", &self.motherLastName, Ghost(base), Ghost(sent));
        proof {
            sent = sent + optional_param("motherLastName"@, option_text(self.motherLastName));
            assert(sent == self.params());
        }
    }
}

impl From<Search> for WikiTreeSearchPerson {
    /// Carries each criterion over under the provider's name for it. The
    /// gender is lowered to text: `male` or `female`, and nothing for a
    /// search that asks for neither.
    fn from(search: Search) -> (person: Self) {
        let gender = match search.gender {
            Gender::Female => Some("female"),
            Gender::Male => Some("male"),
            Gender::Other => None,
            Gender::Unknown => None,
        };
        WikiTreeSearchPerson {
            FirstName: search.first_name,
            LastName: search.last_name,
            BirthDate: search.birth_date,
            DeathDate: search.death_date,
            BirthLocation: search.birth_location,
            DeathLocation: search.death_location,
            Gender: gender,
            fatherFirstName: search.father_first_name,
            fatherLastName: search.father_last_name,
            motherFirstName: search.mother_first_name,
            motherLastName: search.mother_last_name,
        }
    }
}

impl vstd::std_specs::convert::FromSpecImpl<Search> for WikiTreeSearchPerson {
    open spec fn obeys_from_spec() -> bool {
        true
    }

    open spec fn from_spec(search: Search) -> Self {
        WikiTreeSearchPerson {
            FirstName: search.first_name,
            LastName: search.last_name,
            BirthDate: search.birth_date,
            DeathDate: search.death_date,
            BirthLocation: search.birth_location,
            DeathLocation: search.death_location,
            Gender: match search.gender {
                Gender::Female => Some("female"),
                Gender::Male => Some("male"),
                Gender::Other => None,
                Gender::Unknown => None,
            },
            fatherFirstName: search.father_first_name,
            fatherLastName: search.father_last_name,
            motherFirstName: search.mother_first_name,
            motherLastName: search.mother_last_name,
        }
    }
}

/// The parameters that a search for the given criteria is sent with: the
/// criteria that are present, then the fields asked for.
pub open spec fn search_params(search: Search) -> Seq<(Seq<char>, Seq<char>)> {
    WikiTreeSearchPersonRequest::new_spec(WikiTreeSearchPerson::from_spec(search)).params()
}

/// A search as it is sent: the criteria, and the fields asked for.
#[derive(Debug)]
pub struct WikiTreeSearchPersonRequest {
    pub person: WikiTreeSearchPerson,
    pub fields: &'static str,
}

impl WikiTreeSearchPersonRequest {
    pub open spec fn new_spec(person: WikiTreeSearchPerson) -> WikiTreeSearchPersonRequest {
        WikiTreeSearchPersonRequest { person, fields: PERSON_FIELDS }
    }

    /// A request for the given criteria that asks for every field of a record.
    #[verifier::when_used_as_spec(new_spec)]
    pub fn new(person: WikiTreeSearchPerson) -> (request: WikiTreeSearchPersonRequest)
        ensures
            request == Self::new_spec(person),
    {
        WikiTreeSearchPersonRequest { person, fields: PERSON_FIELDS }
    }

    /// The parameters of the request, in the order sent.
    pub open spec fn params(self) -> Seq<(Seq<char>, Seq<char>)> {
        self.person.params().push(("fields"@, self.fields@))
    }

    pub fn to_params(&self) -> (params: Vec<(String, String)>)
        ensures
            params_text(params@) == self.params(),
    {
        let mut params: Vec<(String, String)> = Vec::new();
        assert(params_text(params@) =~= Seq::<(Seq<char>, Seq<char>)>::empty());
        self.person.push_params(&mut params);
        push_param(&mut params, "fields", String::from_str(self.fields));
        assert(params_text(params@) =~= self.params());
        params
    }
}

/// A lookup as it is sent: the key of the record, and the fields asked for.
#[derive(Debug)]
pub struct WikiTreeGetPersonRequest {
    pub key: i64,
    pub fields: &'static str,
}

impl WikiTreeGetPersonRequest {
    pub open spec fn new_spec(key: i64) -> WikiTreeGetPersonRequest {
        WikiTreeGetPersonRequest { key, fields: PERSON_FIELDS }
    }

    /// A request for the record with the given key that asks for every
    /// field of it.
    #[verifier::when_used_as_spec(new_spec)]
    pub fn new(key: i64) -> (request: WikiTreeGetPersonRequest)
        ensures
            request == Self::new_spec(key),
    {
        WikiTreeGetPersonRequest { key, fields: PERSON_FIELDS }
    }

    /// The parameters of the request, in the order sent: the key as decimal
    /// text, then the fields.
    pub open spec fn params(self) -> Seq<(Seq<char>, Seq<char>)> {
        seq![("key"@, int_text(self.key as int)), ("fields"@, self.fields@)]
    }

    pub fn to_params(&self) -> (params: Vec<(String, String)>)
        ensures
            params_text(params@) == self.params(),
    {
        let mut params: Vec<(String, String)> = Vec::new();
        assert(params_text(params@) =~= Seq::<(Seq<char>, Seq<char>)>::empty());
        push_param(&mut params, "key", i64_text(self.key));
        push_param(&mut params, "fields", String::from_str(self.fields));
        assert(params_text(params@) =~= self.params());
        params
    }
}

/// A person as the provider records it.
#[allow(non_snake_case)]
#[derive(Debug, PartialEq, Eq)]
pub struct WikiTreePerson {
    pub Id: i64,
    pub FirstName: Option<String>,
    pub MiddleName: Option<String>,
    pub LastNameAtBirth: Option<String>,
    pub LastNameCurrent: Option<String>,
    pub Nicknames: Option<String>,
    pub LastNameOther: Option<String>,
    pub RealName: Option<String>,
    pub Prefix: Option<String>,
    pub Suffix: Option<String>,
    pub Gender: Option<String>,
    pub BirthDate: Option<String>,
    pub DeathDate: Option<String>,
    pub BirthLocation: Option<String>,
    pub DeathLocation: Option<String>,
    pub IsLiving: i64,
}

impl Person for WikiTreePerson {
    /// Each field under its generic name. The key is written in decimal,
    /// the gender is read from its text, and any living status but zero
    /// means living.
    open spec fn view(&self) -> PersonView {
        PersonView {
            id: int_text(self.Id as int),
            first_name: option_text(self.FirstName),
            middle_name: option_text(self.MiddleName),
            last_name_at_birth: option_text(self.LastNameAtBirth),
            last_name_current: option_text(self.LastNameCurrent),
            nicknames: option_text(self.Nicknames),
            last_name_other: option_text(self.LastNameOther),
            real_name: option_text(self.RealName),
            prefix: option_text(self.Prefix),
            suffix: option_text(self.Suffix),
            gender: gender_of(option_text(self.Gender)),
            birth_date: option_text(self.BirthDate),
            death_date: option_text(self.DeathDate),
            birth_location: option_text(self.BirthLocation),
            death_location: option_text(self.DeathLocation),
            is_living: self.IsLiving != 0,
        }
    }

    fn get_id(&self) -> (id: String) {
        i64_text(self.Id)
    }

    fn first_name(&self) -> (value: &Option<String>)
        ensures
            *value == self.FirstName,
    {
        &self.FirstName
    }

    fn middle_name(&self) -> (value: &Option<String>)
        ensures
            *value == self.MiddleName,
    {
        &self.MiddleName
    }

    fn last_name_at_birth(&self) -> (value: &Option<String>)
        ensures
            *value == self.LastNameAtBirth,
    {
        &self.LastNameAtBirth
    }

    fn last_name_current(&self) -> (value: &Option<String>)
        ensures
            *value == self.LastNameCurrent,
    {
        &self.LastNameCurrent
    }

    fn nicknames(&self) -> (value: &Option<String>)
        ensures
            *value == self.Nicknames,
    {
        &self.Nicknames
    }

    fn last_name_other(&self) -> (value: &Option<String>)
        ensures
            *value == self.LastNameOther,
    {
        &self.LastNameOther
    }

    fn real_name(&self) -> (value: &Option<String>)
        ensures
            *value == self.RealName,
    {
        &self.RealName
    }

    fn prefix(&self) -> (value: &Option<String>)
        ensures
            *value == self.Prefix,
    {
        &self.Prefix
    }

    fn suffix(&self) -> (value: &Option<String>)
        ensures
            *value == self.Suffix,
    {
        &self.Suffix
    }

    fn gender(&self) -> (gender: Gender) {
        match &self.Gender {
            Some(gender) => {
                if same_text(gender, "male") {
                    Gender::Male
                } else if same_text(gender, "female") {
                    Gender::Female
                } else {
                    Gender::Other
                }
            },
            None => Gender::Unknown,
        }
    }

    fn birth_date(&self) -> (value: &Option<String>)
        ensures
            *value == self.BirthDate,
    {
        &self.BirthDate
    }

    fn death_date(&self) -> (value: &Option<String>)
        ensures
            *value == self.DeathDate,
    {
        &self.DeathDate
    }

    fn birth_location(&self) -> (value: &Option<String>)
        ensures
            *value == self.BirthLocation,
    {
        &self.BirthLocation
    }

    fn death_location(&self) -> (value: &Option<String>)
        ensures
            *value == self.DeathLocation,
    {
        &self.DeathLocation
    }

    fn is_living(&self) -> (living: bool) {
        if self.IsLiving == 0 {
            false
        } else {
            true
        }
    }
}

/// The envelope of an answer to a search.
#[derive(Debug)]
pub struct WikiTreeSearchPersonResult {
    pub status: i64,
    pub matches: Vec<WikiTreePerson>,
}

/// The envelope of an answer to a lookup.
#[derive(Debug)]
pub struct WikiTreeGetPersonResult {
    pub user_id: i64,
    pub person: WikiTreePerson,
    pub status: i64,
}

/// The query string that `serde_urlencoded::to_string` makes of a list of
/// parameters: the pairs `name=value` joined by `&`, each name and value
/// in `application/x-www-form-urlencoded` form.
pub uninterp spec fn form_encoding(params: Seq<(Seq<char>, Seq<char>)>) -> Seq<char>;

/// Calls `serde_urlencoded::to_string` on the list of parameters.
///
/// Not proved: that a list of pairs of strings is always encoded (the
/// serializer takes a sequence of two-element tuples whose parts are
/// strings, and fails only on other shapes), and that the text it returns
/// depends on the names and values alone.
#[verifier::external_body]
fn form_encode(params: &Vec<(String, String)>) -> (encoded: Result<
    String,
    serde_urlencoded::ser::Error,
>)
    ensures
        encoded is Ok,
        encoded.unwrap()@ == form_encoding(params_text(params@)),
{
    serde_urlencoded::to_string(params)
}

/// The URL of a call: the endpoint, the action, and the encoded parameters.
pub open spec fn url_text(action: Seq<char>, query: Seq<char>) -> Seq<char> {
    API_URL@ + "?action="@ + action + "&"@ + query
}

/// Puts the URL of a call together from the action and what the encoder
/// made of the parameters. What the encoder refused is handed on as
/// `URLEncodeError`.
pub fn url_with_query(action: &str, encoded: Result<String, serde_urlencoded::ser::Error>) -> (url:
    Result<String, ImportError>)
    ensures
        match encoded {
            Ok(query) => url is Ok && url.unwrap()@ == url_text(action@, query@),
            Err(error) => url == Err::<String, ImportError>(ImportError::URLEncodeError(error)),
        },
{
    match encoded {
        Ok(query) => {
            let mut url = String::from_str(API_URL);
            url.append("?action=");
            url.append(action);
            url.append("&");
            url.append(query.as_str());
            Ok(url)
        },
        Err(error) => Err(ImportError::URLEncodeError(error)),
    }
}

/// The URL that calls `action` with the given parameters.
pub fn construct_url(action: &str, params: &Vec<(String, String)>) -> (url: Result<
    String,
    ImportError,
>)
    ensures
        url is Ok,
        url.unwrap()@ == url_text(action@, form_encoding(params_text(params@))),
{
    url_with_query(action, form_encode(params))
}

/// Whether a status code reports success: 200 to 299.
pub open spec fn is_success(status: u16) -> bool {
    200 <= status <= 299
}

/// What the caller reports while it carries out one GET.
#[derive(Debug)]
pub enum HttpEvent<T> {
    /// The transport failed: no response could be had, or its body could
    /// not be read. With the transport's own words.
    Fault(String),
    /// A response arrived, with this status code.
    Status(u16),
    /// The body was read, and decoded as the shape expected.
    Decoded(T),
    /// The body was read, and is not JSON of the shape expected. With the
    /// parser's own words.
    Malformed(String),
}

/// What the caller does next.
#[derive(Debug)]
pub enum HttpStep<T> {
    /// Read the body of the response, decode it, and report the outcome.
    ReadBody,
    /// Nothing more: the call is over, with this outcome.
    Done(Result<T, ImportError>),
}

/// Decides how a call to `url` goes on after `event`.
///
/// A fault ends the call with `HTTPError`. A status outside 200..=299 ends
/// it with `HTTPStatusError`, which carries the URL and the status, and
/// the body is left unread; after any other status the body is to be read.
/// A decoded body is the outcome of the call; one that could not be
/// decoded ends it with `JsonError`.
pub fn call_api<T>(url: &str, event: HttpEvent<T>) -> (step: HttpStep<T>)
    ensures
        match event {
            HttpEvent::Fault(message) => step == HttpStep::Done(
                Err::<T, ImportError>(ImportError::HTTPError(message)),
            ),
            HttpEvent::Status(status) => if is_success(status) {
                step == HttpStep::<T>::ReadBody
            } else {
                step matches HttpStep::Done(Err(ImportError::HTTPStatusError(address, code)))
                    && address@ == url@ && code == status
            },
            HttpEvent::Decoded(value) => step == HttpStep::Done(Ok::<T, ImportError>(value)),
            HttpEvent::Malformed(message) => step == HttpStep::Done(
                Err::<T, ImportError>(ImportError::JsonError(message)),
            ),
        },
{
    match event {
        HttpEvent::Fault(message) => HttpStep::Done(Err(ImportError::HTTPError(message))),
        HttpEvent::Status(status) => {
            if 200 <= status && status <= 299 {
                HttpStep::ReadBody
            } else {
                HttpStep::Done(Err(ImportError::HTTPStatusError(String::from_str(url), status)))
            }
        },
        HttpEvent::Decoded(value) => HttpStep::Done(Ok(value)),
        HttpEvent::Malformed(message) => HttpStep::Done(Err(ImportError::JsonError(message))),
    }
}

/// The URL to fetch for a search.
pub fn search_person_url(request: &WikiTreeSearchPersonRequest) -> (url: Result<
    String,
    ImportError,
>)
    ensures
        url is Ok,
        url.unwrap()@ == url_text("searchPerson"@, form_encoding(request.params())),
{
    let params = request.to_params();
    construct_url("searchPerson", &params)
}

/// The matches that the answer to a search holds: those of its first
/// envelope. An answer without an envelope breaks the provider's protocol.
pub open spec fn first_matches(results: Seq<WikiTreeSearchPersonResult>) -> Result<
    Vec<WikiTreePerson>,
    ImportError,
> {
    if results.len() > 0 {
        Ok(results[0].matches)
    } else {
        Err(ImportError::ProviderProtocolError)
    }
}

/// The matches of a search, from the envelopes that the provider answered
/// with. No match is a success.
pub fn search_person(results: Vec<WikiTreeSearchPersonResult>) -> (found: Result<
    Vec<WikiTreePerson>,
    ImportError,
>)
    ensures
        found == first_matches(results@),
{
    let mut results = results;
    if results.len() > 0 {
        Ok(results.remove(0).matches)
    } else {
        Err(ImportError::ProviderProtocolError)
    }
}

/// The URL to fetch for the record with the given key.
pub fn get_person_url(person_id: i64) -> (url: Result<String, ImportError>)
    ensures
        url is Ok,
        url.unwrap()@ == url_text(
            "getPerson"@,
            form_encoding(WikiTreeGetPersonRequest::new_spec(person_id).params()),
        ),
{
    let request = WikiTreeGetPersonRequest::new(person_id);
    let params = request.to_params();
    construct_url("getPerson", &params)
}

/// The record that the answer to a lookup holds: that of its first
/// envelope. An answer without an envelope means that nothing matched.
pub open spec fn first_person(results: Seq<WikiTreeGetPersonResult>) -> Result<
    WikiTreePerson,
    ImportError,
> {
    if results.len() > 0 {
        Ok(results[0].person)
    } else {
        Err(ImportError::NoMatchesError)
    }
}

/// The record looked up, from the envelopes that the provider answered with.
pub fn get_person(results: Vec<WikiTreeGetPersonResult>) -> (found: Result<
    WikiTreePerson,
    ImportError,
>)
    ensures
        found == first_person(results@),
{
    let mut results = results;
    if results.len() > 0 {
        Ok(results.remove(0).person)
    } else {
        Err(ImportError::NoMatchesError)
    }
}

/// The WikiTree provider as an import source.
#[derive(Debug)]
pub struct WikiTreeImporter;

impl WikiTreeImporter {
    pub fn new() -> (importer: WikiTreeImporter)
        ensures
            importer == WikiTreeImporter,
    {
        WikiTreeImporter
    }
}

impl ImportSource for WikiTreeImporter {
    type Record = WikiTreePerson;

    type SearchReply = Vec<WikiTreeSearchPersonResult>;

    type PersonReply = Vec<WikiTreeGetPersonResult>;

    /// A key is a 64-bit integer in decimal.
    open spec fn is_key(id: Seq<char>) -> bool {
        parsed_i64(id) is Some
    }

    open spec fn matches_in(reply: Vec<WikiTreeSearchPersonResult>) -> Option<Vec<WikiTreePerson>> {
        if reply@.len() > 0 {
            Some(reply@[0].matches)
        } else {
            None
        }
    }

    open spec fn record_in(reply: Vec<WikiTreeGetPersonResult>) -> Option<WikiTreePerson> {
        if reply@.len() > 0 {
            Some(reply@[0].person)
        } else {
            None
        }
    }

    proof fn lemma_record_id_is_key(record: WikiTreePerson) {
        lemma_i64_round_trip(record.Id);
    }

    fn search_request(&self, search: Search) -> (url: Result<String, ImportError>)
        ensures
            url is Ok,
            url.unwrap()@ == url_text("searchPerson"@, form_encoding(search_params(search))),
    {
        let person = WikiTreeSearchPerson::from(search);
        let request = WikiTreeSearchPersonRequest::new(person);
        search_person_url(&request)
    }

    fn search_person(&self, reply: Vec<WikiTreeSearchPersonResult>) -> (found: Result<
        Vec<WikiTreePerson>,
        ImportError,
    >) {
        search_person(reply)
    }

    fn person_request(&self, id: String) -> (url: Result<String, ImportError>)
        ensures
            match parsed_i64(id@) {
                Some(key) => url is Ok && url.unwrap()@ == url_text(
                    "getPerson"@,
                    form_encoding(WikiTreeGetPersonRequest::new_spec(key).params()),
                ),
                None => url == Err::<String, ImportError>(ImportError::InvalidIdentifier(id)),
            },
    {
        match parse_i64(id.as_str()) {
            Some(key) => get_person_url(key),
            None => Err(ImportError::InvalidIdentifier(id)),
        }
    }

    fn get_person(&self, reply: Vec<WikiTreeGetPersonResult>) -> (found: Result<
        WikiTreePerson,
        ImportError,
    >) {
        get_person(reply)
    }
}

/// A search without criteria is sent with one parameter, the fields asked
/// for, and nothing that filters.
pub proof fn lemma_unconstrained_search(search: Search)
    requires
        search.has_no_text(),
        search.gender == Gender::Unknown || search.gender == Gender::Other,
    ensures
        search_params(search) == seq![("fields"@, PERSON_FIELDS@)],
{
    assert(search_params(search) =~= seq![("fields"@, PERSON_FIELDS@)]);
}

/// Every search is sent with the fields asked for as its last parameter.
pub proof fn lemma_search_asks_for_fields(search: Search)
    ensures
        search_params(search).len() > 0,
        search_params(search).last() == ("fields"@, PERSON_FIELDS@),
{
}

/// A search for men or for women finds its gender again in a record that
/// carries the gender as the search sent it.
pub proof fn lemma_gender_round_trip(search: Search, record: WikiTreePerson)
    requires
        search.gender == Gender::Male || search.gender == Gender::Female,
        option_text(record.Gender) == literal_text(WikiTreeSearchPerson::from_spec(search).Gender),
    ensures
        record.view().gender == search.gender,
{
    reveal_strlit("male");
    reveal_strlit("female");
    assert("male"@ != "female"@) by {
        assert("male"@.len() != "female"@.len());
    }
}

/// The identifier of a record is the key to look it up by: read back, it
/// is the record's key, the lookup is sent with it as it is, and where the
/// provider answers with the record of that key, the record found has the
/// same identifier.
pub proof fn lemma_identifier_round_trip(known: WikiTreePerson, reply: Vec<WikiTreeGetPersonResult>)
    requires
        reply@.len() > 0,
        reply@[0].person.Id == known.Id,
    ensures
        parsed_i64(known.view().id) == Some(known.Id),
        WikiTreeImporter::is_key(known.view().id),
        WikiTreeGetPersonRequest::new_spec(known.Id).params()[0] == ("key"@, known.view().id),
        first_person(reply@) is Ok,
        first_person(reply@).unwrap().view().id == known.view().id,
{
    lemma_i64_round_trip(known.Id);
}

} // verus!
