use rootsmagic_importer::importers::wikitree::{
    call_api, construct_url, get_person, get_person_url, search_person, search_person_url,
    url_with_query, HttpEvent, HttpStep, WikiTreeGetPersonRequest, WikiTreeGetPersonResult,
    WikiTreeImporter, WikiTreePerson, WikiTreeSearchPerson, WikiTreeSearchPersonRequest,
    WikiTreeSearchPersonResult, API_URL, PERSON_FIELDS,
};
use rootsmagic_importer::importers::{val_as_opt, Gender, ImportSource, Person, Search};
use rootsmagic_importer::utils::ImportError;

const FIELDS_QUERY: &str = "fields=Id%2CFirstName%2CMiddleName%2CNicknames%2CLastNameAtBirth%2CLastNameCurrent%2CNicknames%2CLastNameOther%2CRealName%2CPrefix%2CSuffix%2CGender%2CBirthDate%2CDeathDate%2CBirthLocation%2CDeathLocation%2CIsLiving";

fn text(value: &str) -> Option<String> {
    Some(String::from(value))
}

fn pair(name: &str, value: &str) -> (String, String) {
    (String::from(name), String::from(value))
}

fn record(id: i64, gender: Option<&str>, is_living: i64) -> WikiTreePerson {
    WikiTreePerson {
        Id: id,
        FirstName: text("Pauline"),
        MiddleName: None,
        LastNameAtBirth: text("Winkel"),
        LastNameCurrent: text("Winkel"),
        Nicknames: None,
        LastNameOther: None,
        RealName: text("Pauline"),
        Prefix: None,
        Suffix: None,
        Gender: gender.map(String::from),
        BirthDate: text("1900-01-01"),
        DeathDate: text("1980-12-31"),
        BirthLocation: text("Amsterdam"),
        DeathLocation: None,
        IsLiving: is_living,
    }
}

fn empty_search(gender: Gender) -> Search {
    Search::new(None, None, None, None, None, None, gender, None, None, None, None)
}

#[test]
fn test_search_pauline() {
    let mut search = WikiTreeSearchPerson::default();
    search.FirstName = Some(String::from("Pauline"));
    search.LastName = Some(String::from("Winkel"));
    let request = WikiTreeSearchPersonRequest::new(search);
    let url = search_person_url(&request).unwrap();
    assert_eq!(
        url,
        format!(
            "https://api.wikitree.com/api.php?action=searchPerson&FirstName=Pauline&LastName=Winkel&{}",
            FIELDS_QUERY
        )
    );
    let answer = vec![WikiTreeSearchPersonResult { status: 0, matches: vec![record(1234, None, 0)] }];
    let mut results = search_person(answer).unwrap();
    let first = results.remove(0);
    println!("{:?}", first);
    assert_eq!(first.get_id(), "1234");
    assert_eq!(first.first_name(), &text("Pauline"));
    assert!(!first.is_living());
}

#[test]
fn search_for_pauline_winkel_through_the_source() {
    let importer = WikiTreeImporter::new();
    let search = Search::new(
        text("Pauline"),
        text("Winkel"),
        None,
        None,
        None,
        None,
        Gender::Unknown,
        None,
        None,
        None,
        None,
    );
    let url = importer.search_request(search).unwrap();
    assert_eq!(
        url,
        format!(
            "https://api.wikitree.com/api.php?action=searchPerson&FirstName=Pauline&LastName=Winkel&{}",
            FIELDS_QUERY
        )
    );
    assert!(!url.contains("Gender="));
    let answer = vec![WikiTreeSearchPersonResult { status: 0, matches: vec![record(77, None, 0)] }];
    let found = importer.search_person(answer).unwrap();
    assert_eq!(found.len(), 1);
    assert!(!found[0].is_living());
    assert_eq!(found[0].gender(), Gender::Unknown);
}

#[test]
fn search_without_criteria_sends_only_the_fields() {
    let importer = WikiTreeImporter::new();
    let url = importer.search_request(empty_search(Gender::Unknown)).unwrap();
    assert_eq!(
        url,
        format!("https://api.wikitree.com/api.php?action=searchPerson&{}", FIELDS_QUERY)
    );
    let person = WikiTreeSearchPerson::from(empty_search(Gender::Unknown));
    let params = WikiTreeSearchPersonRequest::new(person).to_params();
    assert_eq!(params, vec![pair("fields", PERSON_FIELDS)]);
}

#[test]
fn search_for_other_gender_sends_no_gender() {
    let person = WikiTreeSearchPerson::from(empty_search(Gender::Other));
    assert_eq!(person.Gender, None);
    let params = WikiTreeSearchPersonRequest::new(person).to_params();
    assert_eq!(params, vec![pair("fields", PERSON_FIELDS)]);
}

#[test]
fn search_lowers_gender_to_text() {
    let male = WikiTreeSearchPerson::from(empty_search(Gender::Male));
    assert_eq!(male.Gender, Some("male"));
    let female = WikiTreeSearchPerson::from(empty_search(Gender::Female));
    assert_eq!(female.Gender, Some("female"));
    let params = WikiTreeSearchPersonRequest::new(female).to_params();
    assert_eq!(params, vec![pair("Gender", "female"), pair("fields", PERSON_FIELDS)]);
}

#[test]
fn search_carries_every_criterion_under_the_provider_name() {
    let search = Search::new(
        text("a"),
        text("b"),
        text("c"),
        text("d"),
        text("e"),
        text("f"),
        Gender::Male,
        text("g"),
        text("h"),
        text("i"),
        text("j"),
    );
    let person = WikiTreeSearchPerson::from(search);
    let params = WikiTreeSearchPersonRequest::new(person).to_params();
    assert_eq!(
        params,
        vec![
            pair("FirstName", "a"),
            pair("LastName", "b"),
            pair("BirthDate", "c"),
            pair("DeathDate", "d"),
            pair("BirthLocation", "e"),
            pair("DeathLocation", "f"),
            pair("Gender", "male"),
            pair("fatherFirstName", "g"),
            pair("fatherLastName", "h"),
            pair("motherFirstName", "i"),
            pair("motherLastName", "j"),
            pair("fields", PERSON_FIELDS),
        ]
    );
}

#[test]
fn empty_criterion_is_sent_as_empty_value() {
    let mut person = WikiTreeSearchPerson::default();
    person.FirstName = text("");
    let request = WikiTreeSearchPersonRequest::new(person);
    let url = search_person_url(&request).unwrap();
    assert_eq!(
        url,
        format!("https://api.wikitree.com/api.php?action=searchPerson&FirstName=&{}", FIELDS_QUERY)
    );
}

#[test]
fn gender_round_trips_for_male_and_female() {
    for gender in [Gender::Male, Gender::Female] {
        let sent = WikiTreeSearchPerson::from(empty_search(gender));
        let echoed = record(5, sent.Gender, 1);
        let answer = vec![WikiTreeSearchPersonResult { status: 0, matches: vec![echoed] }];
        let found = search_person(answer).unwrap();
        assert_eq!(found[0].gender(), gender);
    }
}

#[test]
fn record_gender_is_read_from_its_text() {
    assert_eq!(record(1, Some("male"), 0).gender(), Gender::Male);
    assert_eq!(record(1, Some("female"), 0).gender(), Gender::Female);
    assert_eq!(record(1, Some("nonbinary"), 0).gender(), Gender::Other);
    assert_eq!(record(1, Some(""), 0).gender(), Gender::Other);
    assert_eq!(record(1, Some("Male"), 0).gender(), Gender::Other);
    assert_eq!(record(1, None, 0).gender(), Gender::Unknown);
}

#[test]
fn record_is_living_unless_status_is_zero() {
    assert!(!record(1, None, 0).is_living());
    assert!(record(1, None, 1).is_living());
    assert!(record(1, None, 2).is_living());
    assert!(record(1, None, -1).is_living());
}

#[test]
fn record_accessors_return_the_fields() {
    let person = WikiTreePerson {
        Id: -42,
        FirstName: text("first"),
        MiddleName: text("middle"),
        LastNameAtBirth: text("birth"),
        LastNameCurrent: text("current"),
        Nicknames: text("nick"),
        LastNameOther: text("other"),
        RealName: text("real"),
        Prefix: text("prefix"),
        Suffix: text("suffix"),
        Gender: text("female"),
        BirthDate: text("born"),
        DeathDate: text("died"),
        BirthLocation: text("here"),
        DeathLocation: text("there"),
        IsLiving: 0,
    };
    assert_eq!(person.get_id(), "-42");
    assert_eq!(person.first_name(), &text("first"));
    assert_eq!(person.middle_name(), &text("middle"));
    assert_eq!(person.last_name_at_birth(), &text("birth"));
    assert_eq!(person.last_name_current(), &text("current"));
    assert_eq!(person.nicknames(), &text("nick"));
    assert_eq!(person.last_name_other(), &text("other"));
    assert_eq!(person.real_name(), &text("real"));
    assert_eq!(person.prefix(), &text("prefix"));
    assert_eq!(person.suffix(), &text("suffix"));
    assert_eq!(person.gender(), Gender::Female);
    assert_eq!(person.birth_date(), &text("born"));
    assert_eq!(person.death_date(), &text("died"));
    assert_eq!(person.birth_location(), &text("here"));
    assert_eq!(person.death_location(), &text("there"));
    assert!(!person.is_living());
}

#[test]
fn identifier_of_a_found_record_looks_it_up() {
    let importer = WikiTreeImporter::new();
    let answer =
        vec![WikiTreeSearchPersonResult { status: 0, matches: vec![record(30411, None, 1)] }];
    let found = importer.search_person(answer).unwrap();
    let id = found[0].get_id();
    assert_eq!(id, "30411");
    let url = importer.person_request(id.clone()).unwrap();
    assert_eq!(
        url,
        format!("https://api.wikitree.com/api.php?action=getPerson&key=30411&{}", FIELDS_QUERY)
    );
    let answer =
        vec![WikiTreeGetPersonResult { user_id: 30411, person: record(30411, None, 1), status: 0 }];
    let person = importer.get_person(answer).unwrap();
    assert_eq!(person.get_id(), id);
}

#[test]
fn lookup_of_negative_key() {
    let url = get_person_url(-7).unwrap();
    assert_eq!(
        url,
        format!("https://api.wikitree.com/api.php?action=getPerson&key=-7&{}", FIELDS_QUERY)
    );
    let params = WikiTreeGetPersonRequest::new(i64::MIN).to_params();
    assert_eq!(params, vec![pair("key", "-9223372036854775808"), pair("fields", PERSON_FIELDS)]);
}

#[test]
fn lookup_without_envelope_finds_no_match() {
    let importer = WikiTreeImporter::new();
    assert_eq!(importer.get_person(Vec::new()), Err(ImportError::NoMatchesError));
    assert_eq!(get_person(Vec::new()), Err(ImportError::NoMatchesError));
}

#[test]
fn lookup_takes_the_first_envelope() {
    let answer = vec![
        WikiTreeGetPersonResult { user_id: 1, person: record(1, None, 0), status: 0 },
        WikiTreeGetPersonResult { user_id: 2, person: record(2, None, 0), status: 0 },
    ];
    assert_eq!(get_person(answer), Ok(record(1, None, 0)));
}

#[test]
fn lookup_with_an_identifier_that_is_no_number() {
    let importer = WikiTreeImporter::new();
    for id in ["Winkel-1", "", "abc", "12 ", " 12", "1.5", "-", "+", "9223372036854775808", "١٢"] {
        assert_eq!(
            importer.person_request(String::from(id)),
            Err(ImportError::InvalidIdentifier(String::from(id)))
        );
    }
}

#[test]
fn lookup_with_a_signed_or_padded_identifier() {
    let importer = WikiTreeImporter::new();
    let plain = importer.person_request(String::from("12")).unwrap();
    assert_eq!(importer.person_request(String::from("+12")).unwrap(), plain);
    assert_eq!(importer.person_request(String::from("0012")).unwrap(), plain);
    assert_eq!(
        importer.person_request(String::from("-9223372036854775808")).unwrap(),
        get_person_url(i64::MIN).unwrap()
    );
    assert_eq!(
        importer.person_request(String::from("9223372036854775807")).unwrap(),
        get_person_url(i64::MAX).unwrap()
    );
}

#[test]
fn search_without_envelope_breaks_the_protocol() {
    let importer = WikiTreeImporter::new();
    assert_eq!(importer.search_person(Vec::new()), Err(ImportError::ProviderProtocolError));
    assert_eq!(search_person(Vec::new()), Err(ImportError::ProviderProtocolError));
}

#[test]
fn search_without_matches_is_a_success() {
    let answer = vec![WikiTreeSearchPersonResult { status: 0, matches: Vec::new() }];
    assert_eq!(search_person(answer), Ok(Vec::new()));
}

#[test]
fn search_takes_the_matches_of_the_first_envelope() {
    let answer = vec![
        WikiTreeSearchPersonResult {
            status: 0,
            matches: vec![record(1, None, 0), record(2, Some("male"), 1)],
        },
        WikiTreeSearchPersonResult { status: 0, matches: vec![record(3, None, 0)] },
    ];
    assert_eq!(search_person(answer), Ok(vec![record(1, None, 0), record(2, Some("male"), 1)]));
}

#[test]
fn url_encodes_names_and_values() {
    let params = vec![pair("Birth Location", "Zürich & Bern"), pair("a=b", "100%")];
    let url = construct_url("searchPerson", &params).unwrap();
    assert_eq!(
        url,
        "https://api.wikitree.com/api.php?action=searchPerson&Birth+Location=Z%C3%BCrich+%26+Bern&a%3Db=100%25"
    );
}

#[test]
fn url_without_parameters() {
    let url = construct_url("getPerson", &Vec::new()).unwrap();
    assert_eq!(url, "https://api.wikitree.com/api.php?action=getPerson&");
    assert!(url.starts_with(API_URL));
}

#[test]
fn url_of_a_refused_encoding_is_an_error() {
    let refused = serde_urlencoded::to_string(vec![vec![1, 2, 3]]).unwrap_err();
    assert_eq!(
        url_with_query("searchPerson", Err(refused.clone())),
        Err(ImportError::URLEncodeError(refused))
    );
    assert_eq!(
        url_with_query("searchPerson", Ok(String::from("a=b"))),
        Ok(String::from("https://api.wikitree.com/api.php?action=searchPerson&a=b"))
    );
}

#[test]
fn call_fails_on_status_500_with_url_and_status() {
    let url = "https://api.wikitree.com/api.php?action=getPerson&key=1";
    match call_api::<Vec<WikiTreeGetPersonResult>>(url, HttpEvent::Status(500)) {
        HttpStep::Done(Err(error)) => {
            assert_eq!(error, ImportError::HTTPStatusError(String::from(url), 500))
        }
        other => panic!("{:?}", other),
    }
}

#[test]
fn call_reads_the_body_after_a_success_status_only() {
    for status in [200u16, 201, 204, 299] {
        assert!(matches!(call_api::<u8>("u", HttpEvent::Status(status)), HttpStep::ReadBody));
    }
    for status in [0u16, 100, 199, 300, 301, 404, 500, 503, 65535] {
        match call_api::<u8>("u", HttpEvent::Status(status)) {
            HttpStep::Done(Err(error)) => {
                assert_eq!(error, ImportError::HTTPStatusError(String::from("u"), status))
            }
            other => panic!("{:?}", other),
        }
    }
}

#[test]
fn call_hands_on_faults_and_bodies() {
    match call_api::<u8>("u", HttpEvent::Fault(String::from("connection refused"))) {
        HttpStep::Done(Err(error)) => {
            assert_eq!(error, ImportError::HTTPError(String::from("connection refused")))
        }
        other => panic!("{:?}", other),
    }
    match call_api::<u8>("u", HttpEvent::Malformed(String::from("expected value"))) {
        HttpStep::Done(Err(error)) => {
            assert_eq!(error, ImportError::JsonError(String::from("expected value")))
        }
        other => panic!("{:?}", other),
    }
    match call_api::<u8>("u", HttpEvent::Decoded(7)) {
        HttpStep::Done(Ok(value)) => assert_eq!(value, 7),
        other => panic!("{:?}", other),
    }
}

#[test]
fn empty_input_field_is_no_criterion() {
    assert_eq!(val_as_opt(String::new()), None);
    assert_eq!(val_as_opt(String::from("Winkel")), text("Winkel"));
    assert_eq!(val_as_opt(String::from(" ")), text(" "));
}

#[test]
fn gender_is_unknown_by_default() {
    assert_eq!(Gender::default(), Gender::Unknown);
}

#[test]
fn search_new_keeps_every_criterion() {
    let search = Search::new(
        text("a"),
        None,
        text("c"),
        None,
        text("e"),
        None,
        Gender::Other,
        text("g"),
        None,
        text("i"),
        None,
    );
    assert_eq!(search.first_name, text("a"));
    assert_eq!(search.last_name, None);
    assert_eq!(search.birth_date, text("c"));
    assert_eq!(search.death_date, None);
    assert_eq!(search.birth_location, text("e"));
    assert_eq!(search.death_location, None);
    assert_eq!(search.gender, Gender::Other);
    assert_eq!(search.father_first_name, text("g"));
    assert_eq!(search.father_last_name, None);
    assert_eq!(search.mother_first_name, text("i"));
    assert_eq!(search.mother_last_name, None);
}
