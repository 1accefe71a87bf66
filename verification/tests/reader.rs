use psc::calendar::CalendarDate;
use psc::decode::ParseError;
use psc::json::{parse, Json};
use psc::reader::{append_line, parse_line, read_json_lines_to_vec, LineError};
use psc::record::{Address, Company, Data, Identification, Links};

const FULL_LINE: &str = "{\"company_number\":\"09145694\",\"data\":{\"address\":{\"address_line_1\":\"2 High Street\",\"address_line_2\":\"Old Town\",\"country\":\"England\",\"locality\":\"Leeds\",\"postal_code\":\"LS1 1AA\",\"premises\":\"Unit 4\"},\"etag\":\"8d1b4a0e\",\"identification\":{\"country_registered\":\"England\",\"legal_authority\":\"Companies Act 2006\",\"legal_form\":\"Private Limited Company\",\"place_registered\":\"Companies House\",\"registration_number\":\"01234567\"},\"kind\":\"corporate-entity-person-with-significant-control\",\"links\":{\"self\":\"/company/09145694/persons-with-significant-control/corporate-entity/abc\"},\"name\":\"Holding & Co, \\\"The\\\" Ltd\",\"natures_of_control\":[\"ownership-of-shares-75-to-100-percent\",\"voting-rights-75-to-100-percent\"],\"notified_on\":\"2016-04-06\"}}";

fn some(text: &str) -> Option<String> {
    Some(text.to_string())
}

fn full_company() -> Company {
    Company {
        company_number: "09145694".to_string(),
        data: Data {
            address: Some(Address {
                address_line_1: some("2 High Street"),
                address_line_2: some("Old Town"),
                country: some("England"),
                locality: some("Leeds"),
                postal_code: some("LS1 1AA"),
                premises: some("Unit 4"),
            }),
            etag: some("8d1b4a0e"),
            identification: Some(Identification {
                country_registered: some("England"),
                legal_authority: some("Companies Act 2006"),
                legal_form: some("Private Limited Company"),
                place_registered: some("Companies House"),
                registration_number: some("01234567"),
            }),
            kind: some("corporate-entity-person-with-significant-control"),
            links: Some(Links {
                self_: some("/company/09145694/persons-with-significant-control/corporate-entity/abc"),
            }),
            name: some("Holding & Co, \"The\" Ltd"),
            natures_of_control: Some(vec![
                "ownership-of-shares-75-to-100-percent".to_string(),
                "voting-rights-75-to-100-percent".to_string(),
            ]),
            notified_on: CalendarDate::new(2016, 4, 6),
        },
    }
}

#[test]
fn parsed_record_has_what_the_line_gives_and_nothing_else() {
    let line = "{\"company_number\":\"OC12345\",\"data\":{\"name\":\"Acme Ltd\",\"address\":{\"address_line_1\":\"1 Main St\"}}}";
    let company = parse_line(line).expect("the line is a record");
    assert_eq!(company.company_number, "OC12345");
    assert_eq!(company.data.name, Some("Acme Ltd".to_string()));
    let address = company.data.address.clone().expect("the address is there");
    assert_eq!(address.address_line_1, Some("1 Main St".to_string()));
    assert_eq!(address.address_line_2, None);
    assert_eq!(address.country, None);
    assert_eq!(address.locality, None);
    assert_eq!(address.postal_code, None);
    assert_eq!(address.premises, None);
    assert_eq!(company.data.etag, None);
    assert_eq!(company.data.identification, None);
    assert_eq!(company.data.kind, None);
    assert_eq!(company.data.links, None);
    assert_eq!(company.data.natures_of_control, None);
    assert_eq!(company.data.notified_on, None);
}

#[test]
fn line_with_every_field_is_read_in_full() {
    assert_eq!(parse_line(FULL_LINE), Ok(full_company()));
}

#[test]
fn line_with_only_the_company_number_is_a_record() {
    let company = parse_line("{\"company_number\":\"SC000001\"}").expect("the line is a record");
    assert_eq!(company, Company { company_number: "SC000001".to_string(), data: Data::unknown() });
    assert_eq!(company.data.address, None);
    assert_eq!(company.data.notified_on, None);
}

#[test]
fn data_that_is_null_or_empty_is_unknown() {
    let unknown = Company { company_number: "1".to_string(), data: Data::unknown() };
    assert_eq!(parse_line("{\"company_number\":\"1\",\"data\":null}"), Ok(unknown.clone()));
    assert_eq!(parse_line("{\"company_number\":\"1\",\"data\":{}}"), Ok(unknown));
}

#[test]
fn member_that_is_null_is_unknown() {
    let company = parse_line(
        "{\"company_number\":\"1\",\"data\":{\"etag\":null,\"address\":null,\"natures_of_control\":null,\"notified_on\":null,\"links\":{\"self\":null}}}",
    )
    .expect("the line is a record");
    assert_eq!(company.data.etag, None);
    assert_eq!(company.data.address, None);
    assert_eq!(company.data.natures_of_control, None);
    assert_eq!(company.data.notified_on, None);
    assert_eq!(company.data.links, Some(Links { self_: None }));
}

#[test]
fn members_that_the_record_does_not_name_are_passed_over() {
    let company = parse_line(
        "{\"extra\":[1,2],\"company_number\":\"1\",\"data\":{\"ceased_on\":\"2020-01-01\",\"name\":\"N\",\"address\":{\"region\":\"Kent\"}}}",
    )
    .expect("the line is a record");
    assert_eq!(company.data.name, Some("N".to_string()));
    assert_eq!(
        company.data.address,
        Some(Address {
            address_line_1: None,
            address_line_2: None,
            country: None,
            locality: None,
            postal_code: None,
            premises: None,
        })
    );
}

#[test]
fn white_space_around_the_line_is_cut_off() {
    let bare = parse_line("{\"company_number\":\"1\"}");
    assert!(bare.is_ok());
    assert_eq!(parse_line("  {\"company_number\":\"1\"} \r\n"), bare);
    assert_eq!(parse_line("\u{a0}\t{\"company_number\":\"1\"}\u{2003}"), bare);
}

#[test]
fn line_that_is_no_json_is_malformed() {
    assert_eq!(parse_line(""), Err(ParseError::Malformed));
    assert_eq!(parse_line("   "), Err(ParseError::Malformed));
    assert_eq!(parse_line("{\"company_number\":"), Err(ParseError::Malformed));
    assert_eq!(parse_line("{\"company_number\":\"1\"} {}"), Err(ParseError::Malformed));
    assert_eq!(parse_line("company_number=1"), Err(ParseError::Malformed));
}

#[test]
fn record_without_company_number_is_refused() {
    assert_eq!(parse_line("{}"), Err(ParseError::MissingCompanyNumber));
    assert_eq!(parse_line("{\"data\":{\"name\":\"Acme Ltd\"}}"), Err(ParseError::MissingCompanyNumber));
    assert_eq!(parse_line("{\"data\":7}"), Err(ParseError::MissingCompanyNumber));
}

#[test]
fn document_that_is_no_object_is_a_type_mismatch() {
    assert_eq!(parse_line("[]"), Err(ParseError::TypeMismatch));
    assert_eq!(parse_line("\"OC12345\""), Err(ParseError::TypeMismatch));
    assert_eq!(parse_line("12"), Err(ParseError::TypeMismatch));
    assert_eq!(parse_line("null"), Err(ParseError::TypeMismatch));
}

#[test]
fn member_of_another_type_is_a_type_mismatch() {
    let lines = [
        "{\"company_number\":12345}",
        "{\"company_number\":null}",
        "{\"company_number\":\"1\",\"data\":[]}",
        "{\"company_number\":\"1\",\"data\":\"x\"}",
        "{\"company_number\":\"1\",\"data\":{\"etag\":5}}",
        "{\"company_number\":\"1\",\"data\":{\"kind\":true}}",
        "{\"company_number\":\"1\",\"data\":{\"name\":[\"a\"]}}",
        "{\"company_number\":\"1\",\"data\":{\"address\":\"1 Main St\"}}",
        "{\"company_number\":\"1\",\"data\":{\"address\":{\"country\":1}}}",
        "{\"company_number\":\"1\",\"data\":{\"identification\":[]}}",
        "{\"company_number\":\"1\",\"data\":{\"identification\":{\"legal_form\":{}}}}",
        "{\"company_number\":\"1\",\"data\":{\"links\":\"/x\"}}",
        "{\"company_number\":\"1\",\"data\":{\"links\":{\"self\":0}}}",
        "{\"company_number\":\"1\",\"data\":{\"natures_of_control\":\"a|b\"}}",
        "{\"company_number\":\"1\",\"data\":{\"natures_of_control\":[\"a\",2]}}",
        "{\"company_number\":\"1\",\"data\":{\"natures_of_control\":[null]}}",
        "{\"company_number\":\"1\",\"data\":{\"notified_on\":20160406}}",
    ];
    for line in lines {
        assert_eq!(parse_line(line), Err(ParseError::TypeMismatch), "{line}");
    }
}

#[test]
fn date_that_does_not_exist_is_a_type_mismatch() {
    assert_eq!(
        parse_line("{\"company_number\":\"1\",\"data\":{\"notified_on\":\"2016-02-30\"}}"),
        Err(ParseError::TypeMismatch)
    );
    assert_eq!(
        parse_line("{\"company_number\":\"1\",\"data\":{\"notified_on\":\"yesterday\"}}"),
        Err(ParseError::TypeMismatch)
    );
    assert_eq!(
        parse_line("{\"company_number\":\"1\",\"data\":{\"notified_on\":\"\"}}"),
        Err(ParseError::TypeMismatch)
    );
}

#[test]
fn missing_company_number_is_told_before_a_type_mismatch() {
    assert_eq!(parse_line("{\"data\":{\"etag\":5}}"), Err(ParseError::MissingCompanyNumber));
}

#[test]
fn natures_of_control_keep_their_order() {
    let company = parse_line("{\"company_number\":\"1\",\"data\":{\"natures_of_control\":[\"b\",\"a\",\"c\",\"a\"]}}")
        .expect("the line is a record");
    assert_eq!(
        company.data.natures_of_control,
        Some(vec!["b".to_string(), "a".to_string(), "c".to_string(), "a".to_string()])
    );
    let none = parse_line("{\"company_number\":\"1\",\"data\":{\"natures_of_control\":[]}}")
        .expect("the line is a record");
    assert_eq!(none.data.natures_of_control, Some(Vec::new()));
}

#[test]
fn from_json_reads_a_document_written_by_hand() {
    let document = Json::Object(vec![
        ("data".to_string(), Json::Object(vec![("etag".to_string(), Json::Text("e".to_string()))])),
        ("company_number".to_string(), Json::Text("77".to_string())),
    ]);
    let company = Company::from_json(&document).expect("the document is a record");
    assert_eq!(company.company_number, "77");
    assert_eq!(company.data.etag, Some("e".to_string()));
    assert_eq!(Data::from_json(&Json::Object(Vec::new())), Ok(Data::unknown()));
    assert_eq!(Data::from_json(&Json::Null), Err(ParseError::TypeMismatch));
    assert_eq!(Address::from_json(&Json::Array(Vec::new())), Err(ParseError::TypeMismatch));
    assert_eq!(Identification::from_json(&Json::Bool(true)), Err(ParseError::TypeMismatch));
    assert_eq!(Links::from_json(&Json::Object(Vec::new())), Ok(Links { self_: None }));
}

#[test]
fn from_json_takes_the_first_of_two_members_of_one_name() {
    let document = Json::Object(vec![
        ("company_number".to_string(), Json::Text("first".to_string())),
        ("company_number".to_string(), Json::Number("2".to_string())),
    ]);
    let company = Company::from_json(&document).expect("the first member is a text");
    assert_eq!(company.company_number, "first");
}

#[test]
fn from_json_agrees_with_parse_line() {
    let document = parse(FULL_LINE).expect("the line is JSON");
    assert_eq!(Company::from_json(&document), parse_line(FULL_LINE));
}

#[test]
fn records_come_in_the_order_of_the_lines() {
    let lines = vec![
        "{\"company_number\":\"3\"}".to_string(),
        "{\"company_number\":\"1\"}".to_string(),
        "{\"company_number\":\"2\"}".to_string(),
        "{\"company_number\":\"1\"}".to_string(),
    ];
    let records = read_json_lines_to_vec(&lines).expect("every line is a record");
    let numbers: Vec<&str> = records.iter().map(|r| r.company_number.as_str()).collect();
    assert_eq!(numbers, vec!["3", "1", "2", "1"]);
}

#[test]
fn no_lines_give_no_records() {
    assert_eq!(read_json_lines_to_vec(&Vec::new()), Ok(Vec::new()));
}

#[test]
fn first_line_that_is_no_record_ends_the_reading() {
    let lines = vec![
        "{\"company_number\":\"1\"}".to_string(),
        "{\"company_number\":2}".to_string(),
        "not json".to_string(),
    ];
    assert_eq!(
        read_json_lines_to_vec(&lines),
        Err(LineError { line: 1, error: ParseError::TypeMismatch })
    );
    let blank_last = vec!["{\"company_number\":\"1\"}".to_string(), String::new()];
    assert_eq!(
        read_json_lines_to_vec(&blank_last),
        Err(LineError { line: 1, error: ParseError::Malformed })
    );
    let first_bad = vec!["{}".to_string(), "{\"company_number\":\"1\"}".to_string()];
    assert_eq!(
        read_json_lines_to_vec(&first_bad),
        Err(LineError { line: 0, error: ParseError::MissingCompanyNumber })
    );
}

#[test]
fn appended_line_stands_behind_the_records_read_before() {
    let mut records = Vec::new();
    assert_eq!(append_line(&mut records, "{\"company_number\":\"2\"}"), Ok(()));
    assert_eq!(append_line(&mut records, " {\"company_number\":\"1\"} "), Ok(()));
    assert_eq!(append_line(&mut records, FULL_LINE), Ok(()));
    assert_eq!(records.len(), 3);
    assert_eq!(records[0].company_number, "2");
    assert_eq!(records[1].company_number, "1");
    assert_eq!(records[2], full_company());
}

#[test]
fn line_that_is_no_record_leaves_the_records_as_they_are() {
    let mut records = Vec::new();
    assert_eq!(
        append_line(&mut records, "{}"),
        Err(LineError { line: 0, error: ParseError::MissingCompanyNumber })
    );
    assert!(records.is_empty());
    assert_eq!(append_line(&mut records, "{\"company_number\":\"1\"}"), Ok(()));
    assert_eq!(append_line(&mut records, "{\"company_number\":\"2\"}"), Ok(()));
    let before = records.clone();
    assert_eq!(
        append_line(&mut records, "not json"),
        Err(LineError { line: 2, error: ParseError::Malformed })
    );
    assert_eq!(
        append_line(&mut records, "{\"company_number\":3}"),
        Err(LineError { line: 2, error: ParseError::TypeMismatch })
    );
    assert_eq!(records, before);
}

#[test]
fn lines_appended_one_by_one_give_what_all_lines_give() {
    let lines = vec![
        FULL_LINE.to_string(),
        "{\"company_number\":\"1\"}".to_string(),
        "{\"company_number\":\"2\",\"data\":{\"kind\":\"k\"}}".to_string(),
    ];
    let mut records = Vec::new();
    for line in &lines {
        assert_eq!(append_line(&mut records, line), Ok(()));
    }
    assert_eq!(Ok(records), read_json_lines_to_vec(&lines));
}
