use restful_image::app::places::{
    show_places, to_signed, CreatePlace, GetPlacesQuery, Listing, PlaceResponse,
};
use restful_image::models::place::Place;
use restful_image::models::user::Timestamp;
use restful_image::result::{
    Error, ErrorKind, FieldIssue, IssueKind, Param, Reply, StorageFailure,
};
use restful_image::util::jwt::Claims;

fn place(name: &str) -> Place {
    let at = Timestamp { seconds: 1, nanos: 2 };
    Place {
        id: 9,
        name: String::from(name),
        info: format!("about {}", name),
        created_by: 7,
        created_at: at,
        updated_at: at,
    }
}

#[test]
fn storage_failures_map_to_outcomes() {
    assert!(matches!(Error::from_storage(StorageFailure::NotFound), Error::NotFound));
    assert!(matches!(Error::from_storage(StorageFailure::UniqueViolation), Error::AlreadyExists));
    assert!(matches!(Error::from_storage(StorageFailure::Other), Error::Internal));
}

#[test]
fn outcomes_map_to_replies() {
    let in_body = Reply { status: 200, with_body: true };
    assert_eq!(Error::AlreadyExists.error_response(), in_body);
    assert_eq!(Error::NotFound.error_response(), in_body);
    assert_eq!(Error::FieldValidation(Vec::new()).error_response(), in_body);
    assert_eq!(Error::Authorization.error_response(), in_body);
    assert_eq!(Error::Internal.error_response(), Reply { status: 500, with_body: false });
    assert_eq!(Error::NotImplemented.error_response(), Reply { status: 501, with_body: false });
}

#[test]
fn kinds_have_names() {
    assert_eq!(Error::AlreadyExists.kind().name(), "already_exists");
    assert_eq!(Error::NotFound.kind().name(), "not_found");
    assert_eq!(Error::FieldValidation(Vec::new()).kind().name(), "field_validation");
    assert_eq!(Error::Authorization.kind().name(), "authorization");
    assert_eq!(Error::Internal.kind().name(), "internal");
    assert_eq!(Error::NotImplemented.kind().name(), "not_implemented");
    assert_eq!(ErrorKind::AlreadyExists.describe(), "Entity already exists");
    assert_eq!(ErrorKind::NotFound.describe(), "Entity not found");
    assert_eq!(ErrorKind::FieldValidation.describe(), "Validation error");
    assert_eq!(ErrorKind::Authorization.describe(), "Authorization error");
    assert_eq!(ErrorKind::Internal.describe(), "Internal server error");
    assert_eq!(ErrorKind::NotImplemented.describe(), "Not Implemented");
}

#[test]
fn validation_report_keeps_field_entries_in_order() {
    let issue = |code: &str| FieldIssue {
        code: String::from(code),
        message: None,
        params: vec![(String::from("min"), Param::Number(1))],
    };
    let report = vec![
        (String::from("a"), IssueKind::Field(vec![issue("length")])),
        (String::from("b"), IssueKind::Struct),
        (String::from("c"), IssueKind::Field(vec![issue("email"), issue("length")])),
        (String::from("d"), IssueKind::List),
        (String::from("e"), IssueKind::Field(Vec::new())),
    ];
    match Error::from_validation(report) {
        Error::FieldValidation(entries) => {
            let shape: Vec<(&str, Vec<&str>)> = entries
                .iter()
                .map(|e| (e.0.as_str(), e.1.iter().map(|i| i.code.as_str()).collect()))
                .collect();
            assert_eq!(
                shape,
                vec![("a", vec!["length"]), ("c", vec!["email", "length"]), ("e", vec![])]
            );
            assert!(matches!(entries[0].1[0].params[0], (ref n, Param::Number(1)) if n == "min"));
        }
        other => panic!("unexpected {:?}", other),
    }
    assert!(matches!(
        Error::from_validation(Vec::new()),
        Error::FieldValidation(entries) if entries.is_empty()
    ));
}

#[test]
fn listing_limit_replaces_offset() {
    let query = |offset, limit| GetPlacesQuery { offset, limit };
    assert_eq!(query(None, None).listing(), Listing::From(0));
    assert_eq!(query(Some(5), None).listing(), Listing::From(5));
    assert_eq!(query(Some(5), Some(10)).listing(), Listing::First(10));
    assert_eq!(query(None, Some(0)).listing(), Listing::First(0));
}

#[test]
fn counts_wrap_to_signed() {
    assert_eq!(to_signed(0), 0);
    assert_eq!(to_signed(42), 42);
    if usize::BITS == 64 {
        assert_eq!(to_signed(i64::MAX as usize), i64::MAX);
        assert_eq!(to_signed(i64::MAX as usize + 1), i64::MIN);
        assert_eq!(to_signed(usize::MAX), -1);
    }
}

#[test]
fn places_are_shown_in_order() {
    let shown = show_places(vec![place("x"), place("y"), place("z")]);
    let names: Vec<(&str, &str)> =
        shown.iter().map(|p| (p.name.as_str(), p.info.as_str())).collect();
    assert_eq!(names, vec![("x", "about x"), ("y", "about y"), ("z", "about z")]);
    assert!(show_places(Vec::new()).is_empty());
    let one = PlaceResponse::from(place("w"));
    assert_eq!((one.name.as_str(), one.info.as_str()), ("w", "about w"));
}

#[test]
fn new_place_belongs_to_the_caller() {
    let form = CreatePlace { name: String::from("pier"), info: String::from("windy") };
    let new_place = form.into_new_place(Claims { id: 77, exp: 5 });
    assert_eq!(new_place.name, "pier");
    assert_eq!(new_place.info, "windy");
    assert_eq!(new_place.created_by, 77);
}
