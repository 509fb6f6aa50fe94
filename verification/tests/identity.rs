use error::AbstractError;
use error::Error;
use error::Identity;

#[derive(Debug, PartialEq)]
pub struct ParseError {
    location: usize,
}

impl AbstractError for ParseError {
    fn name(&self) -> String {
        String::from("ParseError")
    }
}

#[derive(Debug, PartialEq)]
pub struct NetworkError {
    code: u32,
}

impl AbstractError for NetworkError {
    fn name(&self) -> String {
        String::from("NetworkError")
    }
}

#[test]
fn identity_of_a_type_is_stable() {
    let first = Identity::of::<ParseError>();
    let second = Identity::of::<ParseError>();
    assert!(first.same(&second));
    assert!(second.same(&first));
}

#[test]
fn identities_of_distinct_types_differ() {
    let parse = Identity::of::<ParseError>();
    let network = Identity::of::<NetworkError>();
    assert!(!parse.same(&network));
    assert!(!network.same(&parse));
    assert!(!parse.same(&Identity::of::<String>()));
}

#[test]
fn identity_of_a_value_is_that_of_its_type() {
    let parse = Identity::of::<ParseError>();
    assert!(Identity::of_value(&ParseError { location: 7 }).same(&parse));
    assert!(Identity::of_value(&ParseError { location: 0 }).same(&parse));
    assert!(!Identity::of_value(&NetworkError { code: 3 }).same(&parse));
}

#[test]
fn handle_bears_the_identity_of_what_it_wraps() {
    let handle = Error::wrap(NetworkError { code: 404 });
    assert!(handle.identity().same(&Identity::of::<NetworkError>()));
    assert!(!handle.identity().same(&Identity::of::<ParseError>()));
}

#[test]
fn tokens_compare_with_the_equality_operator() {
    let parse = Identity::of::<ParseError>();
    let copy = parse;
    assert_eq!(parse, copy);
    assert_eq!(parse, Identity::of_value(&ParseError { location: 1 }));
    assert_ne!(parse, Identity::of::<NetworkError>());
    assert!(Error::wrap(ParseError { location: 7 }).identity() == parse);
}
