use error::match_error;
use error::AbstractError;
use error::Error;

#[derive(Debug, PartialEq)]
pub struct ParseError {
    location: usize,
}

impl AbstractError for ParseError {
    fn name(&self) -> String {
        String::from("ParseError")
    }

    fn description(&self) -> Option<String> {
        Some(String::from("Parse Error"))
    }
}

#[derive(Debug, PartialEq)]
pub struct NetworkError {
    code: u32,
}

impl AbstractError for NetworkError {
    fn name(&self) -> String {
        String::from("NetworkError")
    }
}

fn produce_parse_error() -> Box<Error> {
    Box::new(Error::wrap(ParseError { location: 7 }))
}

fn generic_handler(raw: Box<Error>) {
    match_error(&raw)
        .arm(|parse: &ParseError| assert_eq!(*parse, ParseError { location: 7 }))
        .finish()
        .unwrap()
}

fn generic_handler_with_two_arms(raw: Box<Error>) {
    match_error(&raw)
        .arm(|network: &NetworkError| panic!("the arm for {:?} ran", network))
        .arm(|parse: &ParseError| assert_eq!(*parse, ParseError { location: 7 }))
        .finish()
        .unwrap()
}

#[test]
fn test_generic() {
    generic_handler(produce_parse_error())
}

#[test]
fn test_generic_skips_the_arm_of_another_type() {
    generic_handler_with_two_arms(produce_parse_error())
}
