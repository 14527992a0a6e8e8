use trait_link::client::ResponseError;
use trait_link::error::{call_name, nested_call_name, WrongResponseType};
use trait_link::parse::DefinitionError;

#[test]
fn new_appends_call_brackets() {
    let err = WrongResponseType::new("get_todo", "new_todo");
    assert_eq!(err.expected, "get_todo()");
    assert_eq!(err.actual, "new_todo()");
}

#[test]
fn new_with_empty_names() {
    let err = WrongResponseType::new("", "");
    assert_eq!(err.expected, "()");
    assert_eq!(err.actual, "()");
}

#[test]
fn in_subservice_extends_both_paths() {
    let err = WrongResponseType::new("users", "login").in_subservice("by_id");
    assert_eq!(err.expected, "users().by_id()");
    assert_eq!(err.actual, "login().by_id()");
}

#[test]
fn three_levels_give_three_names() {
    let err = WrongResponseType::new("users", "login").in_subservice("by_id").in_subservice(
        "update",
    );
    assert_eq!(err.expected, "users().by_id().update()");
    assert_eq!(err.actual, "login().by_id().update()");
    assert_eq!(err.expected.matches("()").count(), 3);
}

#[test]
fn call_names_are_exact() {
    assert_eq!(call_name("login"), "login()");
    assert_eq!(nested_call_name("users().current()", "get"), "users().current().get()");
    assert_eq!(nested_call_name("", ""), ".()");
}

#[test]
fn wrong_response_reads_as_a_sentence() {
    let err = WrongResponseType::new("get", "list");
    assert_eq!(
        err.message(),
        "Response was for the wrong method, sent a request for get(), but received the response for list()"
    );
}

#[test]
fn rejections_read_as_sentences() {
    assert_eq!(
        ResponseError::BadRequest("no such method".to_string()).message(),
        "Request was rejected: no such method"
    );
    assert_eq!(
        ResponseError::InternalServerError("boom".to_string()).message(),
        "Internal Server Error: boom"
    );
    assert_eq!(ResponseError::Unexpected.message(), "Unexpected response");
}

#[test]
fn definition_faults_read_as_sentences() {
    assert_eq!(
        DefinitionError::NotAFunction.message(),
        "Only fn items are permitted within linked traits"
    );
    assert_eq!(DefinitionError::DefaultBody.message(), "default fn is not supported");
    assert_eq!(DefinitionError::ConstFn.message(), "const fn is not supported");
    assert_eq!(DefinitionError::NotAsync.message(), "fn items must be async");
    assert_eq!(DefinitionError::UnsafeFn.message(), "unsafe fn is not supported");
    assert_eq!(DefinitionError::MultipleReceivers.message(), "cannot have multiple receivers");
    assert_eq!(DefinitionError::OwnedSelf.message(), "cannot take owned self value");
    assert_eq!(DefinitionError::MutableSelf.message(), "cannot take a mutable self reference");
    assert_eq!(
        DefinitionError::SmartPointerSelf.message(),
        "cannot use a smart pointer for self type, must use &Self"
    );
    assert_eq!(DefinitionError::MissingSelf.message(), "missing self");
    assert_eq!(
        DefinitionError::NestedBound.message(),
        "a nested service must be bound by exactly one service"
    );
    assert_eq!(
        DefinitionError::StreamItem.message(),
        "a stream must have exactly one item type"
    );
    assert_eq!(DefinitionError::DuplicateMethod.message(), "method names must be unique");
}
