use kv::catch_specified_error::{
    Animal, AnotherError, Error, ErrorSource, NotFoundError, People, TestError,
};

fn custom_error(_: NotFoundError) -> Result<String, Error> {
    Ok("捕获".into())
}

fn uncustom_error(_: AnotherError) -> Result<String, Error> {
    Ok("捕获".into())
}

fn fails(_: NotFoundError) -> Result<String, Error> {
    Err(Error::from_kind(AnotherError))
}

#[test]
fn test_catch_specified_error() {
    let c = People::new().catch_error(custom_error);
    assert_eq!(c.name().unwrap(), "捕获");
}

#[test]
fn test_uncatch_error() {
    let c = People::new().catch_error(uncustom_error);
    let result = c.name();
    assert_eq!(result.err().unwrap().is::<NotFoundError>(), true);
}

#[test]
fn error_downcast_takes_the_held_kind_only() {
    let e = Error::from_kind(NotFoundError);
    assert!(e.is::<NotFoundError>());
    assert!(!e.is::<AnotherError>());
    assert_eq!(e.downcast_ref::<NotFoundError>(), Some(&NotFoundError));
    assert_eq!(e.downcast_ref::<AnotherError>(), None);
    let back = e.downcast::<AnotherError>().unwrap_err();
    assert_eq!(back, e);
    assert_eq!(back.downcast::<NotFoundError>(), Ok(NotFoundError));
}

#[test]
fn error_messages() {
    assert_eq!(NotFoundError.msg(), "Not Found Error");
    assert_eq!(AnotherError.msg(), "Another");
    assert_eq!(AnotherError.wrap(), ErrorSource::Another(AnotherError));
}

#[test]
fn catch_error_handler_failure_is_returned() {
    let c = People::new().catch_error(fails);
    assert!(c.name().unwrap_err().is::<AnotherError>());
}

#[test]
fn error_from_kind_and_from_agree() {
    assert_eq!(Error::from(AnotherError), Error::from_kind(AnotherError));
    assert!(Error::from(NotFoundError).is::<NotFoundError>());
    let people = People::new();
    let by_ref = &people;
    assert!(by_ref.name().unwrap_err().is::<NotFoundError>());
}
