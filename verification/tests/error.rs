use duplicity_front::error::Error;

#[test]
fn error_keeps_its_description() {
    let e = Error::new("something went wrong");
    assert_eq!(e.description(), "something went wrong");
}
