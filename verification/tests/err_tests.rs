use laika::err::Supernova;
use laika::response::Code;

#[test]
fn test_supernova() {
    let mut sn = Supernova::boom("test");
    assert_eq!(sn.code(), Code::Unknown);

    sn.with_code(Code::BadRequest);
    assert_eq!(sn.code(), Code::BadRequest);

    assert_eq!(sn.message(), String::from("test"));
}

#[test]
fn with_code_returns_updated_copy() {
    let mut sn = Supernova::boom("lost");
    let copy = sn.with_code(Code::NotFound);
    assert_eq!(copy.code(), Code::NotFound);
    assert_eq!(copy.message(), "lost");
    assert_eq!(sn.code(), Code::NotFound);
}
