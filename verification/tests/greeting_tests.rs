use simple_web_server::greeting::greeting;

#[test]
fn greets_by_name() {
    assert_eq!(greeting(Some("Ann")), "Hello, Ann!");
}

#[test]
fn greets_without_a_name() {
    assert_eq!(greeting(None), "Hello!");
}

#[test]
fn greets_an_empty_name_as_given() {
    assert_eq!(greeting(Some("")), "Hello, !");
}

#[test]
fn greets_a_name_as_it_came() {
    assert_eq!(greeting(Some(" Zoë, the 2nd ")), "Hello,  Zoë, the 2nd !");
}
