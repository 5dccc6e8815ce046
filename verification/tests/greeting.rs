use xeta::hello;

#[test]
fn greets() {
    assert_eq!(hello(), "Welcome to XETA");
}
