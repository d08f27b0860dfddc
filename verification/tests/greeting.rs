use splash_greeter::greeting::greet;

#[test]
fn greet_world() {
    assert_eq!(greet("World"), "Hello, World! You've been greeted from Rust!");
}

#[test]
fn greet_empty_name() {
    assert_eq!(greet(""), "Hello, ! You've been greeted from Rust!");
}

#[test]
fn greet_is_literal_concatenation() {
    let names = ["a", "World", "two words", "!?", "née Müller"];
    for name in names {
        let expected = format!("Hello, {}! You've been greeted from Rust!", name);
        assert_eq!(greet(name), expected);
    }
}

#[test]
fn greet_embeds_name_verbatim() {
    let got = greet("splashscreen");
    assert!(got.starts_with("Hello, "));
    assert!(got.ends_with("! You've been greeted from Rust!"));
    assert_eq!(&got[7..7 + "splashscreen".len()], "splashscreen");
}
