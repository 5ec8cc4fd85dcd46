use desktop_shell::greet;

#[test]
fn greet_empty_name() {
    assert_eq!(greet(""), "Hello, !");
}

#[test]
fn greet_world() {
    assert_eq!(greet("World"), "Hello, World!");
}

#[test]
fn greet_keeps_the_name_as_given() {
    assert_eq!(greet("Ada Lovelace"), "Hello, Ada Lovelace!");
    assert_eq!(greet("  padded  "), "Hello,   padded  !");
    assert_eq!(greet("{}"), "Hello, {}!");
    assert_eq!(greet("a\nb"), "Hello, a\nb!");
    assert_eq!(greet("世界"), "Hello, 世界!");
    assert_eq!(greet("Hello, World!"), "Hello, Hello, World!!");
}

#[test]
fn greet_adds_eight_characters() {
    assert_eq!(greet("").chars().count(), 8);
    assert_eq!(greet("World").chars().count(), 13);
    assert_eq!(greet("世界").chars().count(), 10);
}

#[test]
fn greet_accepts_a_long_name() {
    let name = "x".repeat(100_000);
    let greeting = greet(&name);
    assert_eq!(greeting.len(), 100_008);
    assert!(greeting.starts_with("Hello, "));
    assert!(greeting.ends_with('!'));
    assert_eq!(&greeting[7..100_007], name);
}

#[test]
fn greet_gives_the_same_answer_each_time() {
    let first = greet("World");
    let second = greet("World");
    assert_eq!(first, second);
    assert_eq!(second, "Hello, World!");
}

#[test]
fn greet_tells_names_apart() {
    assert_ne!(greet("World"), greet("world"));
    assert_ne!(greet(""), greet(" "));
    assert_ne!(greet("a"), greet("a!"));
}

#[test]
fn greet_interleaved_callers_do_not_interfere() {
    let names = ["Ada", "", "World", "世界", "Grace"];
    let mut first_round = Vec::new();
    for name in names {
        first_round.push(greet(name));
    }
    let mut second_round = Vec::new();
    for name in names.iter().rev() {
        second_round.push(greet(name));
    }
    second_round.reverse();
    assert_eq!(first_round, second_round);
    assert_eq!(
        first_round,
        vec!["Hello, Ada!", "Hello, !", "Hello, World!", "Hello, 世界!", "Hello, Grace!"]
    );
}
