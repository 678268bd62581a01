use masterpiece::text::{labelled, push_decimal};

#[test]
fn decimal_counters() {
    assert_eq!(labelled("Score: ", 0), "Score: 0");
    assert_eq!(labelled("Score: ", 7), "Score: 7");
    assert_eq!(labelled("Tabs: ", 120), "Tabs: 120");
    assert_eq!(labelled("", 4_294_967_295), "4294967295");
    assert_eq!(labelled("x", 1_000_000), "x1000000");
}

#[test]
fn push_decimal_appends() {
    let mut s = String::from("Bob: ");
    push_decimal(&mut s, 305);
    assert_eq!(s, "Bob: 305");
}
