use noir_playground::response::eval_output;

#[test]
fn plain_text_passes_through() {
    let r = eval_output(String::from("Constraint system solved"), String::new());
    assert_eq!(r.stdout, "Constraint system solved");
    assert_eq!(r.stderr, "");
}

#[test]
fn ansi_colours_become_html() {
    let coloured = "\u{1b}[31merror\u{1b}[0m: something";
    let expected = ansi_to_html::convert(coloured).unwrap();
    let r = eval_output(String::new(), String::from(coloured));
    assert_eq!(r.stderr, expected);
    assert_ne!(r.stderr, coloured);
    assert!(r.stderr.contains("<span"));
    assert!(!r.stderr.contains('\u{1b}'));
}

#[test]
fn html_metacharacters_are_escaped() {
    let r = eval_output(String::from("a < b && c > d"), String::new());
    assert_eq!(r.stdout, ansi_to_html::convert("a < b && c > d").unwrap());
    assert!(r.stdout.contains("&lt;"));
}
