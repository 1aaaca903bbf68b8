use githop::text::{chars_of, contains, line_ranges, push_decimal, to_lowercase, trim_range};

#[test]
fn decimal_rendering() {
    let mut s = String::from("n=");
    push_decimal(&mut s, 0);
    assert_eq!(s, "n=0");
    let mut s = String::new();
    push_decimal(&mut s, 1_000_200);
    assert_eq!(s, "1000200");
}

#[test]
fn trimming_and_lines() {
    let v = chars_of("\t a b \u{2003}");
    let (a, b) = trim_range(&v, 0, v.len());
    assert_eq!(v[a..b].iter().collect::<String>(), "a b");
    let v = chars_of("x\r\ny\n\nz");
    let r = line_ranges(&v);
    let lines: Vec<String> = r.iter().map(|&(a, b)| v[a..b].iter().collect()).collect();
    assert_eq!(lines, vec!["x", "y", "", "z"]);
}

#[test]
fn substring_search() {
    assert!(contains(&chars_of("feature-a"), &chars_of("ure")));
    assert!(contains(&chars_of("abc"), &chars_of("")));
    assert!(!contains(&chars_of("ab"), &chars_of("abc")));
    assert!(!contains(&chars_of("feature"), &chars_of("fx")));
}

#[test]
fn lowercase_changes_case() {
    assert_eq!(to_lowercase("MaIN-Ä"), "main-ä");
}

#[test]
fn lowercase_is_empty_exactly_for_empty_input() {
    assert_eq!(to_lowercase(""), "");
    assert!(!to_lowercase("\u{130}").is_empty());
}
