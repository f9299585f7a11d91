//! The DOI pattern used by the built-in rules.

use regex::Regex;

#[test]
fn test_doi_regex() {
    let pattern = r"\b10\.\d{4,9}/[-._;()/:a-zA-Z0-9]+";
    let re = Regex::new(pattern).unwrap();

    let test_cases = vec![
        "10.1093/bioinformatics/btaa1016",
        "10.1000/xyz123",
        "10.1234/test-123",
    ];

    for test in test_cases {
        assert!(re.is_match(test), "Failed to match: {}", test);
    }

    let negative_cases = vec![
        "abc10.1093/bioinformatics/btaa1016",
        "10.109/bioinformatics/btaa1016",
    ];

    for test in negative_cases {
        assert!(!re.is_match(test), "Should not match: {}", test);
    }
}
