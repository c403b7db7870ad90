use nodara::cli::proposal_number;

#[test]
fn proposal_number_is_the_combined_length() {
    assert_eq!(proposal_number("Raise fee", "fee", "10"), 14);
    assert_eq!(proposal_number("", "", ""), 0);
    assert_eq!(format!("PROPOSAL_{}", proposal_number("é", "a", "")), "PROPOSAL_3");
}
