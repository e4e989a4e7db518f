use gitflow::authors::{co_authors_from_log, current_author, format_co_authors, parse_commit_log};

#[test]
fn format_no_co_authors() {
    assert_eq!(format_co_authors(&[]), "");
}

#[test]
fn format_two_co_authors() {
    let authors = vec!["Ann <ann@x.org>".to_string(), "Bob <bob@x.org>".to_string()];
    assert_eq!(
        format_co_authors(&authors),
        "\n\nCo-authored-by: Ann <ann@x.org>\nCo-authored-by: Bob <bob@x.org>"
    );
}

#[test]
fn current_author_is_trimmed() {
    assert_eq!(current_author(" Ann \n", "ann@x.org\n"), "Ann <ann@x.org>");
}

#[test]
fn co_authors_unique_without_me() {
    let log = "Bob <b@x>\nAnn <a@x>\n  Bob <b@x>  \n\nMe <m@x>\nCid <c@x>\n";
    assert_eq!(
        co_authors_from_log(log, "Me <m@x>"),
        vec!["Bob <b@x>", "Ann <a@x>", "Cid <c@x>"]
    );
}

#[test]
fn co_authors_of_empty_log() {
    assert!(co_authors_from_log("", "Me <m@x>").is_empty());
}

#[test]
fn commits_oldest_first() {
    let log = "0123456789abcdef|Second change|Ann <a@x>\n\nbad line\nfedcba9876543210|First | change|Bob <b@x>\n";
    let commits = parse_commit_log(log);
    assert_eq!(commits.len(), 2);
    assert_eq!(commits[0].hash, "fedcba98");
    assert_eq!(commits[0].message, "First ");
    assert_eq!(commits[0].author, " change|Bob <b@x>");
    assert_eq!(commits[1].hash, "01234567");
    assert_eq!(commits[1].message, "Second change");
    assert_eq!(commits[1].author, "Ann <a@x>");
}

#[test]
fn commits_short_hash_kept_whole() {
    let commits = parse_commit_log("abc|msg|me\n");
    assert_eq!(commits.len(), 1);
    assert_eq!(commits[0].hash, "abc");
}
