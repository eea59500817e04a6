use jobex_scraper::query::{convert_job_title_to_query_string, PERCENT_TWENTY, PLUS};

#[test]
fn plus_joins_the_words_of_a_title() {
    assert_eq!(convert_job_title_to_query_string("software engineer", "+"), "software+engineer");
    assert_eq!(convert_job_title_to_query_string("software engineer", PLUS), "software+engineer");
}

#[test]
fn percent_twenty_escapes_the_spaces_of_a_title() {
    assert_eq!(
        convert_job_title_to_query_string("software engineer", "%20"),
        "software%20engineer"
    );
    assert_eq!(
        convert_job_title_to_query_string("software engineer", PERCENT_TWENTY),
        "software%20engineer"
    );
}

#[test]
fn every_space_is_replaced() {
    assert_eq!(convert_job_title_to_query_string(" a  b ", "+"), "+a++b+");
    assert_eq!(convert_job_title_to_query_string(" a  b ", "%20"), "%20a%20%20b%20");
    assert_eq!(convert_job_title_to_query_string("   ", "%20"), "%20%20%20");
}

#[test]
fn other_characters_are_left_alone() {
    assert_eq!(convert_job_title_to_query_string("recruiter", "+"), "recruiter");
    assert_eq!(convert_job_title_to_query_string("", "+"), "");
    assert_eq!(convert_job_title_to_query_string("c++ & c#\t100%", "%20"), "c++%20&%20c#\t100%");
    assert_eq!(
        convert_job_title_to_query_string("kai\u{0101}rahi \u{00A0}m\u{0101}ori", "+"),
        "kai\u{0101}rahi+\u{00A0}m\u{0101}ori"
    );
}

#[test]
fn an_empty_replacement_drops_the_spaces() {
    assert_eq!(convert_job_title_to_query_string("web developer", ""), "webdeveloper");
}

#[test]
fn the_query_has_the_length_that_the_spaces_give_it() {
    let title = "human resources business partner";
    let spaces = title.chars().filter(|c| *c == ' ').count();
    let plus = convert_job_title_to_query_string(title, "+");
    let percent = convert_job_title_to_query_string(title, "%20");
    assert_eq!(plus.chars().count(), title.chars().count());
    assert_eq!(percent.chars().count(), title.chars().count() + 2 * spaces);
    assert!(!plus.contains(' '));
    assert!(!percent.contains(' '));
}

#[test]
fn encoding_agrees_with_replacing_in_place() {
    let titles = [
        "software engineer",
        "software developer",
        "civil engineer",
        "web developer",
        "accountant",
        "financial adviser",
        "policy advisor",
        "office administrator",
        "human resources",
        "recruiter",
        "  spaced   out  ",
        "tab\tand\nnewline stay",
    ];
    for title in titles {
        for replacement in ["+", "%20", "", " ", "--"] {
            assert_eq!(
                convert_job_title_to_query_string(title, replacement),
                title.replace(' ', replacement)
            );
        }
    }
}
