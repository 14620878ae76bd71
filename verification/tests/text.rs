use stackbloatless::text::split_authors;
use stackbloatless::text::uri_for_search_term;

#[test]
fn search_terms_become_stackoverflow_uris() {
    assert_eq!(
        uri_for_search_term("4512345"),
        "stackexchange://stackoverflow/4512345"
    );
}

#[test]
fn an_empty_search_term_still_yields_the_site_prefix() {
    assert_eq!(uri_for_search_term(""), "stackexchange://stackoverflow/");
}

#[test]
fn a_single_author_stays_whole() {
    assert_eq!(split_authors("Grace Hopper"), ["Grace Hopper"]);
}

#[test]
fn authors_split_on_each_colon() {
    assert_eq!(
        split_authors("Grace Hopper:Ada Lovelace:Alan Turing"),
        ["Grace Hopper", "Ada Lovelace", "Alan Turing"]
    );
}

#[test]
fn an_empty_authors_field_gives_one_empty_name() {
    assert_eq!(split_authors(""), [""]);
}

#[test]
fn a_lone_colon_gives_two_empty_names() {
    assert_eq!(split_authors(":"), ["", ""]);
}

#[test]
fn consecutive_colons_keep_their_empty_name() {
    assert_eq!(split_authors("alice::bob"), ["alice", "", "bob"]);
}

#[test]
fn names_beyond_ascii_split_cleanly() {
    assert_eq!(split_authors("Åsa Öberg:Émile Côté"), ["Åsa Öberg", "Émile Côté"]);
}
