use sheepstor::cli::{parse_site_selection, SiteSelection};

#[test]
fn all_selects_every_website() {
    assert!(matches!(parse_site_selection("all"), SiteSelection::All));
}

#[test]
fn list_of_ids_is_split_at_commas() {
    match parse_site_selection("blog,docs") {
        SiteSelection::Listed(ids) => assert_eq!(ids, vec!["blog".to_string(), "docs".to_string()]),
        SiteSelection::All => panic!("expected a list"),
    }
}

#[test]
fn all_inside_a_list_is_an_id() {
    match parse_site_selection("all,blog") {
        SiteSelection::Listed(ids) => assert_eq!(ids, vec!["all".to_string(), "blog".to_string()]),
        SiteSelection::All => panic!("expected a list"),
    }
}

#[test]
fn single_id_is_a_list_of_one() {
    match parse_site_selection("blog") {
        SiteSelection::Listed(ids) => assert_eq!(ids, vec!["blog".to_string()]),
        SiteSelection::All => panic!("expected a list"),
    }
}
