use ignore_gen::commands::{
    CatalogView, Cli, Plan, Report, SubCommands, DEFAULT_OUTPUT, GITHUB_API_URL, LISTING_ACCEPT,
    REQUEST_TIMEOUT_SECS, USER_AGENT,
};

fn listing(items: &[&str]) -> Vec<String> {
    items.iter().map(|s| s.to_string()).collect()
}

fn listing_plan(view: CatalogView) -> Plan {
    Plan::Catalog {
        url: "https://api.github.com/repos/github/gitignore/contents".to_string(),
        accept: "application/vnd.github.v3+json".to_string(),
        view,
    }
}

fn sample_listing() -> Vec<String> {
    listing(&[
        "README.md",
        "ObjectiveC.gitignore",
        "CSharp.gitignore",
        "Go.gitignore",
        "GO.gitignore",
        "Golang.gitignore",
        "LICENSE",
    ])
}

#[test]
fn fixed_request_settings() {
    assert_eq!(GITHUB_API_URL, "https://api.github.com/repos/github/gitignore/contents");
    assert_eq!(LISTING_ACCEPT, "application/vnd.github.v3+json");
    assert_eq!(USER_AGENT, "gitignore-generator");
    assert_eq!(REQUEST_TIMEOUT_SECS, 30);
    assert_eq!(DEFAULT_OUTPUT, ".gitignore");
}

#[test]
fn no_command_needs_nothing() {
    assert_eq!(Cli { extra_command: None }.plan(), Plan::Idle);
}

#[test]
fn list_needs_the_whole_catalog() {
    let cli = Cli { extra_command: Some(SubCommands::List) };
    assert_eq!(cli.plan(), listing_plan(CatalogView::All));
}

#[test]
fn search_needs_the_catalog_matching_the_target() {
    let cli = Cli {
        extra_command: Some(SubCommands::Search { target_search: "Go".to_string() }),
    };
    assert_eq!(cli.plan(), listing_plan(CatalogView::Matching { query: "Go".to_string() }));
}

#[test]
fn regex_search_needs_the_catalog_matching_the_pattern() {
    let cli = Cli {
        extra_command: Some(SubCommands::RegexSearch { regex: "^C.+$".to_string() }),
    };
    assert_eq!(
        cli.plan(),
        listing_plan(CatalogView::MatchingPattern { pattern: "^C.+$".to_string() })
    );
}

#[test]
fn generate_needs_the_raw_template() {
    let cli = Cli {
        extra_command: Some(SubCommands::Generate {
            template_language: "Rust".to_string(),
            output: "out/.gitignore".to_string(),
        }),
    };
    assert_eq!(
        cli.plan(),
        Plan::Template {
            url: "https://raw.githubusercontent.com/github/gitignore/main/Rust.gitignore"
                .to_string(),
            template: "Rust".to_string(),
            output: "out/.gitignore".to_string(),
        }
    );
}

#[test]
fn generate_with_suffix_requests_the_same_url_and_keeps_the_argument() {
    let plan_for = |name: &str| {
        Cli {
            extra_command: Some(SubCommands::Generate {
                template_language: name.to_string(),
                output: DEFAULT_OUTPUT.to_string(),
            }),
        }
        .plan()
    };
    match (plan_for("Rust"), plan_for("Rust.gitignore")) {
        (
            Plan::Template { url: a, template: plain, .. },
            Plan::Template { url: b, template: suffixed, .. },
        ) => {
            assert_eq!(a, b);
            assert_eq!(plain, "Rust");
            assert_eq!(suffixed, "Rust.gitignore");
        }
        other => panic!("unexpected plans: {other:?}"),
    }
}

#[test]
fn only_the_pattern_view_echoes() {
    assert_eq!(CatalogView::All.echoed_pattern(), None);
    assert_eq!(CatalogView::Matching { query: "x".to_string() }.echoed_pattern(), None);
    assert_eq!(
        CatalogView::MatchingPattern { pattern: "^x".to_string() }.echoed_pattern(),
        Some("^x".to_string())
    );
}

#[test]
fn whole_catalog_is_reported_plain() {
    assert_eq!(
        CatalogView::All.report(&sample_listing()),
        Ok(Report {
            names: listing(&["ObjectiveC", "CSharp", "Go", "GO", "Golang"]),
            highlighted: false,
        })
    );
}

#[test]
fn query_matches_are_reported_highlighted() {
    assert_eq!(
        CatalogView::Matching { query: "Go".to_string() }.report(&sample_listing()),
        Ok(Report { names: listing(&["Go", "GO", "Golang"]), highlighted: true })
    );
}

#[test]
fn pattern_matches_are_reported_highlighted() {
    assert_eq!(
        CatalogView::MatchingPattern { pattern: "^C.+$".to_string() }.report(&sample_listing()),
        Ok(Report { names: listing(&["CSharp"]), highlighted: true })
    );
}

#[test]
fn pattern_works_on_names_without_the_suffix() {
    assert_eq!(
        CatalogView::MatchingPattern { pattern: "gitignore".to_string() }
            .report(&sample_listing()),
        Ok(Report { names: Vec::new(), highlighted: true })
    );
}

#[test]
fn invalid_pattern_is_an_error_of_the_report() {
    let err = CatalogView::MatchingPattern { pattern: "(".to_string() }
        .report(&sample_listing())
        .unwrap_err();
    assert_eq!(err.pattern, "(");
    assert!(err.message().starts_with("invalid regular expression '(': "));
}
