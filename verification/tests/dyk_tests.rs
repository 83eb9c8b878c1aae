use dyk_resolver::dyk::{parse_dyk_template, DykEntry, DykError, DykResolution, PageStatus, PendingDyk};
use dyk_resolver::template::Template;

fn template(unnamed: &[&str], named: &[(&str, &str)]) -> Template {
    Template {
        unnamed: unnamed.iter().map(|s| s.to_string()).collect(),
        named: named.iter().map(|(k, v)| (k.to_string(), v.to_string())).collect(),
    }
}

fn status(title: &str, missing: bool) -> PageStatus {
    PageStatus { title: title.to_string(), missing }
}

fn pairs(e: DykEntry) -> Vec<(String, String)> {
    e.to_params()
}

fn expect_pending(r: Result<DykResolution, DykError>) -> PendingDyk {
    match r {
        Ok(DykResolution::NeedsQuery(p)) => p,
        _ => panic!("expected a pending resolution"),
    }
}

fn expect_resolved(r: Result<DykResolution, DykError>) -> DykEntry {
    match r {
        Ok(DykResolution::Resolved(e)) => e,
        _ => panic!("expected a resolved record"),
    }
}

#[test]
fn numeric_second_param_joins_date() {
    let t = template(&["5", "2020", "... that hooks hook?"], &[]);
    let p = expect_pending(parse_dyk_template("Example", &t));
    assert_eq!(p.date, "5 2020");
    assert_eq!(p.hook.as_deref(), Some("... that hooks hook?"));
}

#[test]
fn numeric_second_param_without_third_leaves_hook_absent() {
    let t = template(&["5", "2020"], &[]);
    let p = expect_pending(parse_dyk_template("Example", &t));
    assert_eq!(p.date, "5 2020");
    assert_eq!(p.hook, None);
}

#[test]
fn empty_second_param_counts_as_numeric() {
    let t = template(&["5", ""], &[]);
    let p = expect_pending(parse_dyk_template("Example", &t));
    assert_eq!(p.date, "5 ");
    assert_eq!(p.hook, None);
}

#[test]
fn non_numeric_second_param_is_the_hook() {
    let t = template(&["5 April", "... that this is a hook?"], &[]);
    let p = expect_pending(parse_dyk_template("Example", &t));
    assert_eq!(p.date, "5 April");
    assert_eq!(p.hook.as_deref(), Some("... that this is a hook?"));
}

#[test]
fn entry_parameter_takes_precedence_over_unnamed_hook() {
    let t = template(&["5", "2020", "positional hook"], &[("entry", "named hook")]);
    let p = expect_pending(parse_dyk_template("Example", &t));
    assert_eq!(p.hook.as_deref(), Some("named hook"));

    let t2 = template(&["5 April", "positional hook"], &[("entry", "named hook")]);
    let p2 = expect_pending(parse_dyk_template("Example", &t2));
    assert_eq!(p2.hook.as_deref(), Some("named hook"));
}

#[test]
fn missing_first_param_fails() {
    let t = template(&[], &[("entry", "a hook"), ("nompage", "Somewhere")]);
    match parse_dyk_template("Example", &t) {
        Err(DykError::MissingParameter { article_title }) => {
            assert_eq!(article_title, "Example");
        }
        _ => panic!("expected a missing-parameter error"),
    }
}

#[test]
fn missing_parameter_message_names_the_article() {
    let t = template(&[], &[]);
    let err = parse_dyk_template("Example", &t).err().expect("must fail");
    assert_eq!(err.message(), "Example: no first unnamed parameter!");
}

#[test]
fn explicit_nompage_is_used_verbatim_without_query() {
    let t = template(
        &["5 April"],
        &[("entry", "Did you know that..."), ("nompage", "Template:Did you know nominations/Example")],
    );
    let e = expect_resolved(parse_dyk_template("Example", &t));
    assert_eq!(e.nompage.as_deref(), Some("Template:Did you know nominations/Example"));
}

#[test]
fn pending_resolution_fixes_both_candidates() {
    let t = template(&["5 April"], &[]);
    let p = expect_pending(parse_dyk_template("Example", &t));
    assert_eq!(p.content_candidate, "Template:Did you know nominations/Example");
    assert_eq!(p.talk_candidate, "Template talk:Did you know/Example");
}

#[test]
fn content_candidate_preferred_when_both_exist() {
    let t = template(&["5 April"], &[]);
    let p = expect_pending(parse_dyk_template("Example", &t));
    let pages = vec![
        status("Template:Did you know nominations/Example", false),
        status("Template talk:Did you know/Example", false),
    ];
    let e = p.finish(pages).expect("well-formed response");
    assert_eq!(e.nompage.as_deref(), Some("Template:Did you know nominations/Example"));
}

#[test]
fn talk_candidate_chosen_when_content_missing() {
    let t = template(&["5 April"], &[]);
    let p = expect_pending(parse_dyk_template("Example", &t));
    let pages = vec![
        status("Template:Did you know nominations/Example", true),
        status("Template talk:Did you know/Example", false),
    ];
    let e = p.finish(pages).expect("well-formed response");
    assert_eq!(e.nompage.as_deref(), Some("Template talk:Did you know/Example"));
}

#[test]
fn both_missing_leaves_nompage_absent() {
    let t = template(&["5 April"], &[]);
    let p = expect_pending(parse_dyk_template("Example", &t));
    let pages = vec![
        status("Template:Did you know nominations/Example", true),
        status("Template talk:Did you know/Example", true),
    ];
    let e = p.finish(pages).expect("well-formed response");
    assert_eq!(e.nompage, None);
}

#[test]
fn empty_response_means_both_exist() {
    let t = template(&["5 April"], &[]);
    let p = expect_pending(parse_dyk_template("Example", &t));
    let e = p.finish(Vec::new()).expect("well-formed response");
    assert_eq!(e.nompage.as_deref(), Some("Template:Did you know nominations/Example"));
}

#[test]
fn unrecognized_title_is_an_integrity_fault() {
    let t = template(&["5 April"], &[]);
    let p = expect_pending(parse_dyk_template("Example", &t));
    let pages = vec![
        status("Template:Did you know nominations/Example", true),
        status("Template:Did you know nominations/Other", true),
    ];
    match p.finish(pages) {
        Err(DykError::IntegrityFault {
            unexpected_title,
            requested_content,
            requested_talk,
            response,
        }) => {
            assert_eq!(unexpected_title, "Template:Did you know nominations/Other");
            assert_eq!(requested_content, "Template:Did you know nominations/Example");
            assert_eq!(requested_talk, "Template talk:Did you know/Example");
            assert_eq!(response.len(), 2);
            assert_eq!(response[1].title, "Template:Did you know nominations/Other");
        }
        _ => panic!("expected an integrity fault"),
    }
}

#[test]
fn integrity_fault_message_names_the_title() {
    let t = template(&["5 April"], &[]);
    let p = expect_pending(parse_dyk_template("Example", &t));
    let err = p.finish(vec![status("Unrelated", false)]).err().expect("must fail");
    assert_eq!(
        err.message(),
        "unrecognized title in probe response: Unrelated"
    );
}

#[test]
fn projection_emits_date_first_and_optional_pairs_in_order() {
    let full = DykEntry {
        date: "5 April".to_string(),
        hook: Some("a hook".to_string()),
        nompage: Some("A page".to_string()),
    };
    let out = pairs(full);
    assert_eq!(
        out,
        vec![
            ("dyk.date".to_string(), "5 April".to_string()),
            ("dyk.entry".to_string(), "a hook".to_string()),
            ("dyk.nom".to_string(), "A page".to_string()),
        ]
    );

    let hook_only = DykEntry {
        date: "5 April".to_string(),
        hook: Some("a hook".to_string()),
        nompage: None,
    };
    let out = pairs(hook_only);
    assert_eq!(out.len(), 2);
    assert_eq!(out[0].0, "dyk.date");
    assert_eq!(out[1].0, "dyk.entry");

    let nom_only = DykEntry {
        date: "5 April".to_string(),
        hook: None,
        nompage: Some("A page".to_string()),
    };
    let out = pairs(nom_only);
    assert_eq!(out.len(), 2);
    assert_eq!(out[0].0, "dyk.date");
    assert_eq!(out[1].0, "dyk.nom");

    let bare = DykEntry { date: "5 April".to_string(), hook: None, nompage: None };
    let out = pairs(bare);
    assert_eq!(out, vec![("dyk.date".to_string(), "5 April".to_string())]);
}

#[test]
fn example_numeric_date_with_both_candidates_missing() {
    let t = template(&["5", "2020"], &[]);
    let p = expect_pending(parse_dyk_template("Example", &t));
    let pages = vec![
        status("Template:Did you know nominations/Example", true),
        status("Template talk:Did you know/Example", true),
    ];
    let e = p.finish(pages).expect("well-formed response");
    assert_eq!(e.date, "5 2020");
    assert_eq!(e.hook, None);
    assert_eq!(e.nompage, None);
    let out = pairs(e);
    assert_eq!(out, vec![("dyk.date".to_string(), "5 2020".to_string())]);
}

#[test]
fn example_explicit_nompage_projects_three_pairs() {
    let t = template(
        &["5 April"],
        &[("entry", "Did you know that..."), ("nompage", "Template:Did you know nominations/Example")],
    );
    let e = expect_resolved(parse_dyk_template("Example", &t));
    let out = pairs(e);
    assert_eq!(
        out,
        vec![
            ("dyk.date".to_string(), "5 April".to_string()),
            ("dyk.entry".to_string(), "Did you know that...".to_string()),
            ("dyk.nom".to_string(), "Template:Did you know nominations/Example".to_string()),
        ]
    );
}

#[test]
fn non_ascii_titles_build_and_match_candidates() {
    let t = template(&["5 April"], &[]);
    let p = expect_pending(parse_dyk_template("Łódź überall", &t));
    assert_eq!(p.content_candidate, "Template:Did you know nominations/Łódź überall");
    assert_eq!(p.talk_candidate, "Template talk:Did you know/Łódź überall");
    let pages = vec![
        status("Template:Did you know nominations/Łódź überall", true),
        status("Template talk:Did you know/Łódź überall", false),
    ];
    let e = p.finish(pages).expect("well-formed response");
    assert_eq!(e.nompage.as_deref(), Some("Template talk:Did you know/Łódź überall"));
}

#[test]
fn mixed_digit_token_is_not_numeric() {
    // A year with a stray letter is a hook, not a date continuation.
    let t = template(&["5 April", "2020a"], &[]);
    let p = expect_pending(parse_dyk_template("Example", &t));
    assert_eq!(p.date, "5 April");
    assert_eq!(p.hook.as_deref(), Some("2020a"));
}
