use choragos::plan::{branch_name, parse_title, slugify, trim_whitespace};

#[test]
fn parse_title_strips_feature_prefix() {
    let md = "# Feature: choragos v1 — MCP!\n\nSome body text.";
    assert_eq!(parse_title(md).as_deref(), Some("choragos v1 — MCP!"));
}

#[test]
fn slugify_produces_expected_slug() {
    assert_eq!(slugify("choragos v1 — MCP!"), "choragos-v1-mcp");
}

#[test]
fn branch_name_prefixes_feat() {
    assert_eq!(branch_name("choragos-v1-mcp"), "feat/choragos-v1-mcp");
}

#[test]
fn parse_title_returns_none_when_no_h1() {
    let md = "## Not a level-1 heading\n\nJust some text.";
    assert_eq!(parse_title(md), None);
}

#[test]
fn readme_example_heading_gives_feature_branch() {
    let title = parse_title("# Feature: my cool feature\n").expect("title");
    assert_eq!(title, "my cool feature");
    assert_eq!(branch_name(&slugify(&title)), "feat/my-cool-feature");
}

#[test]
fn parse_title_takes_the_first_h1_after_other_lines() {
    let md = "intro\n## sub\n#no space\n# First\n# Second\n";
    assert_eq!(parse_title(md).as_deref(), Some("First"));
}

#[test]
fn parse_title_handles_crlf_and_plain_titles() {
    assert_eq!(parse_title("# Plain title\r\nbody").as_deref(), Some("Plain title"));
    assert_eq!(parse_title("#  Feature:   spaced  ").as_deref(), Some("Feature:   spaced"));
    assert_eq!(parse_title("# Feature:   spaced  ").as_deref(), Some("spaced"));
    assert_eq!(parse_title("# ").as_deref(), Some(""));
    assert_eq!(parse_title(""), None);
}

#[test]
fn slugify_trims_and_collapses_separators() {
    assert_eq!(slugify("  --Hello,   World!!  "), "hello-world");
    assert_eq!(slugify("!!!"), "");
    assert_eq!(slugify("Ünïcode Title 2"), "ünïcode-title-2");
}

#[test]
fn slug_never_has_edge_or_double_dashes() {
    for title in ["a - b", "-x-", "x -- y", "  ", "A__B", "é—ü"] {
        let slug = slugify(title);
        assert!(!slug.starts_with('-'), "{slug}");
        assert!(!slug.ends_with('-'), "{slug}");
        assert!(!slug.contains("--"), "{slug}");
    }
}

#[test]
fn trim_whitespace_matches_str_trim() {
    for s in ["  a b  ", "\t\nx\r\n", "", "   ", "no-trim"] {
        assert_eq!(trim_whitespace(s), s.trim());
    }
}

#[test]
fn trim_whitespace_drops_exactly_the_unicode_white_space() {
    for u in 0u32..0x3100 {
        if let Some(c) = char::from_u32(u) {
            let s = format!("{c}x{c}");
            assert_eq!(trim_whitespace(&s), s.trim(), "U+{u:04X}");
        }
    }
}

#[test]
fn slugify_twice_is_slugify_once() {
    for t in ["Feature: Add Widget!", "  --Hello,   World--  ", "Ünïcödé Straße 42", "a--b__c", "", "---", "AΣ.B"] {
        let once = slugify(t);
        assert_eq!(slugify(&once), once, "{t:?}");
    }
}
