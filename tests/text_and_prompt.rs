use gitai::budget::TokenBudget;
use gitai::diff::{diff_to_text, format_diff_line, DiffLine};
use gitai::prompt::{commit_prompt_choices, render, AiPrompt, PromptPreset};
use gitai::text::{is_whitespace, remove_blank_lines};

#[test]
fn clean_drops_blank_lines_and_keeps_order() {
    let input = "first\n\n   \nsecond\n\t\nthird".to_string();
    assert_eq!(remove_blank_lines(&input), "first\nsecond\nthird");
}

#[test]
fn clean_keeps_line_content_exactly() {
    let input = "  indented  \n\nx".to_string();
    assert_eq!(remove_blank_lines(&input), "  indented  \nx");
}

#[test]
fn clean_strips_crlf_endings_and_trailing_newline() {
    let input = "a\r\n\r\nb\n".to_string();
    assert_eq!(remove_blank_lines(&input), "a\nb");
}

#[test]
fn clean_of_empty_and_blank_text_is_empty() {
    assert_eq!(remove_blank_lines(&String::new()), "");
    assert_eq!(remove_blank_lines(&" \n\u{a0}\n\u{3000}".to_string()), "");
}

#[test]
fn clean_twice_is_clean_once() {
    let input = "\nFix bug\n\n  in parser \n \nDone\n".to_string();
    let once = remove_blank_lines(&input);
    let twice = remove_blank_lines(&once);
    assert_eq!(once, twice);
    assert_eq!(once, "Fix bug\n  in parser \nDone");
}

#[test]
fn whitespace_matches_std() {
    for c in ['a', ' ', '\t', '\n', '\r', '\u{85}', '\u{a0}', '\u{2003}', '\u{3000}', 'x', '0', '\u{200b}'] {
        assert_eq!(is_whitespace(c), c.is_whitespace());
    }
}

fn sample_template() -> AiPrompt {
    AiPrompt {
        preamble: "Pre".to_string(),
        language: "ignored".to_string(),
        postamble: "Post".to_string(),
        seperator: '=',
        git_diff: "ignored".to_string(),
        postmessage: "Close".to_string(),
    }
}

#[test]
fn render_has_fixed_layout() {
    let t = sample_template();
    let out = render(&t, "+1 x\n-2 y", "Rust");
    let sep = "=".repeat(16);
    assert_eq!(out, format!("Pre Rust Post\n{}\n+1 x\n-2 y\n{}\nClose", sep, sep));
}

#[test]
fn render_twice_gives_the_same_text() {
    let t = sample_template();
    assert_eq!(render(&t, "diff", "Go"), render(&t.clone(), "diff", "Go"));
}

#[test]
fn rendered_prompt_has_two_separator_lines() {
    let mut t = sample_template();
    t.seperator = '#';
    let out = render(&t, "line one\nline two", "C");
    let sep = "#".repeat(16);
    assert_eq!(out.split('\n').filter(|l| *l == sep).count(), 2);
}

#[test]
fn prompt_render_uses_its_own_fields() {
    let mut t = sample_template();
    t.language = "Python".to_string();
    t.git_diff = "d".to_string();
    let sep = "=".repeat(16);
    assert_eq!(t.render(), format!("Pre Python Post\n{}\nd\n{}\nClose", sep, sep));
}

#[test]
fn default_prompt_is_expert_preset() {
    let d = AiPrompt::default();
    assert_eq!(d.preamble, "Imagine you are an expert ");
    assert_eq!(d.seperator, '=');
    assert_eq!(d.postamble, "developer and were given a git diff file to look at:");
}

#[test]
fn six_presets_in_order() {
    let choices = commit_prompt_choices();
    assert_eq!(choices.len(), 6);
    assert_eq!(choices[1].preamble, PromptPreset::Professor.template().preamble);
    assert_eq!(choices[4].postmessage, "Please write a haiku describing the changes");
    assert_eq!(PromptPreset::from_index(5), PromptPreset::SelfAware);
}

#[test]
fn budget_divides_and_caps() {
    let b = TokenBudget::new(4, 256).unwrap();
    assert_eq!(b.estimate_max_tokens(""), 1);
    assert_eq!(b.estimate_max_tokens("abc"), 1);
    assert_eq!(b.estimate_max_tokens(&"x".repeat(400)), 100);
    assert_eq!(b.estimate_max_tokens(&"x".repeat(5000)), 256);
    assert_eq!(b.max_tokens_for_len(u64::MAX), 256);
}

#[test]
fn budget_counts_characters_not_bytes() {
    let b = TokenBudget::new(3, 4096).unwrap();
    assert_eq!(b.estimate_max_tokens(&"é".repeat(30)), 10);
}

#[test]
fn budget_never_falls_as_prompt_grows() {
    let b = TokenBudget::default();
    let mut last = 0;
    for n in 0..1200 {
        let v = b.max_tokens_for_len(n);
        assert!(v >= last && v >= 1 && v <= 256);
        last = v;
    }
}

#[test]
fn budget_rejects_zero_parameters() {
    assert!(TokenBudget::new(0, 10).is_none());
    assert!(TokenBudget::new(3, 0).is_none());
}

#[test]
fn diff_lines_get_marker_and_old_number() {
    assert_eq!(format_diff_line('+', None, "added\n"), "+0 added\n");
    assert_eq!(format_diff_line('-', Some(12), "gone\n"), "-12 gone\n");
    assert_eq!(format_diff_line(' ', Some(7), "same\n"), " 7 same\n");
    assert_eq!(format_diff_line('F', Some(3), "other\n"), " 3 other\n");
}

#[test]
fn diff_headers_pass_through() {
    assert_eq!(format_diff_line('F', None, "diff --git a/x b/x\n"), "diff --git a/x b/x\n");
    assert_eq!(format_diff_line('H', Some(1), "@@ -1,2 +1,3 @@\n"), "@@ -1,2 +1,3 @@\n");
}

#[test]
fn whole_diff_is_lines_in_order() {
    let lines = vec![
        DiffLine { origin: 'H', old_lineno: None, content: "@@ -1 +1 @@\n".to_string() },
        DiffLine { origin: '-', old_lineno: Some(1), content: "old\n".to_string() },
        DiffLine { origin: '+', old_lineno: None, content: "new\n".to_string() },
    ];
    assert_eq!(diff_to_text(&lines), "@@ -1 +1 @@\n-1 old\n+0 new\n");
}
