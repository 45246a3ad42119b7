use gitai::budget::TokenBudget;
use gitai::cli::{allowed_num_tries, error_message, is_affirmative};
use gitai::completion::{collect, CompletionError, FinishReason, OpenAiChoice, OpenAiCompletionResponse, OpenAiUsage};
use gitai::git::{api_endpoint, branch_refname, last_path_segment, Git, GitHub};
use gitai::pipeline::{gather_candidates, plan_requests, requests_for_run, sample_presets, RunConfig, RunState};
use gitai::prompt::{render, PromptPreset};

fn response(texts: &[Option<&str>], total: u16) -> OpenAiCompletionResponse {
    let choices = texts
        .iter()
        .enumerate()
        .map(|(i, t)| OpenAiChoice {
            text: t.map(|s| s.to_string()),
            index: Some(i as u8),
            finish_reason: Some("stop".to_string()),
        })
        .collect();
    OpenAiCompletionResponse {
        id: Some("cmpl-1".to_string()),
        object: Some("text_completion".to_string()),
        created: Some(0),
        model: Some("code-davinci-002".to_string()),
        choices: Some(choices),
        usage: Some(OpenAiUsage { prompt_tokens: Some(total / 2), completion_tokens: Some(total - total / 2), total_tokens: Some(total) }),
    }
}

fn config(stochastic: bool, num_tries: u8) -> RunConfig {
    RunConfig { stochastic, num_tries, language: "Rust".to_string(), budget: TokenBudget::default() }
}

#[test]
fn stochastic_run_plans_one_request_per_try() {
    let cfg = config(true, 3);
    let picks = vec![PromptPreset::Haiku, PromptPreset::Expert, PromptPreset::Haiku];
    let plan = plan_requests(&cfg, "+0 x\n", &picks);
    assert_eq!(plan.len(), 3);
    assert!(plan.iter().all(|r| r.n == 1));
    assert_eq!(plan[0].preset, PromptPreset::Haiku);
    assert_eq!(plan[0].prompt, render(&PromptPreset::Haiku.template(), "+0 x\n", "Rust"));
    assert_eq!(plan[0].max_tokens, TokenBudget::default().estimate_max_tokens(&plan[0].prompt));
}

#[test]
fn plain_run_plans_one_request_for_all_tries() {
    let cfg = config(false, 4);
    let plan = plan_requests(&cfg, "+0 x\n", &Vec::new());
    assert_eq!(plan.len(), 1);
    assert_eq!(plan[0].n, 4);
    assert_eq!(plan[0].preset, PromptPreset::Expert);
}

#[test]
fn fresh_plan_has_the_right_shape() {
    let plan = requests_for_run(&config(true, 5), "d");
    assert_eq!(plan.len(), 5);
    assert!(plan.iter().all(|r| r.n == 1));
    assert_eq!(sample_presets(4).len(), 4);
    assert_eq!(requests_for_run(&config(false, 2), "d").len(), 1);
}

#[test]
fn collect_skips_choices_without_text() {
    let r = response(&[None, Some("a\n\nb"), Some("")], 10);
    assert_eq!(collect(&r).unwrap(), vec!["a\nb".to_string()]);
}

#[test]
fn collect_with_no_text_is_empty_completion() {
    let r = response(&[None, Some("")], 10);
    assert!(matches!(collect(&r), Err(CompletionError::EmptyCompletion)));
    let mut none = response(&[], 1);
    none.choices = None;
    assert!(matches!(collect(&none), Err(CompletionError::EmptyCompletion)));
}

#[test]
fn finish_reasons() {
    let mut c = OpenAiChoice { text: None, index: None, finish_reason: Some("stop".to_string()) };
    assert_eq!(c.finish(), FinishReason::Stop);
    c.finish_reason = Some("length".to_string());
    assert_eq!(c.finish(), FinishReason::Length);
    c.finish_reason = Some("content_filter".to_string());
    assert_eq!(c.finish(), FinishReason::Other);
    c.finish_reason = None;
    assert_eq!(c.finish(), FinishReason::Other);
}

#[test]
fn partial_batch_keeps_the_successes() {
    let outcomes = vec![
        Ok(response(&[Some("one")], 5)),
        Err(CompletionError::Transport("timeout".to_string())),
        Ok(response(&[Some("three")], 7)),
    ];
    match gather_candidates(&outcomes) {
        RunState::CandidatesReady { candidates, tokens } => {
            assert_eq!(candidates, vec!["one".to_string(), "three".to_string()]);
            assert_eq!(tokens, 12);
        }
        other => panic!("unexpected state {:?}", other),
    }
}

#[test]
fn batch_with_every_request_failed_fails_with_the_first_error() {
    let outcomes = vec![
        Err(CompletionError::Decode("bad json".to_string())),
        Err(CompletionError::Transport("timeout".to_string())),
    ];
    match gather_candidates(&outcomes) {
        RunState::Failed { error: CompletionError::Decode(m) } => assert_eq!(m, "bad json"),
        other => panic!("unexpected state {:?}", other),
    }
    assert!(matches!(
        gather_candidates(&Vec::new()),
        RunState::Failed { error: CompletionError::EmptyCompletion }
    ));
}

#[test]
fn scenario_accept_commits_the_text() {
    let plan = plan_requests(&config(false, 1), "+0 x\n", &Vec::new());
    assert_eq!(plan.len(), 1);
    assert_eq!(plan[0].n, 1);
    let r = response(&[Some("Fix off-by-one in loop bound")], 42);
    assert_eq!(r.choices.as_ref().unwrap()[0].finish(), FinishReason::Stop);
    let state = gather_candidates(&vec![Ok(r)]);
    match state.decide(true) {
        RunState::Committed { message } => assert_eq!(message, "Fix off-by-one in loop bound"),
        other => panic!("unexpected state {:?}", other),
    }
}

#[test]
fn scenario_decline_reports_the_tokens() {
    let r = response(&[Some("Fix off-by-one in loop bound")], 42);
    let state = gather_candidates(&vec![Ok(r)]);
    match state.decide(false) {
        RunState::Declined { wasted_tokens } => assert_eq!(wasted_tokens, 42),
        other => panic!("unexpected state {:?}", other),
    }
}

#[test]
fn scenario_three_stochastic_candidates_in_request_order() {
    let plan = plan_requests(
        &config(true, 3),
        "d",
        &vec![PromptPreset::Professor, PromptPreset::Haiku, PromptPreset::Expert],
    );
    assert_eq!(plan.len(), 3);
    let outcomes = vec![
        Ok(response(&[Some("first\n\n")], 1)),
        Ok(response(&[Some("second")], 1)),
        Ok(response(&[Some("  \nthird")], 1)),
    ];
    match gather_candidates(&outcomes) {
        RunState::CandidatesReady { candidates, .. } => {
            assert_eq!(candidates, vec!["first".to_string(), "second".to_string(), "third".to_string()])
        }
        other => panic!("unexpected state {:?}", other),
    }
}

#[test]
fn scenario_unauthorised_fails_the_run() {
    let outcomes = vec![Err(CompletionError::HttpStatus { status: 401, body: "unauthorised".to_string() })];
    let state = gather_candidates(&outcomes);
    match &state {
        RunState::Failed { error: CompletionError::HttpStatus { status, .. } } => assert_eq!(*status, 401),
        other => panic!("unexpected state {:?}", other),
    }
    assert!(matches!(state.decide(true), RunState::Failed { .. }));
}

#[test]
fn start_and_decide_transitions() {
    assert!(matches!(RunState::start(Ok("d".to_string())), RunState::DiffReady { .. }));
    assert!(matches!(
        RunState::start(Err(CompletionError::DiffUnavailable("no commit".to_string()))),
        RunState::Failed { error: CompletionError::DiffUnavailable(_) }
    ));
    let empty = RunState::CandidatesReady { candidates: Vec::new(), tokens: 3 };
    assert!(matches!(empty.decide(true), RunState::Failed { error: CompletionError::EmptyCompletion }));
    assert!(matches!(RunState::Start.decide(true), RunState::Start));
}

#[test]
fn num_tries_between_one_and_five() {
    assert_eq!(allowed_num_tries("3"), Ok(3));
    assert_eq!(allowed_num_tries("+5"), Ok(5));
    assert_eq!(allowed_num_tries("01"), Ok(1));
    assert!(allowed_num_tries("0").is_err());
    assert!(allowed_num_tries("6").is_err());
    assert!(allowed_num_tries("300").is_err());
    assert!(allowed_num_tries("").is_err());
    assert!(allowed_num_tries("-1").is_err());
    assert!(allowed_num_tries("two").is_err());
}

#[test]
fn yes_answers() {
    assert!(is_affirmative("y"));
    assert!(is_affirmative("Yes please"));
    assert!(!is_affirmative(""));
    assert!(!is_affirmative("no"));
    assert!(!is_affirmative(" y"));
}

#[test]
fn error_message_is_the_message() {
    assert_eq!(error_message("Unable to open repository"), "Unable to open repository");
}

#[test]
fn git_defaults_and_flags() {
    let g = Git::default();
    assert_eq!(g.path, ".");
    assert!(!g.adds_all());
    assert!(g.pushes_first());
    assert_eq!(g.ssh_user_name, Some("git"));
    let t = true;
    let g2 = Git::new(".", Some(&t), None, None, None, None, None, None, None);
    assert!(g2.adds_all());
    assert!(g2.pushes_first());
}

#[test]
fn identity_prefers_configured_values() {
    let g = Git::new(".", None, None, None, None, Some("Ada"), None, None, None);
    let (n, e) = g.identity(Some("Other".to_string()), Some("ada@example.com".to_string())).unwrap();
    assert_eq!(n, "Ada");
    assert_eq!(e, "ada@example.com");
    assert!(matches!(
        g.identity(None, None),
        Err(CompletionError::IdentityUnresolved(_))
    ));
    assert!(matches!(
        Git::default().identity(None, Some("x@y".to_string())),
        Err(CompletionError::IdentityUnresolved(_))
    ));
}

#[test]
fn branch_reference_names() {
    assert_eq!(branch_refname("main"), "refs/heads/main");
    assert_eq!(branch_refname("refs/heads/main"), "refs/heads/main");
    assert_eq!(branch_refname("refs/heads/refs/heads/x"), "refs/heads/x");
    assert_eq!(branch_refname(""), "refs/heads/");
}

#[test]
fn github_addresses() {
    let gh = GitHub::new("SECRET-REDACTED", "https://api.github.com", Some("octo".to_string()));
    assert_eq!(gh.github_username(), "octo");
    assert_eq!(gh.github_token(), "SECRET-REDACTED");
    assert_eq!(gh.pulls_url("/home/me/project", '/'), "https://api.github.com/repos/octo/project/pulls");
    assert_eq!(GitHub::new("t", "u", None).github_username(), "");
    assert_eq!(last_path_segment("a/b/", '/'), "");
    assert_eq!(last_path_segment("plain", '/'), "plain");
    assert_eq!(api_endpoint("https://api.github.com", "user"), "https://api.github.com/user");
}

#[test]
fn git_settings_defaults() {
    let s = gitai::settings::GitSettings::default();
    assert_eq!(s.github_api_key, "");
    assert_eq!(s.git_options.local_path, ".");
    assert!(s.git_options.auto_push);
    assert!(!s.git_options.auto_add);
    assert!(!s.git_options.sign_commits);
}
