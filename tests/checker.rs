use moodle_checker::grading::{parse_decision, read_decision, GradeDecision};
use moodle_checker::interrupt::interrupt_target;
use moodle_checker::pipeline::{Action, Event, Stage, Submission, SubmissionRun};
use moodle_checker::text::{render_source, trim_fences};
use moodle_checker::workspace::{dash_spaces, display_name, workspace_key};

fn submission(status: &str, user_id: i64, body: &str) -> Submission {
    Submission { status: status.to_string(), user_id, body: body.to_string() }
}

#[test]
fn trim_fences_strips_fences_at_both_ends() {
    assert_eq!(trim_fences("```\nfn main(){}\n```\n"), "fn main(){}");
}

#[test]
fn trim_fences_keeps_inner_fences() {
    assert_eq!(trim_fences("a`\nb"), "a`\nb");
}

#[test]
fn trim_fences_of_only_fences_is_empty() {
    assert_eq!(trim_fences("`\n``\n"), "");
    assert_eq!(trim_fences(""), "");
}

#[test]
fn trim_fences_keeps_other_whitespace() {
    assert_eq!(trim_fences(" x \n"), " x ");
}

#[test]
fn render_source_renders_paragraph() {
    assert_eq!(render_source("<p>fn main(){}</p>"), Some("fn main(){}".to_string()));
}

#[test]
fn render_source_drops_markup_and_fences() {
    assert_eq!(render_source("<p>```</p><p>let x = 1;</p><p>```</p>").unwrap().contains('`'), false);
}

#[test]
fn workspace_key_lowercases_and_dashes() {
    assert_eq!(workspace_key("Ada Lovelace"), "ada-lovelace");
    assert_eq!(workspace_key("ÄNNE  B"), "änne--b");
}

#[test]
fn dash_spaces_replaces_spaces_only() {
    assert_eq!(dash_spaces("a b c"), "a-b-c");
    assert_eq!(dash_spaces("Ab\tC"), "Ab\tC");
}

#[test]
fn display_name_joins_names() {
    assert_eq!(display_name(Some("Ada"), Some("Lovelace")), "Ada Lovelace");
}

#[test]
fn display_name_uses_stand_ins() {
    assert_eq!(display_name(None, None), "Firstname Lastname");
    assert_eq!(display_name(Some("Ada"), None), "Ada Lastname");
}

#[test]
fn parse_decision_maps_answers() {
    assert_eq!(parse_decision("P"), Some(GradeDecision::Pass));
    assert_eq!(parse_decision("W"), Some(GradeDecision::Warn));
    assert_eq!(parse_decision("M"), Some(GradeDecision::MinimalPass));
    assert_eq!(parse_decision("-"), Some(GradeDecision::Skip));
    assert_eq!(parse_decision("x"), None);
    assert_eq!(parse_decision("p"), None);
    assert_eq!(parse_decision("PW"), None);
    assert_eq!(parse_decision(""), None);
}

#[test]
fn read_decision_ignores_surrounding_whitespace() {
    assert_eq!(read_decision(" P \n"), Some(GradeDecision::Pass));
    assert_eq!(read_decision("-\r\n"), Some(GradeDecision::Skip));
    assert_eq!(read_decision("x\n"), None);
}

#[test]
fn grade_codes() {
    assert_eq!(GradeDecision::Pass.code(), Some(3));
    assert_eq!(GradeDecision::Warn.code(), Some(2));
    assert_eq!(GradeDecision::MinimalPass.code(), Some(1));
    assert_eq!(GradeDecision::Skip.code(), None);
}

#[test]
fn interrupt_dropped_without_child() {
    assert_eq!(interrupt_target(0), None);
}

#[test]
fn interrupt_goes_to_child() {
    assert_eq!(interrupt_target(4242), Some(4242));
    assert_eq!(interrupt_target(u32::MAX), Some(u32::MAX));
}

#[test]
fn unsubmitted_submission_is_skipped() {
    for status in ["new", "draft", "graded", "Submitted", ""] {
        let (mut run, action) = SubmissionRun::start(&submission(status, 7, "<p>x</p>"));
        assert!(matches!(action, Action::Skip));
        assert_eq!(run.stage, Stage::Done);
        for ev in [Event::NameResolved("Ada".to_string()), Event::WorkspaceChecked(false), Event::StepDone, Event::Spawned(5)] {
            assert!(matches!(run.step(ev), Action::Idle));
        }
        assert_eq!(run.handle_value(), 0);
    }
}

#[test]
fn missing_user_is_reported() {
    let (run, action) = SubmissionRun::start(&submission("submitted", -1, "<p>x</p>"));
    assert!(matches!(action, Action::ReportMissingUser));
    assert_eq!(run.stage, Stage::Done);
}

#[test]
fn name_failure_is_reported() {
    let (mut run, action) = SubmissionRun::start(&submission("submitted", 3, "<p>x</p>"));
    assert!(matches!(action, Action::ResolveName(3)));
    assert!(matches!(run.step(Event::NameFailed), Action::ReportNameFailure));
    assert_eq!(run.stage, Stage::Done);
}

#[test]
fn end_to_end_pass() {
    let (mut run, action) = SubmissionRun::start(&submission("submitted", 219, "<p>fn main(){}</p>"));
    assert!(matches!(action, Action::ResolveName(219)));
    let a = run.step(Event::NameResolved("Ada Lovelace".to_string()));
    assert!(matches!(a, Action::CheckWorkspace(ref d) if d == "ada-lovelace"));
    let a = run.step(Event::WorkspaceChecked(false));
    assert!(matches!(a, Action::Scaffold(ref d) if d == "ada-lovelace"));
    let a = run.step(Event::StepDone);
    assert!(matches!(a, Action::AddDependencies(ref d) if d == "ada-lovelace"));
    let a = run.step(Event::StepDone);
    assert!(matches!(a, Action::WriteSource(ref d, ref s) if d == "ada-lovelace" && s == "fn main(){}"));
    let a = run.step(Event::StepDone);
    assert!(matches!(a, Action::Spawn(ref d) if d == "ada-lovelace"));
    assert_eq!(run.handle_value(), 0);
    assert!(matches!(run.step(Event::Spawned(1234)), Action::Wait));
    assert_eq!(run.handle_value(), 1234);
    assert!(matches!(run.step(Event::ChildExited), Action::Prompt));
    assert_eq!(run.handle_value(), 0);
    let mut reports = Vec::new();
    let a = run.step(Event::OperatorLine("P\n".to_string()));
    if let Action::ReportGrade(u, g) = a {
        reports.push((u, g));
    }
    assert!(matches!(run.step(Event::Reported), Action::Finish));
    assert_eq!(reports, vec![(219, 3)]);
    assert_eq!(run.stage, Stage::Done);
}

#[test]
fn existing_workspace_is_reused() {
    for _ in 0..2 {
        let (mut run, _) = SubmissionRun::start(&submission("submitted", 1, "<p>fn main(){}</p>"));
        let a = run.step(Event::NameResolved("Ada Lovelace".to_string()));
        assert!(matches!(a, Action::CheckWorkspace(ref d) if d == "ada-lovelace"));
        let a = run.step(Event::WorkspaceChecked(true));
        assert!(matches!(a, Action::AddDependencies(ref d) if d == "ada-lovelace"));
    }
}

fn run_to_prompt(user_id: i64) -> SubmissionRun {
    let (mut run, _) = SubmissionRun::start(&submission("submitted", user_id, "<p>fn main(){}</p>"));
    run.step(Event::NameResolved("Ada Lovelace".to_string()));
    run.step(Event::WorkspaceChecked(true));
    run.step(Event::StepDone);
    run.step(Event::StepDone);
    run.step(Event::Spawned(77));
    run.step(Event::ChildExited);
    assert_eq!(run.stage, Stage::AwaitGrade);
    run
}

#[test]
fn unknown_answer_prompts_again() {
    let mut run = run_to_prompt(5);
    let mut reports = Vec::new();
    for line in ["x\n", "P\n"] {
        match run.step(Event::OperatorLine(line.to_string())) {
            Action::ReportGrade(u, g) => reports.push((u, g)),
            Action::Prompt => {}
            _ => panic!("unexpected action"),
        }
    }
    assert_eq!(reports, vec![(5, 3)]);
}

#[test]
fn warn_and_minimal_grades() {
    let mut run = run_to_prompt(6);
    assert!(matches!(run.step(Event::OperatorLine("W".to_string())), Action::ReportGrade(6, 2)));
    let mut run = run_to_prompt(6);
    assert!(matches!(run.step(Event::OperatorLine("M".to_string())), Action::ReportGrade(6, 1)));
}

#[test]
fn skip_answer_reports_nothing() {
    let mut run = run_to_prompt(6);
    assert!(matches!(run.step(Event::OperatorLine("-\n".to_string())), Action::Finish));
    assert_eq!(run.stage, Stage::Done);
}

#[test]
fn spawn_failure_goes_to_prompt() {
    let (mut run, _) = SubmissionRun::start(&submission("submitted", 1, "<p>fn main(){}</p>"));
    run.step(Event::NameResolved("Bob".to_string()));
    run.step(Event::WorkspaceChecked(true));
    run.step(Event::StepDone);
    run.step(Event::StepDone);
    assert!(matches!(run.step(Event::SpawnFailed), Action::Prompt));
    assert_eq!(run.handle_value(), 0);
}

#[test]
fn running_child_keeps_handle_until_exit() {
    let (mut run, _) = SubmissionRun::start(&submission("submitted", 1, "<p>fn main(){}</p>"));
    run.step(Event::NameResolved("Bob".to_string()));
    run.step(Event::WorkspaceChecked(true));
    run.step(Event::StepDone);
    run.step(Event::StepDone);
    run.step(Event::Spawned(99));
    for ev in [Event::StepDone, Event::OperatorLine("P".to_string()), Event::Reported] {
        assert!(matches!(run.step(ev), Action::Idle));
        assert_eq!(run.handle_value(), 99);
        assert_eq!(interrupt_target(run.handle_value()), Some(99));
    }
    run.step(Event::ChildExited);
    assert_eq!(interrupt_target(run.handle_value()), None);
}
