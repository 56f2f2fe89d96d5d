use raf::command::{NewArgs, NewCommand, Stage};
use raf::request::{copy_rules, CopyPlan, CopyRules, Failure, Reply, Request};
use raf::date::DraftDate;
use raf::option::{RafConfig, RafConfigPath};

fn config() -> RafConfig {
    RafConfig {
        path: RafConfigPath { root: "/tmp/drafts".to_string(), template: "/tmp/templates".to_string() },
    }
}

fn args(kind: Option<&str>, slug: Option<&str>, template: Option<&str>) -> NewArgs {
    NewArgs {
        kind: kind.map(|s| s.to_string()),
        slug: slug.map(|s| s.to_string()),
        template: template.map(|s| s.to_string()),
    }
}

fn march_fifth() -> DraftDate {
    DraftDate { year: 2023, month: 3, day: 5 }
}

fn line(text: &str) -> Reply {
    Reply::Line(text.to_string())
}

fn found(paths: &[&str]) -> Reply {
    Reply::Found(paths.iter().map(|s| s.to_string()).collect())
}

fn expected_rules() -> CopyRules {
    CopyRules { overwrite: true, skip_existing: false, create_target: true, contents_only: true }
}

#[test]
fn new_with_kind_and_slug_and_no_templates_creates_the_entry() {
    let command = NewCommand::start(&config(), args(Some("essay"), Some("my-idea"), None), march_fifth());
    assert_eq!(command.request(), Request::FindTemplates("/tmp/templates/essay/*".to_string()));
    let command = command.advance(found(&[]));
    assert_eq!(command.stage(), Stage::Ready);
    assert_eq!(
        command.request(),
        Request::CreateDir("/tmp/drafts/essay/2023/03/05/my-idea".to_string())
    );
}

#[test]
fn new_with_a_missing_template_warns_and_creates_the_plain_entry() {
    let command = NewCommand::start(
        &config(),
        args(Some("essay"), Some("my-idea"), Some("missing-one")),
        march_fifth(),
    );
    assert_eq!(
        command.request(),
        Request::ProbeTemplate("/tmp/templates/essay/missing-one".to_string())
    );
    let command = command.advance(Reply::Directory(false));
    assert_eq!(
        command.request(),
        Request::WarnMissing("/tmp/templates/essay/missing-one".to_string())
    );
    let command = command.advance(Reply::Done);
    assert_eq!(
        command.request(),
        Request::CreateDir("/tmp/drafts/essay/2023/03/05/my-idea".to_string())
    );
}

#[test]
fn new_with_a_template_that_exists_copies_it() {
    let command = NewCommand::start(
        &config(),
        args(Some("essay"), Some("my-idea"), Some("plain")),
        march_fifth(),
    );
    assert_eq!(command.stage(), Stage::Probe);
    let command = command.advance(Reply::Directory(true));
    assert_eq!(
        command.request(),
        Request::CopyTemplate(CopyPlan {
            template: "/tmp/templates/essay/plain".to_string(),
            parent: Some("/tmp/drafts/essay/2023/03/05".to_string()),
            target: "/tmp/drafts/essay/2023/03/05/my-idea".to_string(),
            rules: expected_rules(),
        })
    );
}

#[test]
fn new_asks_for_what_the_command_line_left_out() {
    let command = NewCommand::start(&config(), args(None, None, None), march_fifth());
    assert_eq!(command.stage(), Stage::Kind);
    assert_eq!(command.request(), Request::AskKind);
    let command = command.advance(line("note"));
    assert_eq!(command.request(), Request::FindTemplates("/tmp/templates/note/*".to_string()));
    let command = command.advance(found(&[]));
    assert_eq!(command.stage(), Stage::Slug);
    assert_eq!(command.request(), Request::AskSlug);
    let command = command.advance(line("first"));
    assert_eq!(command.request(), Request::CreateDir("/tmp/drafts/note/2023/03/05/first".to_string()));
}

#[test]
fn new_asks_for_the_kind_before_it_looks_for_a_named_template() {
    let command = NewCommand::start(&config(), args(None, Some("s"), Some("plain")), march_fifth());
    assert_eq!(command.request(), Request::AskKind);
    let command = command.advance(line("essay"));
    assert_eq!(command.request(), Request::ProbeTemplate("/tmp/templates/essay/plain".to_string()));
}

#[test]
fn new_offers_the_templates_found() {
    let command = NewCommand::start(&config(), args(Some("essay"), Some("s"), None), march_fifth());
    let command = command.advance(found(&["/tmp/templates/essay/b", "/tmp/templates/essay/a"]));
    assert_eq!(command.stage(), Stage::Choose);
    assert_eq!(
        command.request(),
        Request::ChooseTemplate(vec![
            "Do not use template".to_string(),
            "/tmp/templates/essay/b".to_string(),
            "/tmp/templates/essay/a".to_string(),
        ])
    );
}

#[test]
fn new_copies_the_template_chosen_from_the_menu() {
    let command = NewCommand::start(&config(), args(Some("essay"), Some("s"), None), march_fifth());
    let command = command.advance(found(&["/tmp/templates/essay/b", "/tmp/templates/essay/a"]));
    let command = command.advance(Reply::Chosen(Some(2)));
    assert_eq!(command.request(), Request::AnnounceTemplate("/tmp/templates/essay/a".to_string()));
    let command = command.advance(Reply::Done);
    assert_eq!(
        command.request(),
        Request::CopyTemplate(CopyPlan {
            template: "/tmp/templates/essay/a".to_string(),
            parent: Some("/tmp/drafts/essay/2023/03/05".to_string()),
            target: "/tmp/drafts/essay/2023/03/05/s".to_string(),
            rules: expected_rules(),
        })
    );
}

#[test]
fn new_goes_without_a_template_when_none_is_chosen() {
    for choice in [Some(0), None, Some(3), Some(usize::MAX)] {
        let command = NewCommand::start(&config(), args(Some("essay"), Some("s"), None), march_fifth());
        let command = command.advance(found(&["/tmp/templates/essay/b", "/tmp/templates/essay/a"]));
        let command = command.advance(Reply::Chosen(choice));
        assert_eq!(command.request(), Request::CreateDir("/tmp/drafts/essay/2023/03/05/s".to_string()));
    }
}

#[test]
fn new_asks_for_the_slug_after_the_template_is_chosen() {
    let command = NewCommand::start(&config(), args(Some("essay"), None, None), march_fifth());
    let command = command.advance(found(&["/tmp/templates/essay/only"]));
    let command = command.advance(Reply::Chosen(Some(1)));
    let command = command.advance(Reply::Done);
    assert_eq!(command.request(), Request::AskSlug);
    let command = command.advance(line("late"));
    assert_eq!(
        command.request(),
        Request::CopyTemplate(CopyPlan {
            template: "/tmp/templates/essay/only".to_string(),
            parent: Some("/tmp/drafts/essay/2023/03/05".to_string()),
            target: "/tmp/drafts/essay/2023/03/05/late".to_string(),
            rules: expected_rules(),
        })
    );
}

#[test]
fn breaking_off_at_the_kind_gives_up_as_interrupted() {
    for reply in [Reply::Interrupted, Reply::EndOfInput] {
        let command = NewCommand::start(&config(), args(None, None, None), march_fifth());
        let command = command.advance(reply);
        assert_eq!(command.stage(), Stage::Failed(Failure::Interrupted));
        assert_eq!(command.request(), Request::Abort(Failure::Interrupted));
    }
}

#[test]
fn breaking_off_at_the_slug_gives_up_as_interrupted() {
    for reply in [Reply::Interrupted, Reply::EndOfInput] {
        let command = NewCommand::start(&config(), args(Some("essay"), None, None), march_fifth());
        let command = command.advance(found(&[]));
        assert_eq!(command.request(), Request::AskSlug);
        let command = command.advance(reply);
        assert_eq!(command.request(), Request::Abort(Failure::Interrupted));
    }
}

#[test]
fn another_failure_to_read_gives_up_as_unknown() {
    let command = NewCommand::start(&config(), args(None, None, None), march_fifth());
    let command = command.advance(Reply::ReadError);
    assert_eq!(command.request(), Request::Abort(Failure::Unknown));
    let command = NewCommand::start(&config(), args(Some("k"), None, Some("t")), march_fifth());
    let command = command.advance(Reply::Directory(true));
    assert_eq!(command.request(), Request::AskSlug);
    let command = command.advance(Reply::ReadError);
    assert_eq!(command.request(), Request::Abort(Failure::Unknown));
}

#[test]
fn a_reply_that_answers_nothing_changes_nothing() {
    let command = NewCommand::start(&config(), args(None, None, None), march_fifth());
    let command = command.advance(Reply::Done);
    assert_eq!(command.request(), Request::AskKind);
    let command = command.advance(Reply::Directory(true));
    assert_eq!(command.request(), Request::AskKind);
    let command = command.advance(found(&["/x"]));
    assert_eq!(command.request(), Request::AskKind);
    let command = command.advance(line("essay"));
    let command = command.advance(line("again"));
    assert_eq!(command.request(), Request::FindTemplates("/tmp/templates/essay/*".to_string()));
    let command = command.advance(Reply::Chosen(Some(1)));
    assert_eq!(command.request(), Request::FindTemplates("/tmp/templates/essay/*".to_string()));
}

#[test]
fn a_dialogue_that_has_ended_stays_as_it_is() {
    let command = NewCommand::start(&config(), args(Some("essay"), Some("s"), None), march_fifth());
    let command = command.advance(found(&[]));
    let done = command.request();
    let command = command.advance(line("other"));
    let command = command.advance(Reply::Interrupted);
    let command = command.advance(found(&["/x"]));
    assert_eq!(command.request(), done);
    let command = NewCommand::start(&config(), args(None, None, None), march_fifth());
    let command = command.advance(Reply::Interrupted);
    let command = command.advance(line("essay"));
    assert_eq!(command.request(), Request::Abort(Failure::Interrupted));
}

#[test]
fn an_empty_line_is_taken_as_it_is() {
    let command = NewCommand::start(&config(), args(None, Some("s"), None), march_fifth());
    let command = command.advance(line(""));
    assert_eq!(command.request(), Request::FindTemplates("/tmp/templates//*".to_string()));
    let command = command.advance(found(&[]));
    assert_eq!(command.request(), Request::CreateDir("/2023/03/05/s".to_string()));
}

#[test]
fn the_copy_plan_names_the_directory_above_the_target() {
    let command = NewCommand::start(&config(), args(Some("essay"), Some("a/b"), Some("t")), march_fifth());
    let command = command.advance(Reply::Directory(true));
    match command.request() {
        Request::CopyTemplate(plan) => {
            assert_eq!(plan.target, "/tmp/drafts/essay/2023/03/05/a/b");
            assert_eq!(plan.parent, Some("/tmp/drafts/essay/2023/03/05/a".to_string()));
        }
        other => panic!("unexpected request {:?}", other),
    }
    let command = NewCommand::start(&config(), args(Some("essay"), Some(""), Some("t")), march_fifth());
    let command = command.advance(Reply::Directory(true));
    match command.request() {
        Request::CopyTemplate(plan) => {
            assert_eq!(plan.target, "/tmp/drafts/essay/2023/03/05/");
            assert_eq!(plan.parent, Some("/tmp/drafts/essay/2023/03".to_string()));
        }
        other => panic!("unexpected request {:?}", other),
    }
}

#[test]
fn templates_are_written_over_and_copied_by_their_contents() {
    assert_eq!(copy_rules(), expected_rules());
}

#[test]
fn failures_have_their_messages() {
    assert_eq!(Failure::Interrupted.message(), "Interrupted!");
    assert_eq!(Failure::Unknown.message(), "Unknown error.");
}
