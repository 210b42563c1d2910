use noir_playground::lifecycle::{step, Event, Phase};
use noir_playground::project::{File, Project};
use noir_playground::workspace::Workspace;

fn project_with(entries: &[(&str, &str)]) -> Project {
    let mut p = Project::new();
    for (name, content) in entries {
        p.set_file(String::from(*name), File { content: String::from(*content) });
    }
    p
}

#[test]
fn take_source_returns_the_submitted_text() {
    let mut p = project_with(&[("main.nr", "fn main() {}"), ("Prover.toml", "x = \"1\"")]);
    let src = p.take_source();
    assert_eq!(src.content, "fn main() {}");
    let prover = p.take_prover();
    assert_eq!(prover.content, "x = \"1\"");
}

#[test]
fn take_source_twice_yields_empty_second() {
    let mut p = project_with(&[("main.nr", "fn main() {}")]);
    let first = p.take_source();
    assert_eq!(first.content, "fn main() {}");
    let second = p.take_source();
    assert_eq!(second.content, "");
}

#[test]
fn take_missing_file_yields_default() {
    let mut p = project_with(&[("lib.nr", "mod a;")]);
    assert_eq!(p.take_source().content, "");
    assert_eq!(p.take_prover().content, "");
}

#[test]
fn set_file_overwrites_existing_name() {
    let mut p = project_with(&[("main.nr", "old")]);
    p.set_file(String::from("main.nr"), File { content: String::from("new") });
    assert_eq!(p.files.len(), 1);
    assert_eq!(p.take_source().content, "new");
}

#[test]
fn workspace_source_round_trip() {
    let mut w = Workspace::create();
    w.write_source(String::from("fn main() {\n    assert(true);\n}"));
    w.write_aux(String::from("a = \"7\""));
    assert_eq!(w.read_source().unwrap(), "fn main() {\n    assert(true);\n}");
}

#[test]
fn workspace_read_before_write_is_none() {
    let w = Workspace::create();
    assert!(w.read_source().is_none());
}

#[test]
fn workspace_destroy_is_idempotent() {
    let mut w = Workspace::create();
    w.destroy();
    assert!(w.destroyed);
    w.destroy();
    assert!(w.destroyed);
    assert!(w.read_source().is_none());

    let mut untouched = Workspace::create();
    untouched.destroy();
    assert!(untouched.destroyed);
}

#[test]
fn lifecycle_happy_path() {
    let p = step(Phase::Created, Event::WriteFinished).unwrap();
    assert_eq!(p, Phase::FilesWritten);
    let p = step(p, Event::LaunchStarted).unwrap();
    assert_eq!(p, Phase::Launched);
    let captured = step(p, Event::OutputReturned).unwrap();
    assert_eq!(captured, Phase::OutputCaptured);
    let failed = step(p, Event::LaunchRefused).unwrap();
    assert_eq!(failed, Phase::LaunchFailed);
    assert_eq!(step(captured, Event::Cleanup).unwrap(), Phase::Cleaned);
    assert_eq!(step(failed, Event::Cleanup).unwrap(), Phase::Cleaned);
}

#[test]
fn cleanup_is_admitted_everywhere() {
    for p in [
        Phase::Created,
        Phase::FilesWritten,
        Phase::Launched,
        Phase::OutputCaptured,
        Phase::LaunchFailed,
        Phase::Cleaned,
    ] {
        assert_eq!(step(p, Event::Cleanup).unwrap(), Phase::Cleaned);
    }
}

#[test]
fn out_of_order_events_are_refused() {
    assert!(step(Phase::Created, Event::OutputReturned).is_none());
    assert!(step(Phase::Created, Event::LaunchStarted).is_none());
    assert!(step(Phase::FilesWritten, Event::WriteFinished).is_none());
    assert!(step(Phase::Cleaned, Event::WriteFinished).is_none());
    assert!(step(Phase::OutputCaptured, Event::LaunchStarted).is_none());
}
