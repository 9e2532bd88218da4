use v12::runner::{process_file, Action, Event, IoStep, RunError, Stage};

#[test]
fn successful_run_removes_the_artifact() {
    let (mut inv, a) = process_file("script.ts");
    assert!(matches!(a, Action::ReadSource(ref p) if p == "script.ts"));
    assert_eq!(inv.artifact_path, "script.ts.js");
    let a = inv.step(Event::SourceRead("let x: number = 1;".to_string()));
    assert!(matches!(a, Action::WriteArtifact(ref p, ref t) if p == "script.ts.js" && t == "let x = 1;"));
    assert_eq!(inv.stage, Stage::Erased);
    let a = inv.step(Event::ArtifactWritten);
    assert!(matches!(a, Action::Execute(ref p) if p == "script.ts.js"));
    assert!(inv.artifact_on_disk);
    let a = inv.step(Event::ScriptSucceeded);
    assert!(matches!(a, Action::RemoveArtifact(ref p) if p == "script.ts.js"));
    let a = inv.step(Event::ArtifactRemoved);
    assert!(matches!(a, Action::Finish(Ok(()))));
    assert_eq!(inv.stage, Stage::Done);
    assert!(!inv.artifact_on_disk);
}

#[test]
fn failed_script_is_still_cleaned_up() {
    let (mut inv, _) = process_file("bad.ts");
    inv.step(Event::SourceRead("throw 1;".to_string()));
    inv.step(Event::ArtifactWritten);
    let a = inv.step(Event::ScriptFailed);
    assert!(matches!(a, Action::RemoveArtifact(ref p) if p == "bad.ts.js"));
    assert_eq!(inv.stage, Stage::CleaningUp);
    let a = inv.step(Event::ArtifactRemoved);
    assert!(matches!(a, Action::Finish(Err(RunError::Execution))));
    assert!(!inv.artifact_on_disk);
}

#[test]
fn missing_source_fails_without_an_artifact() {
    let (mut inv, _) = process_file("missing.ts");
    let a = inv.step(Event::SourceUnreadable);
    assert!(matches!(a, Action::Finish(Err(RunError::Io(IoStep::ReadSource)))));
    assert_eq!(inv.stage, Stage::Done);
    assert!(!inv.artifact_on_disk);
    assert!(!inv.reached_executing);
    assert!(matches!(inv.step(Event::ArtifactWritten), Action::Ignore));
    assert_eq!(inv.stage, Stage::Done);
}

#[test]
fn unwritable_artifact_fails_the_run() {
    let (mut inv, _) = process_file("a.ts");
    inv.step(Event::SourceRead(String::new()));
    let a = inv.step(Event::ArtifactUnwritable);
    assert!(matches!(a, Action::Finish(Err(RunError::Io(IoStep::WriteArtifact)))));
    assert!(!inv.reached_executing);
}

#[test]
fn failed_removal_is_its_own_error() {
    let (mut inv, _) = process_file("a.ts");
    inv.step(Event::SourceRead(String::new()));
    inv.step(Event::ArtifactWritten);
    inv.step(Event::ScriptSucceeded);
    let a = inv.step(Event::ArtifactNotRemoved);
    assert!(matches!(a, Action::Finish(Err(RunError::Io(IoStep::RemoveArtifact)))));
    assert!(inv.artifact_on_disk);
    assert!(inv.removal_failed);
}

#[test]
fn script_failure_outranks_a_later_removal_failure() {
    let (mut inv, _) = process_file("a.ts");
    inv.step(Event::SourceRead(String::new()));
    inv.step(Event::ArtifactWritten);
    inv.step(Event::ScriptFailed);
    let a = inv.step(Event::ArtifactNotRemoved);
    assert!(matches!(a, Action::Finish(Err(RunError::Execution))));
    assert!(inv.removal_failed);
}

#[test]
fn unexpected_event_is_ignored() {
    let (mut inv, _) = process_file("a.ts");
    assert!(!inv.awaits(&Event::ScriptSucceeded));
    assert!(matches!(inv.step(Event::ScriptSucceeded), Action::Ignore));
    assert_eq!(inv.stage, Stage::Erasing);
    assert!(inv.awaits(&Event::SourceUnreadable));
    assert_eq!(inv.result(), Ok(()));
}
