use gourmet_client::pipeline::{
    after_check, after_download, next_action, CheckOutcome, UpdateAction, UpdateCommand,
    UpdateState,
};

fn s(x: &str) -> String {
    x.to_string()
}

#[test]
fn every_command_checks_first() {
    for c in [UpdateCommand::Check, UpdateCommand::Download, UpdateCommand::Install] {
        assert_eq!(next_action(c, &UpdateState::Idle), UpdateAction::CheckFeed);
    }
}

#[test]
fn check_reports_the_available_version() {
    let st = after_check(CheckOutcome::Available(s("2.0.0")));
    assert_eq!(st, UpdateState::Available(s("2.0.0")));
    assert_eq!(next_action(UpdateCommand::Check, &st), UpdateAction::Finish(Some(s("2.0.0"))));
}

#[test]
fn check_when_up_to_date_reports_none() {
    let st = after_check(CheckOutcome::UpToDate);
    assert_eq!(next_action(UpdateCommand::Check, &st), UpdateAction::Finish(None));
}

#[test]
fn download_then_answer_the_version() {
    let st = after_check(CheckOutcome::Available(s("2.0.0")));
    assert_eq!(next_action(UpdateCommand::Download, &st), UpdateAction::Download(s("2.0.0")));
    let (st2, answer) = after_download(st, Ok(()));
    assert_eq!(st2, UpdateState::Downloaded(s("2.0.0")));
    assert_eq!(answer, Ok(Some(s("2.0.0"))));
    assert_eq!(next_action(UpdateCommand::Install, &st2), UpdateAction::Apply(s("2.0.0")));
    assert_eq!(next_action(UpdateCommand::Download, &st2), UpdateAction::Finish(Some(s("2.0.0"))));
}

#[test]
fn failed_download_goes_back_to_available() {
    let st = UpdateState::Available(s("2.0.0"));
    let (st2, answer) = after_download(st, Err(s("Failed to download update: refused")));
    assert_eq!(st2, UpdateState::Available(s("2.0.0")));
    assert_eq!(answer, Err(s("Failed to download update: refused")));
}

#[test]
fn install_with_nothing_available_does_nothing() {
    let st = after_check(CheckOutcome::UpToDate);
    assert_eq!(next_action(UpdateCommand::Install, &st), UpdateAction::Finish(None));
    assert_eq!(next_action(UpdateCommand::Download, &st), UpdateAction::Finish(None));
}

#[test]
fn install_applies_an_available_release() {
    let st = after_check(CheckOutcome::Available(s("3.1.0")));
    assert_eq!(next_action(UpdateCommand::Install, &st), UpdateAction::Apply(s("3.1.0")));
}
