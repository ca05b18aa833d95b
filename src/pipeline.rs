//! The update pipeline's decisions: from what the last check found and
//! what the caller asked for, the next thing to do. The caller performs
//! each action (a feed check, a download, an apply) and reports back.
use vstd::prelude::*;

verus! {

/// What a check of the release feed found.
#[derive(Debug, Clone, PartialEq, Eq)]
pub enum CheckOutcome {
    UpToDate,
    /// A newer release, by its version.
    Available(String),
}

/// Where the pipeline stands.
#[derive(Debug, Clone, PartialEq, Eq)]
pub enum UpdateState {
    Idle,
    UpToDate,
    Available(String),
    Downloaded(String),
}

/// What the caller asks of the pipeline.
#[derive(Debug, Clone, Copy, PartialEq, Eq, Structural)]
pub enum UpdateCommand {
    Check,
    Download,
    Install,
}

/// The next thing to do.
#[derive(Debug, Clone, PartialEq, Eq)]
pub enum UpdateAction {
    /// Check the release feed.
    CheckFeed,
    /// Download the release of this version.
    Download(String),
    /// Apply the release of this version and restart.
    Apply(String),
    /// Stop and answer the caller with this version, if any.
    Finish(Option<String>),
}

/// The state a check leads to.
pub open spec fn state_after_check(outcome: CheckOutcome) -> UpdateState {
    match outcome {
        CheckOutcome::UpToDate => UpdateState::UpToDate,
        CheckOutcome::Available(v) => UpdateState::Available(v),
    }
}

/// The next action for a command in a state. Every command starts with a
/// check; a download is made only from `Available`; an apply only from
/// `Available` or `Downloaded`; with nothing available every command
/// finishes with no version.
pub open spec fn action_for(command: UpdateCommand, state: UpdateState) -> UpdateAction {
    match state {
        UpdateState::Idle => UpdateAction::CheckFeed,
        UpdateState::UpToDate => UpdateAction::Finish(None),
        UpdateState::Available(v) => match command {
            UpdateCommand::Check => UpdateAction::Finish(Some(v)),
            UpdateCommand::Download => UpdateAction::Download(v),
            UpdateCommand::Install => UpdateAction::Apply(v),
        },
        UpdateState::Downloaded(v) => match command {
            UpdateCommand::Install => UpdateAction::Apply(v),
            _ => UpdateAction::Finish(Some(v)),
        },
    }
}

/// The state a check leads to.
pub fn after_check(outcome: CheckOutcome) -> (r: UpdateState)
    ensures
        r == state_after_check(outcome),
{
    match outcome {
        CheckOutcome::UpToDate => UpdateState::UpToDate,
        CheckOutcome::Available(v) => UpdateState::Available(v),
    }
}

/// The next action for a command in a state.
pub fn next_action(command: UpdateCommand, state: &UpdateState) -> (r: UpdateAction)
    ensures
        r == action_for(command, *state),
{
    match state {
        UpdateState::Idle => UpdateAction::CheckFeed,
        UpdateState::UpToDate => UpdateAction::Finish(None),
        UpdateState::Available(v) => match command {
            UpdateCommand::Check => UpdateAction::Finish(Some(v.clone())),
            UpdateCommand::Download => UpdateAction::Download(v.clone()),
            UpdateCommand::Install => UpdateAction::Apply(v.clone()),
        },
        UpdateState::Downloaded(v) => match command {
            UpdateCommand::Install => UpdateAction::Apply(v.clone()),
            _ => UpdateAction::Finish(Some(v.clone())),
        },
    }
}

/// The state and the answer after a download from `Available`: on success
/// the release is downloaded and its version is the answer; on failure the
/// state goes back to `Available` and the error is the answer.
pub fn after_download(state: UpdateState, outcome: Result<(), String>) -> (r: (
    UpdateState,
    Result<Option<String>, String>,
))
    requires
        state is Available,
    ensures
        match outcome {
            Ok(()) => r == (
                UpdateState::Downloaded(state->Available_0),
                Ok::<Option<String>, String>(Some(state->Available_0)),
            ),
            Err(e) => r == (state, Err::<Option<String>, String>(e)),
        },
{
    match outcome {
        Ok(()) => {
            let v = match &state {
                UpdateState::Available(v) => v.clone(),
                _ => String::new(),
            };
            let w = v.clone();
            (UpdateState::Downloaded(v), Ok(Some(w)))
        },
        Err(e) => (state, Err(e)),
    }
}

/// When the check finds nothing newer, an install neither downloads nor
/// applies anything: it finishes at once, with nothing to report.
pub proof fn install_without_update_is_a_no_op()
    ensures
        action_for(UpdateCommand::Install, state_after_check(CheckOutcome::UpToDate))
            == UpdateAction::Finish(None),
        action_for(UpdateCommand::Download, state_after_check(CheckOutcome::UpToDate))
            == UpdateAction::Finish(None),
{
}

/// Whatever the command, a pipeline that has not checked yet checks first,
/// and only a check that found a release leads to a download or an apply.
pub proof fn work_only_after_a_release_is_found(command: UpdateCommand, outcome: CheckOutcome)
    ensures
        action_for(command, UpdateState::Idle) == UpdateAction::CheckFeed,
        (action_for(command, state_after_check(outcome)) is Download || action_for(
            command,
            state_after_check(outcome),
        ) is Apply) ==> outcome is Available,
{
}

} // verus!
