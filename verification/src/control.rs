use vstd::prelude::*;

use crate::config::{config_accepted, config_error_fits, validate_config, AppConfig};
use crate::error::ProxyError;
use crate::text::str_eq;

verus! {

/// What starting the proxy comes to.
#[derive(Debug, PartialEq, Eq, Structural)]
pub enum StartStep {
    /// The proxy already runs: nothing to do.
    AlreadyRunning,
    /// Bind the listening address and serve.
    Listen,
}

/// Decides what a request to start the proxy does. `running` says whether
/// it already runs; `listen_host_error` is the outcome of parsing
/// `listen_host` as an IP address (`None` when it is one).
pub fn plan_start(config: &AppConfig, running: bool, listen_host_error: Option<String>) -> (r: Result<StartStep, ProxyError>)
    ensures
        running ==> r == Ok::<StartStep, ProxyError>(StartStep::AlreadyRunning),
        !running ==> (r is Ok <==> config_accepted(*config, listen_host_error is None)),
        !running && r is Ok ==> r == Ok::<StartStep, ProxyError>(StartStep::Listen),
        r matches Err(e) ==> config_error_fits(*config, listen_host_error, e),
{
    if running {
        return Ok(StartStep::AlreadyRunning);
    }
    match validate_config(config, listen_host_error) {
        Ok(()) => Ok(StartStep::Listen),
        Err(e) => Err(e),
    }
}

/// The steps of saving a new configuration: stop the proxy first and start
/// it again afterwards exactly when it was running.
#[derive(Debug, PartialEq, Eq, Structural)]
pub struct SaveSteps {
    pub stop_first: bool,
    pub restart_after: bool,
}

/// Decides how a new configuration is saved, or refuses it before anything
/// is stopped or written.
pub fn plan_save(config: &AppConfig, was_running: bool, listen_host_error: Option<String>) -> (r: Result<SaveSteps, ProxyError>)
    ensures
        r is Ok <==> config_accepted(*config, listen_host_error is None),
        r matches Ok(steps) ==> steps.stop_first == was_running && steps.restart_after == was_running,
        r matches Err(e) ==> config_error_fits(*config, listen_host_error, e),
{
    match validate_config(config, listen_host_error) {
        Ok(()) => Ok(SaveSteps { stop_first: was_running, restart_after: was_running }),
        Err(e) => Err(e),
    }
}

/// What a tray menu entry does.
#[derive(Debug, PartialEq, Eq, Structural)]
pub enum TrayAction {
    ShowWindow,
    StartProxy,
    StopProxy,
    Quit,
    Nothing,
}

/// The action of a tray menu entry: `show`, `toggle` (stop a running
/// proxy, start a stopped one) and `quit`; other entries do nothing.
pub open spec fn tray_action_of(menu_id: Seq<char>, running: bool) -> TrayAction {
    if menu_id == "show"@ {
        TrayAction::ShowWindow
    } else if menu_id == "toggle"@ {
        if running {
            TrayAction::StopProxy
        } else {
            TrayAction::StartProxy
        }
    } else if menu_id == "quit"@ {
        TrayAction::Quit
    } else {
        TrayAction::Nothing
    }
}

/// The action of a tray menu entry, given whether the proxy runs.
pub fn tray_action(menu_id: &str, running: bool) -> (r: TrayAction)
    ensures
        r == tray_action_of(menu_id@, running),
{
    if str_eq(menu_id, "show") {
        TrayAction::ShowWindow
    } else if str_eq(menu_id, "toggle") {
        if running {
            TrayAction::StopProxy
        } else {
            TrayAction::StartProxy
        }
    } else if str_eq(menu_id, "quit") {
        TrayAction::Quit
    } else {
        TrayAction::Nothing
    }
}

} // verus!
