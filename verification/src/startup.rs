//! The whole of startup: from what the process found around it to what it launches.

use vstd::prelude::*;
use crate::child_env::{assemble_env, assembled, assembled_holds_what_was_given, ChildEnv};
use crate::config::{
    base_dir,
    resolve_config,
    resolved_config,
    resolved_port,
    Config,
    ConfigError,
    DATA_DIR_VAR,
    PORT_VAR,
};
use crate::notify::{announcement, READY_EVENT};
use crate::sidecar::{sidecar_binary, sidecar_name, Platform};

verus! {

/// What the process found around it. `None` stands for a variable that is not set, or for
/// a directory lookup that failed.
#[derive(Debug, Clone, PartialEq, Eq)]
pub struct Surroundings {
    pub port_var: Option<String>,
    pub data_dir_var: Option<String>,
    pub stockfish_path_var: Option<String>,
    pub app_data_dir: Option<String>,
    pub home_dir: Option<String>,
}

/// What to launch, and with which environment.
pub struct StartupPlan {
    pub config: Config,
    pub sidecar: String,
    pub child_env: ChildEnv,
}

impl Surroundings {
    /// The configuration that these surroundings resolve to, if any.
    pub open spec fn config(&self) -> Option<crate::config::ConfigView> {
        resolved_config(
            self.port_var.deep_view(),
            self.data_dir_var.deep_view(),
            self.app_data_dir.deep_view(),
            self.home_dir.deep_view(),
        )
    }
}

impl StartupPlan {
    /// The plan is the one that `found` and `platform` call for.
    pub open spec fn follows(&self, found: Surroundings, platform: Platform) -> bool {
        &&& found.config() == Some(self.config@)
        &&& self.sidecar@ == sidecar_name(platform)
        &&& self.child_env@ == assembled(
            self.config@.port,
            self.config@.data_dir,
            found.stockfish_path_var.deep_view(),
        )
    }
}

/// Plans the launch of the backend. It fails exactly when no base directory was found.
pub fn plan_startup(found: Surroundings, platform: Platform) -> (plan: Result<
    StartupPlan,
    ConfigError,
>)
    ensures
        match plan {
            Ok(p) => p.follows(found, platform),
            Err(e) => found.config() is None && e == ConfigError::NoBaseDirectory,
        },
{
    let Surroundings { port_var, data_dir_var, stockfish_path_var, app_data_dir, home_dir } = found;
    match resolve_config(port_var, data_dir_var, app_data_dir, home_dir) {
        Ok(config) => {
            let child_env = assemble_env(
                config.port.as_str(),
                config.data_dir.as_str(),
                stockfish_path_var,
            );
            let sidecar = String::from_str(sidecar_binary(platform));
            Ok(StartupPlan { config, sidecar, child_env })
        },
        Err(e) => Err(e),
    }
}

/// Where a base directory was found, the backend's environment carries the resolved port and
/// data directory, and the event emitted to a main window that exists carries that same port.
pub proof fn child_and_window_get_the_same_port(found: Surroundings)
    requires
        base_dir(found.app_data_dir.deep_view(), found.home_dir.deep_view()) is Some,
    ensures
        found.config() matches Some(config) && {
            let env = assembled(config.port, config.data_dir, found.stockfish_path_var.deep_view());
            &&& config.port == resolved_port(found.port_var.deep_view())
            &&& env.contains_key(PORT_VAR@) && env[PORT_VAR@] == config.port
            &&& env.contains_key(DATA_DIR_VAR@) && env[DATA_DIR_VAR@] == config.data_dir
            &&& (found.data_dir_var.deep_view() matches Some(dir) ==> config.data_dir == dir)
            &&& announcement(true, config.port) matches Some(event) && event.name == READY_EVENT@
                && event.payload == env[PORT_VAR@]
        },
{
    let config = found.config()->0;
    assembled_holds_what_was_given(
        config.port,
        config.data_dir,
        found.stockfish_path_var.deep_view(),
    );
}

} // verus!
