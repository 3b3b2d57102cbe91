//! The settings that choose how the engine is reached.

use vstd::prelude::*;

verus! {

/// How to reach the engine.
#[derive(Debug, Clone)]
pub struct AppConfig {
    /// An explicit engine address. Without one, `DOCKER_HOST` is used where it
    /// is set, and the platform's default otherwise.
    pub docker_host: Option<String>,
    /// With a distribution name, such as `Ubuntu-22.04`, the engine is reached
    /// through `docker` inside that WSL distribution (Windows only).
    pub wsl_distro: Option<String>,
}

impl Default for AppConfig {
    fn default() -> (r: AppConfig)
        ensures
            r.docker_host is None,
            r.wsl_distro is None,
    {
        AppConfig { docker_host: None, wsl_distro: None }
    }
}

} // verus!
