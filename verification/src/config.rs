//! The stored configuration and the rule for pointing it at a new root.

use crate::cli::Commands;
use crate::error::ParaError;
use vstd::prelude::*;

verus! {

/// What is kept between invocations: the root and the naming mode.
#[derive(Debug, Clone)]
pub struct AppConfig {
    pub root_dir: String,
    pub use_prefix: bool,
}

impl AppConfig {
    /// The configuration of a first run: the current directory, plain names.
    pub fn first_run(cwd: &str) -> (r: AppConfig)
        ensures
            r.root_dir@ == cwd@,
            !r.use_prefix,
    {
        AppConfig { root_dir: String::from_str(cwd), use_prefix: false }
    }

    /// Whether an `init` in `cwd` is allowed: the stored root is `cwd`, or the
    /// caller forces the change.
    pub open spec fn may_reinit(&self, cwd: Seq<char>, force: bool) -> bool {
        self.root_dir@ == cwd || force
    }

    /// `r` is what an `init` in `cwd` gives: where it is allowed, the
    /// configuration with `cwd` as root and the naming mode asked for;
    /// otherwise the mismatch of the stored root and `cwd`.
    pub open spec fn reinit_spec(
        &self,
        cwd: Seq<char>,
        force: bool,
        numbered: bool,
        r: Result<AppConfig, ParaError>,
    ) -> bool {
        &&& self.may_reinit(cwd, force) ==> (r matches Ok(c) && c.root_dir@ == cwd && c.use_prefix
            == numbered)
        &&& !self.may_reinit(cwd, force) ==> (r matches Err(e) && e.is_config_mismatch(
            self.root_dir@,
            cwd,
        ))
    }

    /// The configuration that an `init` in `cwd` stores. A root other than
    /// `cwd` is replaced only when `force` is set; without it the call fails
    /// and nothing is to be stored.
    pub fn reinit(self, cwd: &str, force: bool, numbered: bool) -> (r: Result<AppConfig, ParaError>)
        ensures
            self.reinit_spec(cwd@, force, numbered, r),
    {
        let current = String::from_str(cwd);
        if self.root_dir == current || force {
            Ok(AppConfig { root_dir: current, use_prefix: numbered })
        } else {
            Err(ParaError::ConfigMismatch { configured: self.root_dir, current })
        }
    }

    /// The configuration under which `command` runs in `cwd`. Only `Init`
    /// touches it, by the rule of `reinit`; every other command runs under
    /// the stored one.
    pub fn for_command(self, command: &Commands, cwd: &str) -> (r: Result<AppConfig, ParaError>)
        ensures
            *command matches Commands::Init { force, numbered } ==> self.reinit_spec(
                cwd@,
                force,
                numbered,
                r,
            ),
            !(command is Init) ==> r == Ok::<AppConfig, ParaError>(self),
    {
        match command {
            Commands::Init { force, numbered } => self.reinit(cwd, *force, *numbered),
            _ => Ok(self),
        }
    }
}

} // verus!
