use vstd::prelude::*;

use crate::dependency::{full_path_spec, macro_map_spec, Dependency};
use crate::error::DerpyError;
use crate::expand::{
    cmd_expands, expand_cmd_spec, expand_list_spec, expand_vcs_command, expand_vcs_command_list,
    first_failing_cmd, first_failing_token, is_expansion_failure, list_expands,
};
use crate::log::Log;
use crate::runner::{is_run_failure, rec_for, rec_stdout, rec_success, CmdRecord, Runner};
use crate::runner::seq_run_post;
use crate::text::{is_trimmed, trim_str};
use crate::{VcsCommand, VcsCommandList};

verus! {

/// The macro table of the checkout operation: the dependency's own table
/// with `DEP_VERSION` overridden to the version being checked out.
pub open spec fn checkout_macro_map(dep: Dependency, at_version: Seq<char>) -> Map<
    Seq<char>,
    Seq<char>,
> {
    macro_map_spec(dep).insert("DEP_VERSION"@, at_version)
}

/// A named, declarative protocol for one version-control tool: five command
/// templates the operations below expand and run. Descriptors are data; no
/// code changes when a backend is added.
#[derive(Debug, Clone, PartialEq)]
pub struct VcsInfo {
    pub name: String,
    pub get_version: VcsCommand,
    pub default_version: String,
    pub acquire: VcsCommandList,
    pub checkout: VcsCommandList,
    pub upgrade: VcsCommandList,
    pub get_version_of: VcsCommand,
}

/// How `VcsInfo::get_version` left the history and what it returned: one
/// record, the unexpanded probe command in the caller's own directory; on
/// success the trimmed captured output.
pub open spec fn probe_tool_post(
    vcs: VcsInfo,
    h0: Seq<CmdRecord>,
    h1: Seq<CmdRecord>,
    r: Result<String, DerpyError>,
) -> bool {
    &&& h1.len() == h0.len() + 1
    &&& h1.subrange(0, h0.len() as int) == h0
    &&& rec_for(h1.last(), vcs.get_version.deep_view(), None)
    &&& (r is Ok <==> rec_success(h1.last()))
    &&& r is Ok ==> is_trimmed(rec_stdout(h1.last()), r->Ok_0@)
    &&& r is Err ==> is_run_failure(r->Err_0, h1.last())
}

/// How `VcsInfo::get_version_of` left the history and what it returned: if
/// the probe template does not expand, nothing ran and the expansion failure
/// names the first offending token; otherwise one record, the expanded probe
/// inside the working copy, and on success the trimmed captured output.
pub open spec fn report_version_post(
    vcs: VcsInfo,
    dep: Dependency,
    h0: Seq<CmdRecord>,
    h1: Seq<CmdRecord>,
    r: Result<String, DerpyError>,
) -> bool {
    let m = macro_map_spec(dep);
    if !cmd_expands(vcs.get_version_of.deep_view(), m) {
        &&& h1 == h0
        &&& r is Err
        &&& exists|i: int|
            first_failing_token(vcs.get_version_of.deep_view(), m, i) && is_expansion_failure(
                r->Err_0,
                vcs.get_version_of.deep_view()[i],
                m,
            )
    } else {
        &&& h1.len() == h0.len() + 1
        &&& h1.subrange(0, h0.len() as int) == h0
        &&& rec_for(
            h1.last(),
            expand_cmd_spec(vcs.get_version_of.deep_view(), m),
            Some(full_path_spec(dep)),
        )
        &&& (r is Ok <==> rec_success(h1.last()))
        &&& r is Ok ==> is_trimmed(rec_stdout(h1.last()), r->Ok_0@)
        &&& r is Err ==> is_run_failure(r->Err_0, h1.last())
    }
}

/// How an operation that runs one of the descriptor's command lists left the
/// history: if some token of `list` does not expand under `m`, nothing ran
/// and the failure names the first such token; otherwise the expanded list
/// ran in `cwd`, commitment-per-command.
pub open spec fn run_list_post(
    list: Seq<Seq<Seq<char>>>,
    m: Map<Seq<char>, Seq<char>>,
    cwd: Option<Seq<char>>,
    h0: Seq<CmdRecord>,
    h1: Seq<CmdRecord>,
    r: Result<(), DerpyError>,
) -> bool {
    if !list_expands(list, m) {
        &&& h1 == h0
        &&& r is Err
        &&& exists|ci: int, ti: int|
            first_failing_cmd(list, m, ci) && first_failing_token(list[ci], m, ti)
                && is_expansion_failure(r->Err_0, list[ci][ti], m)
    } else {
        seq_run_post(h0, h1, expand_list_spec(list, m), cwd, r)
    }
}

/// `VcsInfo::acquire` runs the acquire templates, expanded against the
/// dependency's table, inside the target directory.
pub open spec fn fetch_post(
    vcs: VcsInfo,
    dep: Dependency,
    h0: Seq<CmdRecord>,
    h1: Seq<CmdRecord>,
    r: Result<(), DerpyError>,
) -> bool {
    run_list_post(vcs.acquire.deep_view(), macro_map_spec(dep), Some(dep.target@), h0, h1, r)
}

/// `VcsInfo::checkout` runs the checkout templates, expanded with
/// `DEP_VERSION` overridden to the target version, inside the working copy.
pub open spec fn checkout_post(
    vcs: VcsInfo,
    dep: Dependency,
    at_version: Seq<char>,
    h0: Seq<CmdRecord>,
    h1: Seq<CmdRecord>,
    r: Result<(), DerpyError>,
) -> bool {
    run_list_post(
        vcs.checkout.deep_view(),
        checkout_macro_map(dep, at_version),
        Some(full_path_spec(dep)),
        h0,
        h1,
        r,
    )
}

/// `VcsInfo::upgrade` runs the upgrade templates, expanded against the
/// dependency's table, inside the working copy.
pub open spec fn upgrade_post(
    vcs: VcsInfo,
    dep: Dependency,
    h0: Seq<CmdRecord>,
    h1: Seq<CmdRecord>,
    r: Result<(), DerpyError>,
) -> bool {
    run_list_post(
        vcs.upgrade.deep_view(),
        macro_map_spec(dep),
        Some(full_path_spec(dep)),
        h0,
        h1,
        r,
    )
}

impl VcsInfo {
    pub fn get_name(&self) -> (r: &str)
        ensures
            r@ == self.name@,
    {
        self.name.as_str()
    }

    pub fn get_default_version(&self) -> (r: &str)
        ensures
            r@ == self.default_version@,
    {
        self.default_version.as_str()
    }

    /// Reports the installed backend tool's own version: runs the probe
    /// command as written (no macros), in the caller's current directory.
    /// Callers treat a failure as "version unknown", not as an error.
    pub fn get_version(&self, log: &Log, runner: &mut Runner) -> (r: Result<String, DerpyError>)
        ensures
            probe_tool_post(*self, old(runner).history@, final(runner).history@, r),
    {
        let result = runner.run_cmd(log, &self.get_version, &None);
        proof {
            assert(runner.history@.subrange(0, old(runner).history@.len() as int) =~= old(
                runner,
            ).history@);
        }
        let (stdout, _stderr) = match result {
            Ok(streams) => streams,
            Err(e) => {
                return Err(e);
            },
        };
        Ok(trim_str(stdout.as_str()))
    }

    /// Fetches a fresh working copy of the dependency, inside its target
    /// directory; the backend's own commands create `target/name`.
    pub fn acquire(&self, log: &Log, runner: &mut Runner, dependency: &Dependency) -> (r: Result<
        (),
        DerpyError,
    >)
        ensures
            fetch_post(*self, *dependency, old(runner).history@, final(runner).history@, r),
    {
        let macros = dependency.build_macro_map();
        let cmd = match expand_vcs_command_list(&self.acquire, &macros) {
            Ok(c) => c,
            Err(e) => {
                return Err(e);
            },
        };
        let cwd = Some(dependency.target.clone());
        runner.run_cmd_sequence(log, &cmd, &cwd)
    }

    /// Checks the existing working copy out at `at_version`.
    pub fn checkout(
        &self,
        log: &Log,
        runner: &mut Runner,
        dependency: &Dependency,
        at_version: &str,
    ) -> (r: Result<(), DerpyError>)
        ensures
            checkout_post(
                *self,
                *dependency,
                at_version@,
                old(runner).history@,
                final(runner).history@,
                r,
            ),
    {
        let mut macros = dependency.build_macro_map();
        macros.insert("DEP_VERSION".to_owned(), at_version.to_owned());
        let cmd = match expand_vcs_command_list(&self.checkout, &macros) {
            Ok(c) => c,
            Err(e) => {
                return Err(e);
            },
        };
        let cwd = Some(dependency.get_full_path());
        runner.run_cmd_sequence(log, &cmd, &cwd)
    }

    /// Advances the existing working copy to the backend's latest revision.
    pub fn upgrade(&self, log: &Log, runner: &mut Runner, dependency: &Dependency) -> (r: Result<
        (),
        DerpyError,
    >)
        ensures
            upgrade_post(*self, *dependency, old(runner).history@, final(runner).history@, r),
    {
        let macros = dependency.build_macro_map();
        let cmd = match expand_vcs_command_list(&self.upgrade, &macros) {
            Ok(c) => c,
            Err(e) => {
                return Err(e);
            },
        };
        let cwd = Some(dependency.get_full_path());
        runner.run_cmd_sequence(log, &cmd, &cwd)
    }

    /// Reports the version the working copy is checked out at: runs the
    /// expanded probe inside the working copy and trims its output.
    pub fn get_version_of(
        &self,
        log: &Log,
        runner: &mut Runner,
        dependency: &Dependency,
    ) -> (r: Result<String, DerpyError>)
        ensures
            report_version_post(
                *self,
                *dependency,
                old(runner).history@,
                final(runner).history@,
                r,
            ),
    {
        let macros = dependency.build_macro_map();
        let cmd = match expand_vcs_command(&self.get_version_of, &macros) {
            Ok(c) => c,
            Err(e) => {
                return Err(e);
            },
        };
        let cwd = Some(dependency.get_full_path());
        let result = runner.run_cmd(log, &cmd, &cwd);
        proof {
            assert(runner.history@.subrange(0, old(runner).history@.len() as int) =~= old(
                runner,
            ).history@);
        }
        let (stdout, _stderr) = match result {
            Ok(streams) => streams,
            Err(e) => {
                return Err(e);
            },
        };
        Ok(trim_str(stdout.as_str()))
    }
}

} // verus!
