use vstd::prelude::*;

use crate::dependency::{full_path_spec, macro_map_spec, Dependency};
use crate::error::DerpyError;
use crate::expand::{cmd_expands, expand_cmd_spec};
use crate::log::Log;
use crate::runner::{rec_for, rec_stdout, rec_success, CmdRecord, Runner};
use crate::text::{is_trimmed, lemma_trim_unique};
use crate::vcs::{checkout_post, fetch_post, report_version_post, upgrade_post, VcsInfo};

verus! {

/// What the caller wants done with one dependency.
#[derive(Debug, Clone, PartialEq)]
pub enum AcquireMode {
    /// Fetch the working copy if it is absent; leave an existing one alone.
    Acquire,
    /// Pin an existing working copy to an explicit version.
    LockTo { version: String },
    /// Advance an existing working copy to the backend's latest revision.
    Upgrade,
}

/// What one acquisition did, reported exactly once per invocation.
#[derive(Debug, Clone, PartialEq)]
pub enum AcquireOutcome {
    /// A fresh working copy was fetched; it reports this version.
    Acquired { at_version: String },
    /// An existing working copy was checked out to the requested version.
    Restored { from_version: String, to_version: String },
    /// An existing working copy was advanced and its version changed.
    UpgradedTo { from_version: String, to_version: String },
    /// The working copy already was at the requested version.
    NoChange { current_version: String },
    /// A plain acquire found an existing working copy and left it untouched.
    Ignored { at_version: String },
}

/// What the caller found and prepared on disk before deciding: the target
/// directory could not be created, or it exists and the working copy
/// `target/name` is absent or present.
#[derive(Debug, Clone, PartialEq)]
pub enum DiskState {
    DirCreateFailed { message: String },
    Absent,
    Present,
}

pub open spec fn opt_vcs(vcs: Option<&VcsInfo>) -> Option<VcsInfo> {
    match vcs {
        Some(v) => Some(*v),
        None => None,
    }
}

/// What `acquire` did after the probe of an existing working copy reported
/// `current`: a plain acquire leaves the copy untouched; a pin checks out
/// only when the versions differ; an upgrade advances, probes again, and
/// reports a change only when the probe says so.
pub open spec fn present_post(
    v: VcsInfo,
    dep: Dependency,
    mode: AcquireMode,
    current: String,
    hm: Seq<CmdRecord>,
    h1: Seq<CmdRecord>,
    r: Result<AcquireOutcome, DerpyError>,
) -> bool {
    match mode {
        AcquireMode::Acquire => h1 == hm && r == Ok::<AcquireOutcome, DerpyError>(
            AcquireOutcome::Ignored { at_version: current },
        ),
        AcquireMode::LockTo { version } => {
            if current@ == version@ {
                h1 == hm && r == Ok::<AcquireOutcome, DerpyError>(
                    AcquireOutcome::NoChange { current_version: current },
                )
            } else {
                exists|cr: Result<(), DerpyError>|
                    #![trigger checkout_post(v, dep, version@, hm, h1, cr)]
                    checkout_post(v, dep, version@, hm, h1, cr) && match cr {
                        Err(e) => r == Err::<AcquireOutcome, DerpyError>(e),
                        Ok(_) => r == Ok::<AcquireOutcome, DerpyError>(
                            AcquireOutcome::Restored {
                                from_version: current,
                                to_version: version,
                            },
                        ),
                    }
            }
        },
        AcquireMode::Upgrade => exists|ur: Result<(), DerpyError>, hu: Seq<CmdRecord>|
            #![trigger upgrade_post(v, dep, hm, hu, ur)]
            upgrade_post(v, dep, hm, hu, ur) && match ur {
                Err(e) => h1 == hu && r == Err::<AcquireOutcome, DerpyError>(e),
                Ok(_) => exists|probe: Result<String, DerpyError>|
                    #![trigger report_version_post(v, dep, hu, h1, probe)]
                    report_version_post(v, dep, hu, h1, probe) && match probe {
                        Err(e) => r == Err::<AcquireOutcome, DerpyError>(e),
                        Ok(newv) => if newv@ != current@ {
                            r == Ok::<AcquireOutcome, DerpyError>(
                                AcquireOutcome::UpgradedTo {
                                    from_version: current,
                                    to_version: newv,
                                },
                            )
                        } else {
                            r == Ok::<AcquireOutcome, DerpyError>(
                                AcquireOutcome::NoChange { current_version: current },
                            )
                        },
                    },
            },
    }
}

/// `acquire` against an existing working copy: the probe ran first; if it
/// failed, its error is the result; otherwise the mode decided (see
/// `present_post`).
pub open spec fn present_case(
    v: VcsInfo,
    dep: Dependency,
    mode: AcquireMode,
    h0: Seq<CmdRecord>,
    h1: Seq<CmdRecord>,
    r: Result<AcquireOutcome, DerpyError>,
) -> bool {
    exists|probe: Result<String, DerpyError>, hm: Seq<CmdRecord>|
        #![trigger report_version_post(v, dep, h0, hm, probe)]
        report_version_post(v, dep, h0, hm, probe) && match probe {
            Err(e) => h1 == hm && r == Err::<AcquireOutcome, DerpyError>(e),
            Ok(current) => present_post(v, dep, mode, current, hm, h1, r),
        }
}

/// A plain `acquire` of an absent working copy: the fetch ran, and when it
/// succeeded, a probe reported the version actually obtained.
pub open spec fn absent_fetch_case(
    v: VcsInfo,
    dep: Dependency,
    h0: Seq<CmdRecord>,
    h1: Seq<CmdRecord>,
    r: Result<AcquireOutcome, DerpyError>,
) -> bool {
    exists|fr: Result<(), DerpyError>, hm: Seq<CmdRecord>|
        #![trigger fetch_post(v, dep, h0, hm, fr)]
        fetch_post(v, dep, h0, hm, fr) && match fr {
            Err(e) => h1 == hm && r == Err::<AcquireOutcome, DerpyError>(e),
            Ok(_) => exists|probe: Result<String, DerpyError>|
                #![trigger report_version_post(v, dep, hm, h1, probe)]
                report_version_post(v, dep, hm, h1, probe) && match probe {
                    Err(e) => r == Err::<AcquireOutcome, DerpyError>(e),
                    Ok(ver) => r == Ok::<AcquireOutcome, DerpyError>(
                        AcquireOutcome::Acquired { at_version: ver },
                    ),
                },
        }
}

/// The acquisition state machine, whole: what `acquire` ran and returned,
/// for every combination of installed descriptor, on-disk state and mode.
pub open spec fn acquire_post(
    vcs: Option<VcsInfo>,
    dep: Dependency,
    mode: AcquireMode,
    disk: DiskState,
    h0: Seq<CmdRecord>,
    h1: Seq<CmdRecord>,
    r: Result<AcquireOutcome, DerpyError>,
) -> bool {
    match vcs {
        None => h1 == h0 && (match r {
            Err(DerpyError::UnknownVcs { name }) => name@ == dep.vcs@,
            _ => false,
        }),
        Some(v) => match disk {
            DiskState::DirCreateFailed { message } => h1 == h0 && (match r {
                Err(DerpyError::FailedToCreateDirectory { message: m }) => m@ == message@,
                _ => false,
            }),
            DiskState::Present => present_case(v, dep, mode, h0, h1, r),
            DiskState::Absent => match mode {
                AcquireMode::Acquire => absent_fetch_case(v, dep, h0, h1, r),
                _ => h1 == h0 && (match r {
                    Err(DerpyError::NonsenseAcquireMode { dependency, acquire_mode }) => {
                        dependency@ == dep.name@ && acquire_mode == mode
                    },
                    _ => false,
                }),
            },
        },
    }
}

/// Brings one dependency's working copy to the state `acquire_mode` asks
/// for, by running the named backend's commands, and reports what happened.
/// `vcs` is the installed descriptor looked up under `dep.vcs`, if any;
/// `disk` is what the caller found and prepared on disk beforehand.
#[verifier::rlimit(60)]
pub fn acquire(
    log: &Log,
    runner: &mut Runner,
    dep: &Dependency,
    acquire_mode: AcquireMode,
    vcs: Option<&VcsInfo>,
    disk: DiskState,
) -> (r: Result<AcquireOutcome, DerpyError>)
    ensures
        acquire_post(
            opt_vcs(vcs),
            *dep,
            acquire_mode,
            disk,
            old(runner).history@,
            final(runner).history@,
            r,
        ),
{
    let vcs = match vcs {
        Some(v) => v,
        None => {
            return Err(DerpyError::UnknownVcs { name: dep.vcs.clone() });
        },
    };

    let present = match &disk {
        DiskState::DirCreateFailed { message } => {
            return Err(DerpyError::FailedToCreateDirectory { message: message.clone() });
        },
        DiskState::Present => true,
        DiskState::Absent => false,
    };

    if present {
        let probe = vcs.get_version_of(log, runner, dep);
        let ghost hm = runner.history@;
        let ghost probe_g = probe;
        let version = match probe {
            Ok(version) => version,
            Err(e) => {
                let r = Err::<AcquireOutcome, DerpyError>(e);
                proof {
                    assert(report_version_post(
                        *vcs,
                        *dep,
                        old(runner).history@,
                        hm,
                        probe_g,
                    ));
                    assert(present_case(
                        *vcs,
                        *dep,
                        acquire_mode,
                        old(runner).history@,
                        runner.history@,
                        r,
                    ));
                }
                return r;
            },
        };
        let ghost current_g = version;
        match acquire_mode {
            AcquireMode::Acquire => {
                let r = Ok::<AcquireOutcome, DerpyError>(
                    AcquireOutcome::Ignored { at_version: version },
                );
                proof {
                    assert(report_version_post(*vcs, *dep, old(runner).history@, hm, probe_g));
                    assert(present_post(
                        *vcs,
                        *dep,
                        acquire_mode,
                        current_g,
                        hm,
                        runner.history@,
                        r,
                    ));
                    assert(present_case(*vcs, *dep, acquire_mode, old(runner).history@, runner.history@, r));
                }
                r
            },
            AcquireMode::LockTo { version: locked_version } => {
                if version != locked_version {
                    let cr = vcs.checkout(log, runner, dep, locked_version.as_str());
                    let ghost cr_g = cr;
                    match cr {
                        Ok(_) => {
                            let r = Ok::<AcquireOutcome, DerpyError>(
                                AcquireOutcome::Restored {
                                    to_version: locked_version,
                                    from_version: version,
                                },
                            );
                            proof {
                                assert(report_version_post(
                                    *vcs,
                                    *dep,
                                    old(runner).history@,
                                    hm,
                                    probe_g,
                                ));
                                assert(present_post(
                                    *vcs,
                                    *dep,
                                    acquire_mode,
                                    current_g,
                                    hm,
                                    runner.history@,
                                    r,
                                ));
                                assert(present_case(*vcs, *dep, acquire_mode, old(runner).history@, runner.history@, r));
                            }
                            r
                        },
                        Err(e) => {
                            let r = Err::<AcquireOutcome, DerpyError>(e);
                            proof {
                                assert(report_version_post(
                                    *vcs,
                                    *dep,
                                    old(runner).history@,
                                    hm,
                                    probe_g,
                                ));
                                assert(present_post(
                                    *vcs,
                                    *dep,
                                    acquire_mode,
                                    current_g,
                                    hm,
                                    runner.history@,
                                    r,
                                ));
                                assert(present_case(*vcs, *dep, acquire_mode, old(runner).history@, runner.history@, r));
                            }
                            r
                        },
                    }
                } else {
                    let r = Ok::<AcquireOutcome, DerpyError>(
                        AcquireOutcome::NoChange { current_version: version },
                    );
                    proof {
                        assert(report_version_post(
                            *vcs,
                            *dep,
                            old(runner).history@,
                            hm,
                            probe_g,
                        ));
                        assert(present_post(
                            *vcs,
                            *dep,
                            acquire_mode,
                            current_g,
                            hm,
                            runner.history@,
                            r,
                        ));
                        assert(present_case(*vcs, *dep, acquire_mode, old(runner).history@, runner.history@, r));
                    }
                    r
                }
            },
            AcquireMode::Upgrade => {
                let ur = vcs.upgrade(log, runner, dep);
                let ghost hu = runner.history@;
                let ghost ur_g = ur;
                match ur {
                    Ok(_) => {
                        let probe2 = vcs.get_version_of(log, runner, dep);
                        let ghost probe2_g = probe2;
                        let r = match probe2 {
                            Ok(new_version) => {
                                if new_version != version {
                                    Ok::<AcquireOutcome, DerpyError>(
                                        AcquireOutcome::UpgradedTo {
                                            from_version: version,
                                            to_version: new_version,
                                        },
                                    )
                                } else {
                                    Ok::<AcquireOutcome, DerpyError>(
                                        AcquireOutcome::NoChange { current_version: version },
                                    )
                                }
                            },
                            Err(e) => Err::<AcquireOutcome, DerpyError>(e),
                        };
                        proof {
                            assert(report_version_post(
                                *vcs,
                                *dep,
                                old(runner).history@,
                                hm,
                                probe_g,
                            ));
                            assert(upgrade_post(*vcs, *dep, hm, hu, ur_g));
                            assert(report_version_post(*vcs, *dep, hu, runner.history@, probe2_g));
                            assert(present_post(
                                *vcs,
                                *dep,
                                acquire_mode,
                                current_g,
                                hm,
                                runner.history@,
                                r,
                            ));
                            assert(present_case(*vcs, *dep, acquire_mode, old(runner).history@, runner.history@, r));
                        }
                        r
                    },
                    Err(e) => {
                        let r = Err::<AcquireOutcome, DerpyError>(e);
                        proof {
                            assert(report_version_post(
                                *vcs,
                                *dep,
                                old(runner).history@,
                                hm,
                                probe_g,
                            ));
                            assert(upgrade_post(*vcs, *dep, hm, hu, ur_g));
                            assert(present_post(
                                *vcs,
                                *dep,
                                acquire_mode,
                                current_g,
                                hm,
                                runner.history@,
                                r,
                            ));
                            assert(present_case(*vcs, *dep, acquire_mode, old(runner).history@, runner.history@, r));
                        }
                        r
                    },
                }
            },
        }
    } else {
        match acquire_mode {
            AcquireMode::Acquire => {
                let fr = vcs.acquire(log, runner, dep);
                let ghost hm = runner.history@;
                let ghost fr_g = fr;
                match fr {
                    Ok(_) => {
                        let probe = vcs.get_version_of(log, runner, dep);
                        let ghost probe_g = probe;
                        let r = match probe {
                            Ok(at_version) => Ok::<AcquireOutcome, DerpyError>(
                                AcquireOutcome::Acquired { at_version },
                            ),
                            Err(e) => Err::<AcquireOutcome, DerpyError>(e),
                        };
                        proof {
                            assert(fetch_post(*vcs, *dep, old(runner).history@, hm, fr_g));
                            assert(report_version_post(*vcs, *dep, hm, runner.history@, probe_g));
                            assert(absent_fetch_case(*vcs, *dep, old(runner).history@, runner.history@, r));
                        }
                        r
                    },
                    Err(e) => {
                        let r = Err::<AcquireOutcome, DerpyError>(e);
                        proof {
                            assert(fetch_post(*vcs, *dep, old(runner).history@, hm, fr_g));
                            assert(absent_fetch_case(*vcs, *dep, old(runner).history@, runner.history@, r));
                        }
                        r
                    },
                }
            },
            _ => Err(
                DerpyError::NonsenseAcquireMode {
                    dependency: dep.name.clone(),
                    acquire_mode,
                },
            ),
        }
    }
}

/// Law: a dependency with no working copy, under mode Acquire, either fails
/// or reports `Acquired`, and the version reported is the trimmed output of
/// the probe that ran immediately after the fetch — the last command
/// recorded, with no caching in between.
pub proof fn lemma_absent_acquire_reports_probe(
    v: VcsInfo,
    dep: Dependency,
    h0: Seq<CmdRecord>,
    h1: Seq<CmdRecord>,
    r: Result<AcquireOutcome, DerpyError>,
)
    requires
        acquire_post(Some(v), dep, AcquireMode::Acquire, DiskState::Absent, h0, h1, r),
        r is Ok,
    ensures
        r->Ok_0 is Acquired,
        h1.len() > h0.len(),
        rec_for(
            h1.last(),
            expand_cmd_spec(v.get_version_of.deep_view(), macro_map_spec(dep)),
            Some(full_path_spec(dep)),
        ),
        r->Ok_0 matches AcquireOutcome::Acquired { at_version } && is_trimmed(
            rec_stdout(h1.last()),
            at_version@,
        ),
{
    let (fr, hm): (Result<(), DerpyError>, Seq<CmdRecord>) = choose|
        fr: Result<(), DerpyError>,
        hm: Seq<CmdRecord>,
    |
        #![trigger fetch_post(v, dep, h0, hm, fr)]
        fetch_post(v, dep, h0, hm, fr) && match fr {
            Err(e) => h1 == hm && r == Err::<AcquireOutcome, DerpyError>(e),
            Ok(_) => exists|probe: Result<String, DerpyError>|
                #![trigger report_version_post(v, dep, hm, h1, probe)]
                report_version_post(v, dep, hm, h1, probe) && match probe {
                    Err(e) => r == Err::<AcquireOutcome, DerpyError>(e),
                    Ok(ver) => r == Ok::<AcquireOutcome, DerpyError>(
                        AcquireOutcome::Acquired { at_version: ver },
                    ),
                },
        };
    assert(fr is Ok);
    let probe: Result<String, DerpyError> = choose|probe: Result<String, DerpyError>|
        #![trigger report_version_post(v, dep, hm, h1, probe)]
        report_version_post(v, dep, hm, h1, probe) && match probe {
            Err(e) => r == Err::<AcquireOutcome, DerpyError>(e),
            Ok(ver) => r == Ok::<AcquireOutcome, DerpyError>(
                AcquireOutcome::Acquired { at_version: ver },
            ),
        };
    assert(probe is Ok);
    assert(cmd_expands(v.get_version_of.deep_view(), macro_map_spec(dep)));
    assert(hm.len() <= h1.len());
}

/// Law: a dependency with an existing working copy, under mode Acquire, is
/// never touched: at most the version probe runs — no fetch, checkout or
/// upgrade command — and a successful call reports `Ignored` at the probed
/// version.
pub proof fn lemma_present_acquire_ignores(
    v: VcsInfo,
    dep: Dependency,
    h0: Seq<CmdRecord>,
    h1: Seq<CmdRecord>,
    r: Result<AcquireOutcome, DerpyError>,
)
    requires
        acquire_post(Some(v), dep, AcquireMode::Acquire, DiskState::Present, h0, h1, r),
    ensures
        h1.len() <= h0.len() + 1,
        h1.subrange(0, h0.len() as int) == h0,
        h0.len() < h1.len() ==> rec_for(
            h1.last(),
            expand_cmd_spec(v.get_version_of.deep_view(), macro_map_spec(dep)),
            Some(full_path_spec(dep)),
        ),
        r is Ok ==> r->Ok_0 is Ignored,
        r is Ok ==> (r->Ok_0 matches AcquireOutcome::Ignored { at_version } && is_trimmed(
            rec_stdout(h1.last()),
            at_version@,
        )),
{
    let (probe, hm): (Result<String, DerpyError>, Seq<CmdRecord>) = choose|
        probe: Result<String, DerpyError>,
        hm: Seq<CmdRecord>,
    |
        #![trigger report_version_post(v, dep, h0, hm, probe)]
        report_version_post(v, dep, h0, hm, probe) && match probe {
            Err(e) => h1 == hm && r == Err::<AcquireOutcome, DerpyError>(e),
            Ok(current) => present_post(v, dep, AcquireMode::Acquire, current, hm, h1, r),
        };
    assert(h1 == hm);
    if !cmd_expands(v.get_version_of.deep_view(), macro_map_spec(dep)) {
        assert(h1 == h0);
        assert(h1.subrange(0, h0.len() as int) =~= h0);
    }
}

/// Law: pinning or upgrading a dependency with no working copy fails with
/// `NonsenseAcquireMode`, and no command is executed.
pub proof fn lemma_absent_pin_or_upgrade_rejected(
    v: VcsInfo,
    dep: Dependency,
    mode: AcquireMode,
    h0: Seq<CmdRecord>,
    h1: Seq<CmdRecord>,
    r: Result<AcquireOutcome, DerpyError>,
)
    requires
        acquire_post(Some(v), dep, mode, DiskState::Absent, h0, h1, r),
        !(mode is Acquire),
    ensures
        h1 == h0,
        r matches Err(DerpyError::NonsenseAcquireMode { dependency, acquire_mode })
            && dependency@ == dep.name@ && acquire_mode == mode,
{
}

/// Law: `LockTo` against a working copy that reports a version other than
/// the pinned one, when it succeeds, reports `Restored` from the probed
/// version to the pinned one.
pub proof fn lemma_lock_to_restores(
    v: VcsInfo,
    dep: Dependency,
    lv: String,
    h0: Seq<CmdRecord>,
    h1: Seq<CmdRecord>,
    r: Result<AcquireOutcome, DerpyError>,
)
    requires
        acquire_post(
            Some(v),
            dep,
            AcquireMode::LockTo { version: lv },
            DiskState::Present,
            h0,
            h1,
            r,
        ),
        r is Ok,
        cmd_expands(v.get_version_of.deep_view(), macro_map_spec(dep)),
        !is_trimmed(rec_stdout(h1[h0.len() as int]), lv@),
    ensures
        r->Ok_0 matches AcquireOutcome::Restored { from_version, to_version } && to_version@ == lv@
            && is_trimmed(rec_stdout(h1[h0.len() as int]), from_version@),
{
    let (probe, hm): (Result<String, DerpyError>, Seq<CmdRecord>) = choose|
        probe: Result<String, DerpyError>,
        hm: Seq<CmdRecord>,
    |
        #![trigger report_version_post(v, dep, h0, hm, probe)]
        report_version_post(v, dep, h0, hm, probe) && match probe {
            Err(e) => h1 == hm && r == Err::<AcquireOutcome, DerpyError>(e),
            Ok(current) => present_post(
                v,
                dep,
                AcquireMode::LockTo { version: lv },
                current,
                hm,
                h1,
                r,
            ),
        };
    assert(probe is Ok);
    let current = probe->Ok_0;
    assert(is_trimmed(rec_stdout(hm.last()), current@));
    if current@ == lv@ {
        assert(h1 == hm);
        assert(h1[h0.len() as int] == hm.last());
        assert(false);
    } else {
        let cr: Result<(), DerpyError> = choose|cr: Result<(), DerpyError>|
            #![trigger checkout_post(v, dep, lv@, hm, h1, cr)]
            checkout_post(v, dep, lv@, hm, h1, cr) && match cr {
                Err(e) => r == Err::<AcquireOutcome, DerpyError>(e),
                Ok(_) => r == Ok::<AcquireOutcome, DerpyError>(
                    AcquireOutcome::Restored { from_version: current, to_version: lv },
                ),
            };
        assert(cr is Ok);
        assert(h1.subrange(0, hm.len() as int) == hm || h1 == hm);
        assert(h1[h0.len() as int] == hm.last());
    }
}

/// Law (idempotence of pinning): a second `LockTo` against a working copy
/// that now reports the pinned version runs only the version probe — no
/// checkout — and returns `NoChange` at that version. With
/// `lemma_lock_to_restores` this gives: `Restored` on the first of two
/// consecutive `LockTo(v)` calls, `NoChange` on the second.
pub proof fn lemma_lock_to_idempotent(
    v: VcsInfo,
    dep: Dependency,
    lv: String,
    h1: Seq<CmdRecord>,
    h2: Seq<CmdRecord>,
    r2: Result<AcquireOutcome, DerpyError>,
)
    requires
        acquire_post(
            Some(v),
            dep,
            AcquireMode::LockTo { version: lv },
            DiskState::Present,
            h1,
            h2,
            r2,
        ),
        cmd_expands(v.get_version_of.deep_view(), macro_map_spec(dep)),
        h2.len() > h1.len(),
        rec_success(h2[h1.len() as int]),
        is_trimmed(rec_stdout(h2[h1.len() as int]), lv@),
    ensures
        h2.len() == h1.len() + 1,
        r2 matches Ok(AcquireOutcome::NoChange { current_version }) && current_version@ == lv@,
{
    let (probe, hm): (Result<String, DerpyError>, Seq<CmdRecord>) = choose|
        probe: Result<String, DerpyError>,
        hm: Seq<CmdRecord>,
    |
        #![trigger report_version_post(v, dep, h1, hm, probe)]
        report_version_post(v, dep, h1, hm, probe) && match probe {
            Err(e) => h2 == hm && r2 == Err::<AcquireOutcome, DerpyError>(e),
            Ok(current) => present_post(
                v,
                dep,
                AcquireMode::LockTo { version: lv },
                current,
                hm,
                h2,
                r2,
            ),
        };
    assert(hm.len() == h1.len() + 1);
    match probe {
        Err(_) => {
            assert(h2 == hm);
            assert(h2[h1.len() as int] == hm.last());
            assert(false);
        },
        Ok(current) => {
            assert(is_trimmed(rec_stdout(hm.last()), current@));
            if current@ != lv@ {
                let cr: Result<(), DerpyError> = choose|cr: Result<(), DerpyError>|
                    #![trigger checkout_post(v, dep, lv@, hm, h2, cr)]
                    checkout_post(v, dep, lv@, hm, h2, cr) && match cr {
                        Err(e) => r2 == Err::<AcquireOutcome, DerpyError>(e),
                        Ok(_) => r2 == Ok::<AcquireOutcome, DerpyError>(
                            AcquireOutcome::Restored { from_version: current, to_version: lv },
                        ),
                    };
                assert(h2.subrange(0, hm.len() as int) == hm || h2 == hm);
                assert(h2[h1.len() as int] == hm.last());
                lemma_trim_unique(rec_stdout(hm.last()), current@, lv@);
                assert(false);
            }
            assert(h2 == hm);
            assert(h2[h1.len() as int] == hm.last());
        },
    }
}

} // verus!
