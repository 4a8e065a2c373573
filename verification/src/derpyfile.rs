use vstd::prelude::*;

use crate::acquire::{AcquireMode, AcquireOutcome};
use crate::dependency::Dependency;
use crate::error::DerpyError;

verus! {

/// The project manifest and the lock file share this shape: dependency
/// records keyed by name, in insertion order.
#[derive(Debug)]
pub struct DerpyFile {
    pub dependencies: Vec<(String, Dependency)>,
}

/// Some entry of `pairs` carries this name.
pub open spec fn has_key(pairs: Seq<(String, Dependency)>, name: Seq<char>) -> bool {
    exists|i: int| 0 <= i < pairs.len() && pairs[i].0@ == name
}

/// The entry at `i` is the first under this name.
pub open spec fn first_key_at(pairs: Seq<(String, Dependency)>, name: Seq<char>, i: int) -> bool {
    &&& 0 <= i < pairs.len()
    &&& pairs[i].0@ == name
    &&& forall|j: int| 0 <= j < i ==> pairs[j].0@ != name
}

impl Default for DerpyFile {
    fn default() -> (r: DerpyFile)
        ensures
            r.dependencies@ == Seq::<(String, Dependency)>::empty(),
    {
        DerpyFile { dependencies: Vec::new() }
    }
}

impl DerpyFile {
    pub fn contains_key(&self, name: &String) -> (r: bool)
        ensures
            r == has_key(self.dependencies@, name@),
    {
        let n = self.dependencies.len();
        for i in 0..n
            invariant
                n == self.dependencies@.len(),
                forall|j: int| 0 <= j < i ==> self.dependencies@[j].0@ != name@,
        {
            if self.dependencies[i].0 == *name {
                return true;
            }
        }
        false
    }

    /// The record under `name`, if one exists (the first, when the file was
    /// built with duplicates).
    pub fn get(&self, name: &String) -> (r: Option<&Dependency>)
        ensures
            match r {
                Some(d) => exists|i: int|
                    #![auto]
                    first_key_at(self.dependencies@, name@, i) && *d == self.dependencies@[i].1,
                None => !has_key(self.dependencies@, name@),
            },
    {
        let n = self.dependencies.len();
        for i in 0..n
            invariant
                n == self.dependencies@.len(),
                forall|j: int| 0 <= j < i ==> self.dependencies@[j].0@ != name@,
        {
            if self.dependencies[i].0 == *name {
                proof {
                    assert(first_key_at(self.dependencies@, name@, i as int));
                }
                return Some(&self.dependencies[i].1);
            }
        }
        None
    }

    /// Binds `name` to `dep`: replaces the first record under `name`, or
    /// appends one when none exists.
    pub fn insert(&mut self, name: String, dep: Dependency)
        ensures
            has_key(old(self).dependencies@, name@) ==> exists|i: int|
                #![auto]
                first_key_at(old(self).dependencies@, name@, i) && final(self).dependencies@
                    == old(self).dependencies@.update(i, (name, dep)),
            !has_key(old(self).dependencies@, name@) ==> final(self).dependencies@ == old(
                self,
            ).dependencies@.push((name, dep)),
    {
        let n = self.dependencies.len();
        for i in 0..n
            invariant
                n == self.dependencies@.len(),
                self.dependencies@ == old(self).dependencies@,
                forall|j: int| 0 <= j < i ==> self.dependencies@[j].0@ != name@,
        {
            if self.dependencies[i].0 == name {
                proof {
                    assert(first_key_at(self.dependencies@, name@, i as int));
                }
                self.dependencies.set(i, (name, dep));
                return ;
            }
        }
        self.dependencies.push((name, dep));
    }

    /// Adds a new dependency record under `name`; a name already present is
    /// refused and the file is unchanged.
    pub fn add(&mut self, name: String, dep: Dependency) -> (r: Result<(), DerpyError>)
        ensures
            has_key(old(self).dependencies@, name@) ==> final(self).dependencies@ == old(
                self,
            ).dependencies@ && (match r {
                Err(DerpyError::DependencyAlreadyExists { name: n }) => n@ == name@,
                _ => false,
            }),
            !has_key(old(self).dependencies@, name@) ==> r is Ok && final(self).dependencies@
                == old(self).dependencies@.push((name, dep)),
    {
        if self.contains_key(&name) {
            return Err(DerpyError::DependencyAlreadyExists { name });
        }
        self.dependencies.push((name, dep));
        Ok(())
    }
}

/// The mode a batch acquire uses for one dependency: pin to the version the
/// lock file records for it, plain acquire when it records none.
pub fn mode_for_dependency(lock: &DerpyFile, name: &String) -> (r: AcquireMode)
    ensures
        has_key(lock.dependencies@, name@) ==> exists|i: int|
            #![auto]
            first_key_at(lock.dependencies@, name@, i) && r == (AcquireMode::LockTo {
                version: lock.dependencies@[i].1.version,
            }),
        !has_key(lock.dependencies@, name@) ==> r == AcquireMode::Acquire,
{
    match lock.get(name) {
        Some(d) => AcquireMode::LockTo { version: d.version.clone() },
        None => AcquireMode::Acquire,
    }
}

/// Which outcomes update the lock record, and to what: a fresh fetch and an
/// upgrade that changed the version do; a restore, a no-op and an ignored
/// working copy leave the lock record alone.
pub fn lock_update_for_outcome(outcome: &AcquireOutcome) -> (r: Option<String>)
    ensures
        match *outcome {
            AcquireOutcome::Acquired { at_version } => r == Some(at_version),
            AcquireOutcome::UpgradedTo { from_version: _, to_version } => r == Some(to_version),
            _ => r is None,
        },
{
    match outcome {
        AcquireOutcome::Acquired { at_version } => Some(at_version.clone()),
        AcquireOutcome::UpgradedTo { from_version: _, to_version } => Some(to_version.clone()),
        _ => None,
    }
}

/// `s` occurs among `names`.
pub open spec fn string_seq_contains(names: Seq<Seq<char>>, s: Seq<char>) -> bool {
    exists|i: int| 0 <= i < names.len() && names[i] == s
}

fn names_contain(names: &Vec<String>, s: &String) -> (r: bool)
    ensures
        r == string_seq_contains(names.deep_view(), s@),
{
    let n = names.len();
    for i in 0..n
        invariant
            n == names@.len(),
            forall|j: int| 0 <= j < i ==> names@[j]@ != s@,
    {
        if names[i] == *s {
            proof {
                assert(names.deep_view()[i as int] == s@);
            }
            return true;
        }
    }
    proof {
        assert(forall|j: int| 0 <= j < names.deep_view().len() ==> names.deep_view()[j] != s@);
    }
    false
}

/// Which manifest entries an upgrade without `--all` touches: the positions
/// of exactly those records whose name was requested, in manifest order.
pub fn select_for_upgrade(config: &DerpyFile, names: &Vec<String>) -> (r: Vec<usize>)
    ensures
        forall|k: int|
            0 <= k < r@.len() ==> r@[k] < config.dependencies@.len() && string_seq_contains(
                names.deep_view(),
                config.dependencies@[r@[k] as int].0@,
            ),
        forall|i: int|
            0 <= i < config.dependencies@.len() && string_seq_contains(
                names.deep_view(),
                config.dependencies@[i].0@,
            ) ==> r@.contains(i as usize),
        forall|k1: int, k2: int| 0 <= k1 < k2 < r@.len() ==> r@[k1] < r@[k2],
{
    let mut r: Vec<usize> = Vec::new();
    let n = config.dependencies.len();
    for i in 0..n
        invariant
            n == config.dependencies@.len(),
            forall|k: int|
                0 <= k < r@.len() ==> r@[k] < i && string_seq_contains(
                    names.deep_view(),
                    config.dependencies@[r@[k] as int].0@,
                ),
            forall|j: int|
                0 <= j < i && string_seq_contains(
                    names.deep_view(),
                    config.dependencies@[j].0@,
                ) ==> r@.contains(j as usize),
            forall|k1: int, k2: int| 0 <= k1 < k2 < r@.len() ==> r@[k1] < r@[k2],
    {
        if names_contain(names, &config.dependencies[i].0) {
            let ghost r0 = r@;
            r.push(i);
            proof {
                assert forall|x: usize| r0.contains(x) implies r@.contains(x) by {
                    let idx = choose|idx: int| 0 <= idx < r0.len() && r0[idx] == x;
                    assert(r@[idx] == x);
                }
                assert(r@[r0.len() as int] == i as usize);
                assert(r@.contains(i as usize));
            }
        }
    }
    r
}

} // verus!
