use vstd::prelude::*;

use crate::errors::{BuildError, InvalidPluginError};
use crate::plugin::{ApplicationContext, PluginDescriptor, SetupHook};

verus! {

/// Every descriptor in the sequence is well formed.
pub open spec fn all_wf(ds: Seq<PluginDescriptor>) -> bool {
    forall|i: int| 0 <= i < ds.len() ==> ds[i].wf()
}

/// The report `Builder::build` returns when some descriptor is malformed:
/// one entry per malformed descriptor, in registration order, carrying the
/// descriptor's position and name.
pub open spec fn invalid_report(ds: Seq<PluginDescriptor>) -> Seq<InvalidPluginError>
    decreases ds.len(),
{
    if ds.len() == 0 {
        Seq::empty()
    } else if ds.last().wf() {
        invalid_report(ds.drop_last())
    } else {
        invalid_report(ds.drop_last()).push(
            InvalidPluginError { index: (ds.len() - 1) as usize, name: ds.last().name },
        )
    }
}

/// The error report of `build` aggregates exactly the malformed
/// descriptors: it is empty precisely when all descriptors are well formed,
/// every entry points at a malformed descriptor and repeats its name, the
/// entries come in strictly increasing registration order, and every
/// malformed descriptor has an entry.
pub proof fn lemma_invalid_report_exact(ds: Seq<PluginDescriptor>)
    requires
        ds.len() <= usize::MAX,
    ensures
        invalid_report(ds).len() == 0 <==> all_wf(ds),
        forall|k: int| 0 <= k < invalid_report(ds).len() ==> {
            &&& (#[trigger] invalid_report(ds)[k]).index < ds.len()
            &&& !ds[invalid_report(ds)[k].index as int].wf()
            &&& invalid_report(ds)[k].name == ds[invalid_report(ds)[k].index as int].name
        },
        forall|k1: int, k2: int|
            0 <= k1 < k2 < invalid_report(ds).len() ==> (#[trigger] invalid_report(
                ds,
            )[k1]).index < (#[trigger] invalid_report(ds)[k2]).index,
        forall|j: int|
            0 <= j < ds.len() && !(#[trigger] ds[j]).wf() ==> exists|k: int|
                0 <= k < invalid_report(ds).len() && (#[trigger] invalid_report(ds)[k]).index == j,
    decreases ds.len(),
{
    if ds.len() == 0 {
    } else {
        let dl = ds.drop_last();
        lemma_invalid_report_exact(dl);
        assert(forall|i: int| 0 <= i < dl.len() ==> dl[i] == ds[i]);
        if ds.last().wf() {
            if all_wf(dl) {
                assert forall|i: int| 0 <= i < ds.len() implies #[trigger] ds[i].wf() by {
                    if i < ds.len() - 1 {
                        assert(dl[i].wf());
                    }
                }
            }
        } else {
            let e = InvalidPluginError {
                index: (ds.len() - 1) as usize,
                name: ds.last().name,
            };
            let rep = invalid_report(dl).push(e);
            assert(rep.last() == e);
            assert(!all_wf(ds)) by {
                assert(!ds[ds.len() - 1].wf());
            }
            assert(forall|j: int|
                0 <= j < ds.len() && !(#[trigger] ds[j]).wf() ==> exists|k: int|
                    0 <= k < rep.len() && (#[trigger] rep[k]).index == j) by {
                assert forall|j: int| 0 <= j < ds.len() && !(#[trigger] ds[j]).wf() implies exists|
                    k: int,
                |
                    0 <= k < rep.len() && (#[trigger] rep[k]).index == j by {
                    if j < ds.len() - 1 {
                        let k0 = choose|k0: int|
                            0 <= k0 < invalid_report(dl).len() && (#[trigger] invalid_report(
                                dl,
                            )[k0]).index == j;
                        assert(rep[k0].index == j);
                    } else {
                        assert(rep[rep.len() - 1].index == j);
                    }
                }
            }
        }
    }
}

/// Accumulates capability plugin descriptors and the setup hook, in the
/// order the caller registers them, then validates them into an
/// [`Application`].
#[derive(Debug)]
pub struct Builder {
    pub plugins: Vec<PluginDescriptor>,
    pub setup: Option<SetupHook>,
}

/// The fully composed, immutable application: the ordered plugin
/// descriptors, the attached setup hook if any, and the loaded context.
/// Produced only by [`Builder::build`], and only when every descriptor is
/// well formed.
#[derive(Debug)]
pub struct Application {
    pub plugins: Vec<PluginDescriptor>,
    pub setup: Option<SetupHook>,
    pub context: ApplicationContext,
}

impl Builder {
    /// An empty builder: no plugins, no setup hook.
    pub fn new() -> (b: Builder)
        ensures
            b.plugins@ == Seq::<PluginDescriptor>::empty(),
            b.setup is None,
    {
        Builder { plugins: Vec::new(), setup: None }
    }

    /// Appends one plugin descriptor.  Registration order is preserved
    /// exactly: the new descriptor goes to the end and nothing else moves.
    /// A malformed descriptor is accepted here and reported by `build`,
    /// which aggregates every such failure into one report instead of
    /// stopping at the first.
    pub fn with_plugin(self, descriptor: PluginDescriptor) -> (b: Builder)
        ensures
            b.plugins@ == self.plugins@.push(descriptor),
            b.setup == self.setup,
    {
        let mut plugins = self.plugins;
        plugins.push(descriptor);
        Builder { plugins, setup: self.setup }
    }

    /// Attaches the setup hook.  Last write wins: a hook attached earlier
    /// is replaced and will never be invoked.
    pub fn with_setup(self, hook: SetupHook) -> (b: Builder)
        ensures
            b.setup == Some(hook),
            b.plugins@ == self.plugins@,
    {
        Builder { plugins: self.plugins, setup: Some(hook) }
    }

    /// Validates every plugin descriptor and composes the application.
    /// All or nothing: if any descriptor is malformed the build fails with
    /// the full report of [`invalid_report`] and no application — hence
    /// nothing that could ever be registered — is produced; otherwise the
    /// application carries the descriptors in registration order, the last
    /// attached hook, and the given context.
    pub fn build(self, context: ApplicationContext) -> (r: Result<Application, BuildError>)
        ensures
            all_wf(self.plugins@) ==> (r matches Ok(app) && app.plugins@ == self.plugins@
                && app.setup == self.setup && app.context == context),
            !all_wf(self.plugins@) ==> (r matches Err(e) && e.errors@ == invalid_report(
                self.plugins@,
            ) && e.errors@.len() > 0),
    {
        let mut errors: Vec<InvalidPluginError> = Vec::new();
        let n = self.plugins.len();
        let mut i: usize = 0;
        while i < n
            invariant
                i <= n,
                n == self.plugins@.len(),
                errors@ == invalid_report(self.plugins@.take(i as int)),
            decreases n - i,
        {
            if !self.plugins[i].is_well_formed() {
                errors.push(
                    InvalidPluginError { index: i, name: self.plugins[i].name.clone() },
                );
            }
            proof {
                let pre = self.plugins@.take(i as int);
                let post = self.plugins@.take(i + 1);
                assert(post.drop_last() =~= pre);
                assert(post.last() == self.plugins@[i as int]);
            }
            i += 1;
        }
        proof {
            assert(self.plugins@.take(n as int) =~= self.plugins@);
            lemma_invalid_report_exact(self.plugins@);
        }
        if errors.len() == 0 {
            Ok(Application { plugins: self.plugins, setup: self.setup, context })
        } else {
            Err(BuildError { errors })
        }
    }
}

} // verus!
