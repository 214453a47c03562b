//! Binding the driver to a device and taking it off again.
//!
//! Binding acquires what the device needs, step by step. A step that fails
//! ends it: what the earlier steps acquired is released in reverse order,
//! and the failure of that step is the outcome. Taking the driver off
//! releases everything in reverse order, the registration first.

use crate::error::Error;
use crate::hw_random::HwrngOperations;
use crate::hw_random::Registration;
use crate::pm::runtime::RuntimePm;
use vstd::prelude::*;

verus! {

/// The number of steps that bind the driver to a device.
pub const PROBE_STEPS: u8 = 6;

/// The name under which the device looks up its clock, that of the
/// security subsystem.
pub const EXYNOS_TRNG_CLOCK_ID: &'static str = "secss";

/// The place of the register window among the memory resources of the
/// device.
pub const EXYNOS_TRNG_MEM_RESOURCE: usize = 0;

/// The rank under which the generator is registered: none of its own.
pub const EXYNOS_TRNG_QUALITY: u16 = 0;

/// One step of binding the driver to a device.
#[derive(Clone, Copy, Debug, PartialEq, Eq, Structural)]
pub enum ProbeStep {
    /// Look up the clock named [`EXYNOS_TRNG_CLOCK_ID`].
    GetClock,
    /// Prepare and enable the clock.
    EnableClock,
    /// Map the memory resource at the place [`EXYNOS_TRNG_MEM_RESOURCE`],
    /// the register window.
    MapRegisters,
    /// Enable run-time power management. This cannot fail.
    EnablePm,
    /// Resume the device and hold it awake.
    ResumePm,
    /// Register the generator with the registry, with the callback table
    /// that [`ExynosTrngDriver::registration`] makes.
    Register,
}

impl ProbeStep {
    /// The step at the place `index` in the order of binding.
    pub open spec fn spec_at(index: int) -> ProbeStep {
        if index <= 0 {
            ProbeStep::GetClock
        } else if index == 1 {
            ProbeStep::EnableClock
        } else if index == 2 {
            ProbeStep::MapRegisters
        } else if index == 3 {
            ProbeStep::EnablePm
        } else if index == 4 {
            ProbeStep::ResumePm
        } else {
            ProbeStep::Register
        }
    }

    /// Whether the step can fail.
    pub open spec fn fallible(self) -> bool {
        self != ProbeStep::EnablePm
    }

    /// The step at the place `index` in the order of binding.
    pub fn at(index: u8) -> (step: ProbeStep)
        ensures
            step == ProbeStep::spec_at(index as int),
    {
        if index == 0 {
            ProbeStep::GetClock
        } else if index == 1 {
            ProbeStep::EnableClock
        } else if index == 2 {
            ProbeStep::MapRegisters
        } else if index == 3 {
            ProbeStep::EnablePm
        } else if index == 4 {
            ProbeStep::ResumePm
        } else {
            ProbeStep::Register
        }
    }
}

/// What a binding asks of the caller.
#[derive(Clone, Copy, Debug, PartialEq, Eq, Structural)]
pub enum ProbeAction {
    /// Carry out the step and report its status.
    Perform(ProbeStep),
    /// Release what the step acquired: drop the registration, give up the
    /// hold on the device, disable run-time power management, unmap the
    /// registers, disable the clock.
    Undo(ProbeStep),
    /// Nothing: the driver is bound to the device.
    Bound,
    /// Nothing: binding failed with this error and nothing is held.
    Failed(Error),
    /// Nothing: the driver was taken off the device and nothing is held.
    Removed,
}

/// How far the driver is bound to one device.
#[derive(Clone, Copy, Debug, PartialEq, Eq, Structural)]
pub enum Binding {
    /// The steps before the place `index` are done; the step there is due.
    Probing { index: u8 },
    /// What the step at the place `index` acquired is due to be released,
    /// and then what the steps before it acquired. `failure` is the error
    /// that ended the binding, if one did.
    Releasing { index: u8, failure: Option<Error> },
    /// All steps are done.
    Bound,
    /// Binding failed, and nothing is held.
    Failed { error: Error },
    /// The driver was taken off, and nothing is held.
    Removed,
}

impl Binding {
    /// Whether the places in the binding are places of steps, and a release
    /// is of a step that acquired something.
    pub open spec fn wf(self) -> bool {
        match self {
            Binding::Probing { index } => index < PROBE_STEPS,
            Binding::Releasing { index, failure } => 1 <= index < PROBE_STEPS,
            _ => true,
        }
    }

    /// The binding once nothing is held any more: failed where an error
    /// ended it, taken off otherwise.
    pub open spec fn released(failure: Option<Error>) -> Binding {
        match failure {
            Some(error) => Binding::Failed { error },
            None => Binding::Removed,
        }
    }

    /// The binding that releases what the steps up to the place `index`
    /// acquired. The first step, a lookup, acquires nothing.
    pub open spec fn release_from(index: int, failure: Option<Error>) -> Binding {
        if index >= 1 {
            Binding::Releasing { index: index as u8, failure }
        } else {
            Binding::released(failure)
        }
    }

    /// The binding after the caller reports `status` for what it was asked
    /// to do. A negative status of a step that can fail ends the binding;
    /// the status of a release is of no account.
    pub open spec fn next(self, status: i32) -> Binding {
        match self {
            Binding::Probing { index } => {
                if status < 0 && ProbeStep::spec_at(index as int).fallible() {
                    Binding::release_from(index - 1, Some(Error::from_errno_spec(status)))
                } else if index + 1 >= PROBE_STEPS {
                    Binding::Bound
                } else {
                    Binding::Probing { index: (index + 1) as u8 }
                }
            },
            Binding::Releasing { index, failure } => Binding::release_from(index - 1, failure),
            _ => self,
        }
    }

    /// What the binding asks of the caller.
    pub open spec fn spec_pending(self) -> ProbeAction {
        match self {
            Binding::Probing { index } => ProbeAction::Perform(ProbeStep::spec_at(index as int)),
            Binding::Releasing { index, failure } => ProbeAction::Undo(
                ProbeStep::spec_at(index as int),
            ),
            Binding::Bound => ProbeAction::Bound,
            Binding::Failed { error } => ProbeAction::Failed(error),
            Binding::Removed => ProbeAction::Removed,
        }
    }

    /// The binding after the statuses of `statuses`, in their order.
    pub open spec fn run(self, statuses: Seq<i32>) -> Binding
        decreases statuses.len(),
    {
        if statuses.len() == 0 {
            self
        } else {
            self.run(statuses.drop_last()).next(statuses.last())
        }
    }

    /// What the caller has to do now.
    pub fn pending(&self) -> (a: ProbeAction)
        ensures
            a == self.spec_pending(),
    {
        match self {
            Binding::Probing { index } => ProbeAction::Perform(ProbeStep::at(*index)),
            Binding::Releasing { index, failure } => ProbeAction::Undo(ProbeStep::at(*index)),
            Binding::Bound => ProbeAction::Bound,
            Binding::Failed { error } => ProbeAction::Failed(*error),
            Binding::Removed => ProbeAction::Removed,
        }
    }

    /// Takes the status of what the caller was asked to do, and says what
    /// it has to do next.
    pub fn step(&mut self, status: i32) -> (a: ProbeAction)
        ensures
            *final(self) == old(self).next(status),
            old(self).wf() ==> final(self).wf(),
            a == final(self).spec_pending(),
    {
        let current = *self;
        match current {
            Binding::Probing { index } => {
                if status < 0 && index != 3 {
                    *self = Self::release(index, Some(Error::from_kernel_errno(status)));
                } else if index >= PROBE_STEPS - 1 {
                    *self = Binding::Bound;
                } else {
                    *self = Binding::Probing { index: index + 1 };
                }
            },
            Binding::Releasing { index, failure } => {
                *self = Self::release(index, failure);
            },
            _ => {},
        }
        self.pending()
    }

    /// The binding that releases what the steps before the place `index`
    /// acquired.
    fn release(index: u8, failure: Option<Error>) -> (b: Binding)
        ensures
            b == Binding::release_from(index - 1, failure),
    {
        if index >= 2 {
            Binding::Releasing { index: index - 1, failure }
        } else {
            match failure {
                Some(error) => Binding::Failed { error },
                None => Binding::Removed,
            }
        }
    }
}

/// The driver, as the bus sees it.
pub struct ExynosTrngDriver;

impl ExynosTrngDriver {
    /// Starts to bind the driver to a device: the lookup of the clock is
    /// due.
    pub fn probe() -> (binding: Binding)
        ensures
            binding == (Binding::Probing { index: 0 }),
            binding.wf(),
    {
        Binding::Probing { index: 0 }
    }

    /// The run-time power management state of the device `pdev` as binding
    /// finds it: disabled once, and held awake by nobody.
    pub fn power(pdev: &crate::platform::Device) -> (pm: RuntimePm)
        ensures
            pm.device() == pdev.device(),
            pm.disable_depth() == 1,
            pm.usage_count() == 0,
    {
        RuntimePm::new(crate::device::Device::from_dev(pdev.dev()))
    }

    /// Makes the registration of the generator of `pdev`, whose callbacks
    /// get `data`: under the name of the device, with no rank of its own,
    /// and with the callbacks that the driver `T` offers. The registry has
    /// not seen it yet.
    pub fn registration<T: HwrngOperations>(pdev: &crate::platform::Device, data: T::Data) -> (registration:
        Box<Registration<T>>)
        ensures
            !registration.is_registered(),
            registration.table().name@ == pdev.spec_name(),
            registration.table().quality == EXYNOS_TRNG_QUALITY,
            registration.table().init == T::TO_USE.init,
            registration.table().cleanup == T::TO_USE.cleanup,
            !registration.table().data_present,
            !registration.table().data_read,
            registration.table().read,
            registration.table().priv_data == Some(data),
    {
        Registration::new_pinned(pdev.name(), EXYNOS_TRNG_QUALITY, data)
    }

    /// Starts to take the driver off the device: the registration is due to
    /// be dropped, and after it everything else in reverse order. A driver
    /// that is not bound stays as it is.
    pub fn remove(binding: &mut Binding)
        ensures
            *final(binding) == if *old(binding) == Binding::Bound {
                Binding::Releasing { index: (PROBE_STEPS - 1) as u8, failure: None }
            } else {
                *old(binding)
            },
            old(binding).wf() ==> final(binding).wf(),
    {
        let current = *binding;
        match current {
            Binding::Bound => {
                *binding = Binding::Releasing { index: PROBE_STEPS - 1, failure: None };
            },
            _ => {},
        }
    }
}


/// Whether every status of `statuses` lets its step pass: none is negative,
/// but for that of the step that cannot fail.
pub open spec fn all_pass(statuses: Seq<i32>) -> bool {
    forall|i: int|
        0 <= i < statuses.len() ==> statuses[i] >= 0 || !ProbeStep::spec_at(i).fallible()
}

impl Binding {
    /// While every step passes, the steps are done in their order; after
    /// the last one the driver is bound.
    pub proof fn lemma_probe_advances(statuses: Seq<i32>)
        requires
            statuses.len() <= PROBE_STEPS,
            all_pass(statuses),
        ensures
            (Binding::Probing { index: 0 }).run(statuses) == if statuses.len() == PROBE_STEPS {
                Binding::Bound
            } else {
                Binding::Probing { index: statuses.len() as u8 }
            },
        decreases statuses.len(),
    {
        if statuses.len() > 0 {
            let before = statuses.drop_last();
            assert(all_pass(before)) by {
                assert forall|i: int| 0 <= i < before.len() implies before[i] >= 0
                    || !ProbeStep::spec_at(i).fallible() by {
                    assert(before[i] == statuses[i]);
                }
            }
            Self::lemma_probe_advances(before);
            assert(statuses.last() == statuses[statuses.len() - 1]);
        }
    }

    /// A release goes on in reverse order whatever the caller reports:
    /// after as many statuses as `statuses` holds, what is due to be
    /// released is that many places before the place `index` where the
    /// release began, and once the first place is passed nothing is held.
    pub proof fn lemma_release_in_reverse(index: int, failure: Option<Error>, statuses: Seq<i32>)
        requires
            1 <= index < PROBE_STEPS,
        ensures
            (Binding::Releasing { index: index as u8, failure }).run(statuses)
                == Binding::release_from(index - statuses.len(), failure),
        decreases statuses.len(),
    {
        if statuses.len() > 0 {
            Self::lemma_release_in_reverse(index, failure, statuses.drop_last());
        }
    }

    /// The statuses of `first` and then those of `second` lead where those
    /// of `second` lead from where those of `first` have led.
    pub proof fn lemma_run_concat(self, first: Seq<i32>, second: Seq<i32>)
        ensures
            self.run(first + second) == self.run(first).run(second),
        decreases second.len(),
    {
        if second.len() == 0 {
            assert(first + second =~= first);
        } else {
            assert((first + second).drop_last() =~= first + second.drop_last());
            assert((first + second).last() == second.last());
            self.lemma_run_concat(first, second.drop_last());
        }
    }

    /// A step that fails ends the binding, and what the steps before it
    /// acquired is released in reverse order. The steps of `passed` pass,
    /// the next one fails with `status`, and the caller then reports the
    /// statuses of `after` for the releases: what is then due to be
    /// released is as many places before the failed step as one and the
    /// number of these statuses. Once the first place is passed, nothing is
    /// held and the binding has failed with the error of `status`.
    pub proof fn lemma_failed_probe_unwinds(passed: Seq<i32>, status: i32, after: Seq<i32>)
        requires
            passed.len() < PROBE_STEPS,
            all_pass(passed),
            status < 0,
            ProbeStep::spec_at(passed.len() as int).fallible(),
        ensures
            (Binding::Probing { index: 0 }).run(passed.push(status) + after)
                == Binding::release_from(
                passed.len() - 1 - after.len(),
                Some(Error::from_errno_spec(status)),
            ),
    {
        let start = Binding::Probing { index: 0 };
        let failure = Some(Error::from_errno_spec(status));
        Self::lemma_probe_advances(passed);
        assert(passed.push(status).drop_last() =~= passed);
        assert(start.run(passed.push(status)) == Binding::release_from(
            passed.len() - 1,
            failure,
        ));
        start.lemma_run_concat(passed.push(status), after);
        if passed.len() >= 2 {
            Self::lemma_release_in_reverse(passed.len() - 1, failure, after);
        } else {
            Self::lemma_settled_stays(Binding::released(failure), after);
        }
    }

    /// A binding that asks for nothing stays as it is, whatever the caller
    /// reports.
    pub proof fn lemma_settled_stays(self, statuses: Seq<i32>)
        requires
            self is Bound || self is Failed || self is Removed,
        ensures
            self.run(statuses) == self,
        decreases statuses.len(),
    {
        if statuses.len() > 0 {
            self.lemma_settled_stays(statuses.drop_last());
        }
    }

    /// Taking the driver off drops the registration first and then
    /// releases the rest in reverse order: after as many statuses as
    /// `statuses` holds, what is due to be released is that many places
    /// before the registration, and in the end nothing is held.
    pub proof fn lemma_remove_releases_all(statuses: Seq<i32>)
        ensures
            (Binding::Releasing { index: (PROBE_STEPS - 1) as u8, failure: None }).spec_pending()
                == ProbeAction::Undo(ProbeStep::Register),
            (Binding::Releasing { index: (PROBE_STEPS - 1) as u8, failure: None }).run(statuses)
                == Binding::release_from(PROBE_STEPS - 1 - statuses.len(), None),
            statuses.len() >= PROBE_STEPS - 1 ==> (Binding::Releasing {
                index: (PROBE_STEPS - 1) as u8,
                failure: None,
            }).run(statuses) == Binding::Removed,
    {
        Self::lemma_release_in_reverse(PROBE_STEPS - 1, None, statuses);
    }
}

} // verus!
