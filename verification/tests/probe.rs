use hwrng::device::Device;
use hwrng::error::Error;
use hwrng::exynos_trng::probe::{
    Binding, ExynosTrngDriver, ProbeAction, ProbeStep, EXYNOS_TRNG_CLOCK_ID,
    EXYNOS_TRNG_MEM_RESOURCE, EXYNOS_TRNG_QUALITY,
};
use hwrng::hw_random::{HwrngOperations, ToUse};

const ORDER: [ProbeStep; 6] = [
    ProbeStep::GetClock,
    ProbeStep::EnableClock,
    ProbeStep::MapRegisters,
    ProbeStep::EnablePm,
    ProbeStep::ResumePm,
    ProbeStep::Register,
];

/// Binds with the step at `fail_at` failing with `errno`, and returns every
/// action that was asked for.
fn bind(fail_at: Option<usize>, errno: i32) -> (Binding, Vec<ProbeAction>) {
    let mut binding = ExynosTrngDriver::probe();
    let mut actions = vec![binding.pending()];
    let mut performed = 0;
    loop {
        let status = match *actions.last().unwrap() {
            ProbeAction::Perform(_) => {
                performed += 1;
                if fail_at == Some(performed - 1) {
                    errno
                } else {
                    0
                }
            }
            ProbeAction::Undo(_) => -1,
            _ => return (binding, actions),
        };
        actions.push(binding.step(status));
    }
}

#[test]
fn steps_come_in_order() {
    for (i, step) in ORDER.iter().enumerate() {
        assert_eq!(ProbeStep::at(i as u8), *step);
    }
    assert_eq!(ProbeStep::at(200), ProbeStep::Register);
}

#[test]
fn probe_binds_when_every_step_passes() {
    let (binding, actions) = bind(None, 0);
    assert_eq!(binding, Binding::Bound);
    let mut expected: Vec<ProbeAction> = ORDER.iter().map(|s| ProbeAction::Perform(*s)).collect();
    expected.push(ProbeAction::Bound);
    assert_eq!(actions, expected);
}

#[test]
fn failed_step_releases_in_reverse() {
    let failed = ProbeAction::Failed(Error::ResourceUnavailable { errno: -12 });
    let (binding, actions) = bind(Some(5), -12);
    assert_eq!(binding, Binding::Failed { error: Error::ResourceUnavailable { errno: -12 } });
    assert_eq!(
        actions[6..],
        [
            ProbeAction::Undo(ProbeStep::ResumePm),
            ProbeAction::Undo(ProbeStep::EnablePm),
            ProbeAction::Undo(ProbeStep::MapRegisters),
            ProbeAction::Undo(ProbeStep::EnableClock),
            failed,
        ]
    );
    let (_, actions) = bind(Some(4), -12);
    assert_eq!(
        actions[5..],
        [
            ProbeAction::Undo(ProbeStep::EnablePm),
            ProbeAction::Undo(ProbeStep::MapRegisters),
            ProbeAction::Undo(ProbeStep::EnableClock),
            failed,
        ]
    );
    let (_, actions) = bind(Some(2), -12);
    assert_eq!(actions[3..], [ProbeAction::Undo(ProbeStep::EnableClock), failed]);
    let (_, actions) = bind(Some(1), -12);
    assert_eq!(actions[2..], [failed]);
    let (_, actions) = bind(Some(0), -12);
    assert_eq!(actions[..], [ProbeAction::Perform(ProbeStep::GetClock), failed]);
}

#[test]
fn enabling_power_management_cannot_fail() {
    let (binding, _) = bind(Some(3), -12);
    assert_eq!(binding, Binding::Bound);
}

#[test]
fn remove_drops_the_registration_first() {
    let (mut binding, _) = bind(None, 0);
    ExynosTrngDriver::remove(&mut binding);
    let mut actions = vec![binding.pending()];
    while let ProbeAction::Undo(_) = actions.last().unwrap() {
        actions.push(binding.step(0));
    }
    assert_eq!(
        actions,
        vec![
            ProbeAction::Undo(ProbeStep::Register),
            ProbeAction::Undo(ProbeStep::ResumePm),
            ProbeAction::Undo(ProbeStep::EnablePm),
            ProbeAction::Undo(ProbeStep::MapRegisters),
            ProbeAction::Undo(ProbeStep::EnableClock),
            ProbeAction::Removed,
        ]
    );
    assert_eq!(binding.step(0), ProbeAction::Removed);
}

#[test]
fn remove_leaves_an_unbound_driver_alone() {
    let mut binding = ExynosTrngDriver::probe();
    ExynosTrngDriver::remove(&mut binding);
    assert_eq!(binding, Binding::Probing { index: 0 });
    let (mut failed, _) = bind(Some(0), -3);
    ExynosTrngDriver::remove(&mut failed);
    assert_eq!(failed.pending(), ProbeAction::Failed(Error::ResourceUnavailable { errno: -3 }));
}

struct Plain;

impl HwrngOperations for Plain {
    const TO_USE: ToUse = ToUse { init: true, cleanup: false };
    type Data = u32;

    fn read(_data: &u32, _buffer: &mut [u8], _wait: bool) -> Result<u32, Error> {
        Ok(0)
    }
}

#[test]
fn generator_is_registered_under_the_name_of_the_device() {
    let pdev = hwrng::platform::Device::new(Device::new(2), "10830600.rng");
    let registration = ExynosTrngDriver::registration::<Plain>(&pdev, 77);
    let table = registration.hwrng();
    assert_eq!(table.name, "10830600.rng");
    assert_eq!(table.quality, 0);
    assert!(table.init);
    assert!(!table.cleanup);
    assert!(table.read);
    assert_eq!(table.priv_data, Some(77));
    assert!(!registration.registered());
}

#[test]
fn binding_finds_the_device_disabled_and_idle() {
    let pdev = hwrng::platform::Device::new(Device::new(2), "rng");
    let power = ExynosTrngDriver::power(&pdev);
    assert_eq!(*power.dev(), Device::new(2));
    assert!(!power.enabled());
    assert_eq!(power.users(), 0);
}

#[test]
fn binding_names_what_it_looks_up() {
    assert_eq!(EXYNOS_TRNG_CLOCK_ID, "secss");
    assert_eq!(EXYNOS_TRNG_MEM_RESOURCE, 0);
    assert_eq!(EXYNOS_TRNG_QUALITY, 0);
}
