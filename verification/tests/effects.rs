use desktop::effects::{DesktopEffect, DesktopEffectPhase, DesktopEffectScheduler, Effects};
use desktop::DesktopTarget;

fn effects(list: Vec<DesktopEffect>) -> Effects {
    Effects::from(list)
}

#[test]
fn effects_run_phase_by_phase() {
    let a = DesktopTarget::Desktop;
    let mut scheduler = DesktopEffectScheduler::new(effects(vec![
        DesktopEffect::ApplyLayout(a),
        DesktopEffect::Measure(a),
        DesktopEffect::Place(a),
    ]));
    assert_eq!(scheduler.pop_next(), Some(DesktopEffect::Measure(a)));
    assert_eq!(scheduler.pop_next(), Some(DesktopEffect::Place(a)));
    assert_eq!(scheduler.pop_next(), Some(DesktopEffect::ApplyLayout(a)));
    assert_eq!(scheduler.pop_next(), None);
}

#[test]
fn enqueueing_again_moves_an_effect_behind_the_others() {
    let a = DesktopTarget::Desktop;
    let b = DesktopTarget::Launcher(desktop::LaunchProfileId::new());
    let mut scheduler = DesktopEffectScheduler::new(effects(vec![DesktopEffect::Measure(a), DesktopEffect::Measure(b)]));
    scheduler.enqueue_all(effects(vec![DesktopEffect::Measure(a)]));
    assert_eq!(scheduler.pop_next(), Some(DesktopEffect::Measure(b)));
    assert_eq!(scheduler.pop_next(), Some(DesktopEffect::Measure(a)));
    assert_eq!(scheduler.pop_next(), None);
}

#[test]
fn later_phases_can_still_receive_effects() {
    let a = DesktopTarget::Desktop;
    let mut scheduler = DesktopEffectScheduler::new(effects(vec![DesktopEffect::Measure(a)]));
    assert_eq!(scheduler.pop_next(), Some(DesktopEffect::Measure(a)));
    scheduler.enqueue_all(effects(vec![DesktopEffect::ApplyLayout(a), DesktopEffect::Place(a)]));
    assert_eq!(scheduler.pop_next(), Some(DesktopEffect::Place(a)));
    assert_eq!(scheduler.pop_next(), Some(DesktopEffect::ApplyLayout(a)));
}

#[test]
fn effect_phases() {
    let a = DesktopTarget::Desktop;
    assert_eq!(DesktopEffect::Measure(a).phase(), DesktopEffectPhase::Layout);
    assert_eq!(DesktopEffect::Place(a).phase(), DesktopEffectPhase::Layout);
    assert_eq!(DesktopEffect::ApplyLayout(a).phase(), DesktopEffectPhase::PropagatePlacements);
}

#[test]
fn effects_collect_in_order() {
    let a = DesktopTarget::Desktop;
    let mut list = Effects::none();
    list.push(DesktopEffect::Measure(a));
    list.append(effects(vec![DesktopEffect::Place(a)]));
    assert_eq!(list.as_slice(), &[DesktopEffect::Measure(a), DesktopEffect::Place(a)]);
    assert!(Effects::default().into_vec().is_empty());
}
