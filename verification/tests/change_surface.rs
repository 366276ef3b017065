use desktop::change::DesktopChange;
use desktop::change_surface::{ChangeOutput, ChangeRun, ChangeSurface};
use desktop::{DesktopTarget, FocusDepth, InstanceId, LaunchProfileId};

fn depth(c: &DesktopChange) -> Option<FocusDepth> {
    match c {
        DesktopChange::CommitFocusDepth(d) => Some(*d),
        _ => None,
    }
}

#[test]
fn a_surface_holds_each_target_once() {
    let mut s = ChangeSurface::new();
    assert!(!s.camera_invalid());
    s.invalidate(DesktopTarget::Desktop);
    s.invalidate(DesktopTarget::Desktop);
    assert_eq!(s.size_invalid, vec![DesktopTarget::Desktop]);
    assert!(s.camera_invalid());
    let mut other = ChangeSurface::new();
    other.invalidate(DesktopTarget::Launcher(LaunchProfileId(3)));
    other.invalidate(DesktopTarget::Desktop);
    other.window_size_changed = true;
    s.combine(other);
    assert_eq!(s.size_invalid, vec![DesktopTarget::Desktop, DesktopTarget::Launcher(LaunchProfileId(3))]);
    assert!(s.window_size_changed);
}

#[test]
fn a_window_resize_alone_invalidates_the_camera() {
    let mut s = ChangeSurface::new();
    s.window_size_changed = true;
    assert!(s.camera_invalid());
}

#[test]
fn outputs_combine_changes_in_order() {
    let mut a = ChangeOutput::measures(DesktopTarget::Instance(InstanceId(1)));
    a.changes.push(DesktopChange::CommitFocusDepth(FocusDepth::Desktop));
    let mut b = ChangeOutput::changes(vec![DesktopChange::CommitFocusDepth(FocusDepth::Instance)]);
    b.focus_changed(DesktopTarget::Desktop);
    a.combine(b);
    let depths: Vec<_> = a.changes.iter().map(depth).collect();
    assert_eq!(depths, vec![Some(FocusDepth::Desktop), Some(FocusDepth::Instance)]);
    assert_eq!(a.surface.size_invalid, vec![DesktopTarget::Instance(InstanceId(1)), DesktopTarget::Desktop]);
}

#[test]
fn follow_up_changes_run_before_the_pending_ones() {
    let mut run = ChangeRun::new(vec![
        DesktopChange::CommitFocusDepth(FocusDepth::Desktop),
        DesktopChange::CommitFocusDepth(FocusDepth::Project),
    ]);
    let first = run.next_change().unwrap();
    assert_eq!(depth(&first), Some(FocusDepth::Desktop));
    let mut output = ChangeOutput::changes(vec![
        DesktopChange::CommitFocusDepth(FocusDepth::Launcher),
        DesktopChange::CommitFocusDepth(FocusDepth::Instance),
    ]);
    output.measure(DesktopTarget::Desktop);
    run.complete(output);
    let mut order = Vec::new();
    while let Some(c) = run.next_change() {
        order.push(depth(&c));
        run.complete(ChangeOutput::measures(DesktopTarget::Desktop));
    }
    assert_eq!(order, vec![Some(FocusDepth::Launcher), Some(FocusDepth::Instance), Some(FocusDepth::Project)]);
    let surface = run.finish();
    assert_eq!(surface.size_invalid, vec![DesktopTarget::Desktop]);
    assert!(!surface.window_size_changed);
}
