use virtualizationservice::lifecycle::{ExitStep, ExitTracker};
use virtualizationservice::zvec::ZVec;

#[test]
fn exit_work_is_handed_out_once() {
    let mut t = ExitTracker::new(17);
    assert!(t.running());
    assert_eq!(t.cid(), 17);
    assert_eq!(
        t.process_exited(),
        vec![ExitStep::MarkStopped, ExitStep::NotifyDied(17), ExitStep::RemoveTemporaryDirectory]
    );
    assert!(!t.running());
    assert_eq!(t.process_exited(), vec![]);
    assert!(!t.running());
    assert_eq!(t.cid(), 17);
}

#[test]
fn zvec_keeps_its_bytes() {
    let z = ZVec::from(vec![1u8, 2, 3, 255]);
    assert_eq!(z.as_slice(), &[1u8, 2, 3, 255]);
    let empty = ZVec::from(Vec::new());
    assert!(empty.as_slice().is_empty());
    drop(z);
}
