use carrion_eris::buffer::{Buffer, Found};
use carrion_eris::game::Mutations;

#[test]
fn changes_queue_per_user() {
    let mut buffer = Buffer::new();
    assert!(buffer.get(7).is_none());
    buffer.add(Mutations::Delete(7));
    buffer.add(Mutations::SynchronizeItems(7));
    buffer.add(Mutations::Delete(9));
    let seven = buffer.get(7).unwrap();
    assert_eq!(seven.len(), 2);
    assert!(matches!(seven[0], Mutations::Delete(7)));
    assert!(matches!(seven[1], Mutations::SynchronizeItems(7)));
    assert_eq!(buffer.get(9).unwrap().len(), 1);
    buffer.clear(7);
    assert!(buffer.get(7).is_none());
    assert_eq!(buffer.get(9).unwrap().len(), 1);
}

#[test]
fn extending_replaces_what_was_waiting() {
    let mut buffer = Buffer::new();
    buffer.add(Mutations::Delete(3));
    buffer.add(Mutations::Delete(3));
    buffer.extend(vec![Mutations::SynchronizeEnemies(3)]);
    let three = buffer.get(3).unwrap();
    assert_eq!(three.len(), 1);
    assert!(matches!(three[0], Mutations::SynchronizeEnemies(3)));
    buffer.extend(vec![Mutations::SynchronizeItems(4), Mutations::Delete(4)]);
    assert_eq!(buffer.get(4).unwrap().len(), 2);
}

#[test]
fn one_attempt_settles_unless_locked() {
    let mut buffer = Buffer::new();
    let mut pending = Some(Mutations::Delete(5));
    assert!(!buffer.settle_add(5, Found::Locked, &mut pending));
    assert!(pending.is_some());
    assert!(buffer.get(5).is_none());
    assert!(buffer.settle_add(5, Found::Absent, &mut pending));
    assert!(pending.is_none());
    assert_eq!(buffer.get(5).unwrap().len(), 1);
    let mut next = Some(Mutations::SynchronizeItems(5));
    assert!(buffer.settle_add(5, Found::Present(vec![Mutations::Delete(5)]), &mut next));
    let five = buffer.get(5).unwrap();
    assert_eq!(five.len(), 2);
    assert!(matches!(five[1], Mutations::SynchronizeItems(5)));
    let mut whole = Some(vec![Mutations::SynchronizeEnemies(5)]);
    assert!(!buffer.settle_extend(5, Found::Locked, &mut whole));
    assert_eq!(buffer.get(5).unwrap().len(), 2);
    assert!(buffer.settle_extend(5, Found::Absent, &mut whole));
    assert!(whole.is_none());
    assert_eq!(buffer.get(5).unwrap().len(), 1);
}
