use rpos::channel::Channel;

#[derive(Debug, Default, Clone, Copy)]
struct TestStruct {
    x: u32,
    y: u32,
    z: u32,
}

#[test]
fn test_basic_rxtx() {
    let (mut ch, tx, mut rx) = Channel::<TestStruct, u32>::new();

    tx.send(&mut ch, TestStruct::default());
    rx.read(&ch);
    assert_eq!(rx.last_cnt, 1);

    let try_result = rx.try_read(&ch);
    assert!(try_result.is_none());
}

#[test]
fn test_channel_drop() {
    let (mut ch, tx, rx) = Channel::<TestStruct, u32>::new();

    let rx2 = ch.clone_receiver(&rx);
    assert_eq!(ch.receiver_cnt, 2);
    let freed = ch.drop_receiver(rx2);
    assert!(!freed);
    assert_eq!(ch.receiver_cnt, 1);

    let freed = ch.drop_sender(tx);
    assert!(!freed);
    assert_eq!(ch.sender_cnt, 0);
    assert_eq!(ch.destroyed, true);
}

#[test]
fn send_then_read_returns_sent_value() {
    let (mut ch, tx, mut rx) = Channel::<TestStruct, u32>::new();

    tx.send(&mut ch, TestStruct { x: 0, y: 0, z: 0 });
    let v = rx.read(&ch);
    assert_eq!(v.x, 0);
    assert_eq!(v.y, 0);
    assert_eq!(v.z, 0);
    assert!(rx.try_read(&ch).is_none());

    tx.send(&mut ch, TestStruct { x: 1, y: 2, z: 3 });
    let v = rx.read(&ch);
    assert_eq!(v.x, 1);
    assert_eq!(v.y, 2);
    assert_eq!(v.z, 3);
    assert_eq!(rx.last_cnt, 2);
}

#[test]
fn read_returns_latest_of_several_sends() {
    let (mut ch, tx, mut rx) = Channel::<u32, u32>::new();
    tx.send(&mut ch, 10);
    tx.send(&mut ch, 20);
    tx.send(&mut ch, 30);
    assert_eq!(rx.read(&ch), 30);
    assert_eq!(rx.last_cnt, 3);
}

#[test]
fn try_read_delivers_each_publish_once() {
    let (mut ch, tx, mut rx) = Channel::<u32, u32>::new();

    assert!(rx.try_read(&ch).is_none());

    tx.send(&mut ch, 42);
    assert_eq!(rx.try_read(&ch), Some(42));
    assert!(rx.try_read(&ch).is_none());

    tx.send(&mut ch, 43);
    assert_eq!(rx.try_read(&ch), Some(43));
    assert!(rx.try_read(&ch).is_none());
}

#[test]
fn wait_for_update_reports_new_version() {
    let (mut ch, tx, rx) = Channel::<u32, u32>::new();
    assert!(!ch.wait_for_update(rx.last_cnt));
    tx.send(&mut ch, 5);
    assert!(ch.wait_for_update(rx.last_cnt));
}

#[test]
fn register_unregister_restores_callbacks() {
    let (mut ch, _tx, rx) = Channel::<u32, u32>::new();

    rx.register_callback(&mut ch, "cb_keep", 10);
    assert_eq!(ch.callbacks.len(), 1);

    rx.register_callback(&mut ch, "test_cb", 11);
    assert_eq!(ch.callbacks.len(), 2);

    rx.unregister_callback(&mut ch, "test_cb");
    assert_eq!(ch.callbacks.len(), 1);
    assert_eq!(ch.callbacks[0].0, "cb_keep");
    assert_eq!(ch.callbacks[0].1, 10);
}

#[test]
fn register_same_name_replaces() {
    let (mut ch, _tx, rx) = Channel::<u32, u32>::new();
    rx.register_callback(&mut ch, "cb", 1);
    rx.register_callback(&mut ch, "cb", 2);
    assert_eq!(ch.callbacks.len(), 1);
    assert_eq!(ch.callbacks[0].1, 2);
}

#[test]
fn unregister_missing_name_changes_nothing() {
    let (mut ch, _tx, rx) = Channel::<u32, u32>::new();
    rx.register_callback(&mut ch, "cb", 1);
    rx.unregister_callback(&mut ch, "other");
    assert_eq!(ch.callbacks.len(), 1);
    assert_eq!(ch.callbacks[0].0, "cb");
}

#[test]
fn sender_clone_and_drop_balance() {
    let (mut ch, tx, _rx) = Channel::<u32, u32>::new();

    let tx2 = ch.clone_sender(&tx);
    assert_eq!(ch.sender_cnt, 2);
    assert!(!ch.drop_sender(tx2));
    assert_eq!(ch.sender_cnt, 1);
    assert!(!ch.destroyed);

    assert!(!ch.drop_sender(tx));
    assert_eq!(ch.sender_cnt, 0);
    assert!(ch.destroyed);
}

#[test]
fn refcount_destruction() {
    let (mut ch, tx, rx) = Channel::<TestStruct, u32>::new();

    let rx2 = ch.clone_receiver(&rx);
    assert_eq!(ch.receiver_cnt, 2);

    assert!(!ch.drop_receiver(rx2));
    assert_eq!(ch.receiver_cnt, 1);

    assert!(!ch.drop_sender(tx));
    assert_eq!(ch.sender_cnt, 0);
    assert!(ch.destroyed);

    // the last handle of the other side frees the channel, exactly once
    assert!(ch.drop_receiver(rx));
    assert_eq!(ch.receiver_cnt, 0);
}

#[test]
fn default_handles_are_detached() {
    let rx = rpos::channel::Receiver::default();
    assert_eq!(rx.last_cnt, 0);
    let _tx = rpos::channel::Sender::default();
}

#[test]
fn freed_exactly_once_either_order() {
    // sender side drops last
    let (mut ch, tx, rx) = Channel::<u32, u32>::new();
    assert!(!ch.drop_receiver(rx));
    assert!(ch.drop_sender(tx));

    // receiver side drops last
    let (mut ch, tx, rx) = Channel::<u32, u32>::new();
    assert!(!ch.drop_sender(tx));
    assert!(ch.drop_receiver(rx));
}
