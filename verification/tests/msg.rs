use rpos::msg::MessageList;

#[derive(Debug, Clone, Copy)]
struct GyroData {
    data: [i32; 3],
}

#[test]
fn test_basic_message() {
    let mut list: MessageList<GyroData, u32> = MessageList::new();
    list.add_message("test_gyro");

    let mut rx = list.get_new_rx_of_message("test_gyro").unwrap();
    let tx = list.get_new_tx_of_message("test_gyro").unwrap();

    tx.send(&mut list.data[0].1.channel, GyroData { data: [1, 2, 3] });

    let recv_data = rx.read(&list.data[0].1.channel).data;

    assert_eq!(recv_data[0], 1);
    assert_eq!(recv_data[1], 2);

    println!("data:{:?}", recv_data);
}

#[test]
fn lookup_of_missing_name_is_absent() {
    let mut list: MessageList<u32, u32> = MessageList::new();
    list.add_message("present");

    assert!(list.get_message("absent").is_none());
    assert!(list.get_new_tx_of_message("absent").is_none());
    assert!(list.get_new_rx_of_message("absent").is_none());
    assert!(list.get_message("present").is_some());
}

#[test]
fn handed_out_handles_raise_refcounts() {
    let mut list: MessageList<u32, u32> = MessageList::new();
    list.add_message("m");
    assert_eq!(list.data[0].1.channel.sender_cnt, 1);
    assert_eq!(list.data[0].1.channel.receiver_cnt, 1);

    let _tx = list.get_new_tx_of_message("m").unwrap();
    assert_eq!(list.data[0].1.channel.sender_cnt, 2);
    assert_eq!(list.data[0].1.channel.receiver_cnt, 1);

    let _rx = list.get_new_rx_of_message("m").unwrap();
    assert_eq!(list.data[0].1.channel.receiver_cnt, 2);
}

#[test]
fn add_message_replaces_earlier_binding() {
    let mut list: MessageList<u32, u32> = MessageList::new();
    list.add_message("m");
    let tx = list.get_new_tx_of_message("m").unwrap();
    tx.send(&mut list.data[0].1.channel, 9);
    assert_eq!(list.data[0].1.channel.cnt, 1);

    // re-registration binds the name to a fresh, empty channel
    list.add_message("m");
    assert_eq!(list.data.len(), 1);
    assert_eq!(list.data[0].1.channel.cnt, 0);
    assert!(list.data[0].1.channel.data.is_none());
    assert_eq!(list.data[0].1.channel.sender_cnt, 1);
}
