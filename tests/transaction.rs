use stm32l1xx_hal::transaction::{Direction, Transaction};

#[test]
fn write_hands_out_each_byte_then_none() {
    let mut t = Transaction::write(0x42, &[1, 2, 3]);
    assert_eq!(t.addr(), 0x42);
    assert!(t.write_on());
    assert!(!t.read_on());
    for expected in [1u8, 2, 3] {
        assert!(t.need_sending());
        assert!(!t.need_receiving());
        assert_eq!(t.mode(), Some(Direction::Send));
        assert_eq!(t.next_byte_for_send(), Some(expected));
    }
    assert!(!t.need_sending());
    assert!(!t.need_receiving());
    assert!(t.is_finish());
    assert_eq!(t.mode(), None);
    assert_eq!(t.next_byte_for_send(), None);
    assert_eq!(t.next_byte_for_send(), None);
}

#[test]
fn empty_write_is_finished() {
    let mut t = Transaction::write(0x10, &[]);
    assert!(t.is_finish());
    assert_eq!(t.mode(), None);
    assert_eq!(t.next_byte_for_send(), None);
}

#[test]
fn store_reports_full_on_last_slot_only() {
    let mut t = Transaction::read(0x50, vec![0u8; 3]);
    assert_eq!(t.mode(), Some(Direction::Receive));
    assert_eq!(t.save_recv_byte(7), Some(false));
    assert_eq!(t.save_recv_byte(8), Some(false));
    assert_eq!(t.save_recv_byte(9), Some(true));
    assert!(t.is_finish());
    assert_eq!(t.save_recv_byte(10), None);
    assert_eq!(t.received(), &[7, 8, 9]);
}

#[test]
fn store_into_single_slot() {
    let mut t = Transaction::read(0x50, vec![0xEE]);
    assert_eq!(t.save_recv_byte(1), Some(true));
    assert_eq!(t.save_recv_byte(2), None);
    assert_eq!(t.received(), &[1]);
}

#[test]
fn store_without_inbound_range() {
    let mut t = Transaction::write(0x50, &[1]);
    assert_eq!(t.save_recv_byte(1), None);
    assert_eq!(t.received(), &[] as &[u8]);
}

#[test]
fn write_read_sends_before_receiving() {
    let mut t = Transaction::write_read(0x21, &[0xA0, 0xA1], vec![0u8; 2]);
    assert!(t.write_on() && t.read_on());
    assert!(t.need_receiving());
    assert_eq!(t.mode(), Some(Direction::Send));
    assert_eq!(t.next_byte_for_send(), Some(0xA0));
    assert_eq!(t.mode(), Some(Direction::Send));
    assert_eq!(t.next_byte_for_send(), Some(0xA1));
    assert_eq!(t.mode(), Some(Direction::Receive));
    assert_eq!(t.save_recv_byte(5), Some(false));
    assert_eq!(t.save_recv_byte(6), Some(true));
    assert_eq!(t.mode(), None);
    assert_eq!(t.received(), &[5, 6]);
}
