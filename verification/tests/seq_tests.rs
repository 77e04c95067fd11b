use tcp_stack::tcp::seq as tcp_seq;
use tcp_stack::util::isn::{generate_isn, isn_from_micros};
use tcp_stack::util::seq::{seq_le, seq_lt};

#[test]
fn seq_lt_orders_nearby_numbers() {
    assert!(seq_lt(1, 2));
    assert!(!seq_lt(2, 1));
    assert!(!seq_lt(7, 7));
    assert!(seq_lt(100, 100 + 0x7FFF_FFFF));
}

#[test]
fn seq_lt_wraps_around() {
    assert!(seq_lt(0xFFFF_FFFF, 0));
    assert!(!seq_lt(0, 0xFFFF_FFFF));
    assert!(seq_lt(0xFFFF_FFF0, 5));
    assert!(!seq_lt(5, 0xFFFF_FFF0));
}

#[test]
fn seq_lt_half_circle_apart_is_before_both_ways() {
    // Exactly 2^31 apart: the signed difference is i32::MIN either way.
    assert!(seq_lt(0, 0x8000_0000));
    assert!(seq_lt(0x8000_0000, 0));
}

#[test]
fn seq_le_is_lt_or_equal() {
    assert!(seq_le(5, 5));
    assert!(seq_le(5, 6));
    assert!(!seq_le(6, 5));
    assert!(seq_le(0xFFFF_FFFF, 0));
    assert!(!seq_le(0, 0xFFFF_FFFF));
}

#[test]
fn seq_shift_keeps_order() {
    let k: u32 = 0xFFFF_FF00;
    for (a, b) in [(1u32, 2u32), (2, 1), (0xFFFF_FFFF, 0), (3, 3)] {
        assert_eq!(seq_lt(a.wrapping_add(k), b.wrapping_add(k)), seq_lt(a, b));
        assert_eq!(seq_le(a.wrapping_add(k), b.wrapping_add(k)), seq_le(a, b));
    }
}

#[test]
fn tcp_seq_matches_util_seq() {
    for (a, b) in [(1u32, 2u32), (2, 1), (0xFFFF_FFFF, 0), (3, 3), (0, 0x8000_0000)] {
        assert_eq!(tcp_seq::seq_lt(a, b), seq_lt(a, b));
        assert_eq!(tcp_seq::seq_le(a, b), seq_le(a, b));
    }
}

#[test]
fn isn_truncates_microseconds_to_32_bits() {
    assert_eq!(isn_from_micros(Some(5)), 5);
    assert_eq!(isn_from_micros(Some(0x1_0000_0005)), 5);
    assert_eq!(isn_from_micros(Some(0xABCD_1234_5678_9ABC)), 0x5678_9ABC);
    assert_eq!(isn_from_micros(None), 0);
}

#[test]
fn generate_isn_follows_the_clock() {
    let before = std::time::SystemTime::now()
        .duration_since(std::time::UNIX_EPOCH)
        .unwrap()
        .as_micros();
    let isn = generate_isn();
    let after = std::time::SystemTime::now()
        .duration_since(std::time::UNIX_EPOCH)
        .unwrap()
        .as_micros();
    // The clock read lies between the two readings taken around the call.
    let lo = before as u32;
    let span = (after - before) as u32;
    assert!(isn.wrapping_sub(lo) <= span);
}
