use brickbeam::{map_speed, Channel, Output};

#[test]
fn test_channel_output_values() {
    assert_eq!(Channel::One as u8, 0);
    assert_eq!(Output::RED as u8, 0);
}

#[test]
fn test_map_speed_values() {
    assert_eq!(map_speed(0), 0);
    assert_eq!(map_speed(8), 8);

    assert_eq!(map_speed(1), 1);
    assert_eq!(map_speed(-1), 15);

    assert_eq!(map_speed(7), 7);
    assert_eq!(map_speed(9), 7);

    assert_eq!(map_speed(-6), 10);
    assert_eq!(map_speed(-7), 9);
    assert_eq!(map_speed(-8), 9);
}

#[test]
fn test_map_speed_extreme_values() {
    assert_eq!(map_speed(100), 7); // Clamp excessive positive values to 7
    assert_eq!(map_speed(-100), 9); // Clamp excessive negative values to -7 (encoded as 9)
}

#[test]
fn test_map_speed_clamps_to_boundary_codes() {
    // Clamped inputs share the code of the nearest in-range speed.
    for s in 9..=127i8 {
        assert_eq!(map_speed(s), map_speed(7));
    }
    for s in -128..=-8i8 {
        assert_eq!(map_speed(s), map_speed(-7));
    }
}

#[test]
fn test_map_speed_in_range_codes() {
    for s in 1..=7i8 {
        assert_eq!(map_speed(s), s as u8);
        assert_eq!(map_speed(-s), 16 - s as u8);
    }
}
