use sdl3_pixels::Error;

#[test]
fn unknown_format_message() {
    assert_eq!(Error::UnknownPixelFormat.message(), "Unknown pixel format");
}

#[test]
fn capacity_message_holds_the_capacity_in_decimal() {
    assert_eq!(
        Error::CapacityOverflows(4294967295).message(),
        "Integer 'capacity' overflows (4294967295)"
    );
    assert_eq!(
        Error::CapacityOverflows(2147483648).message(),
        "Integer 'capacity' overflows (2147483648)"
    );
    assert_eq!(Error::CapacityOverflows(0).message(), "Integer 'capacity' overflows (0)");
    assert_eq!(Error::CapacityOverflows(7).message(), "Integer 'capacity' overflows (7)");
    assert_eq!(Error::CapacityOverflows(10).message(), "Integer 'capacity' overflows (10)");
    assert_eq!(Error::CapacityOverflows(1009).message(), "Integer 'capacity' overflows (1009)");
}
