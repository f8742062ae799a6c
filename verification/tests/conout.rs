use efi_core::conout::ConOut;
use efi_core::logger::{
    Logger, _log, _log_ex, LOG_LEVEL_ERROR, LOG_LEVEL_INFO, LOG_LEVEL_NONE, LOG_LEVEL_VERBOSE,
    LOG_LEVEL_WARN, LOG_MASK_ALL, LOG_MASK_COMMON, LOG_MASK_FILE_SYSTEM, LOG_MASK_IMAGE,
    LOG_MASK_MEMORY,
};

#[test]
fn line_feed_gets_a_carriage_return() {
    let conout = ConOut::new();
    assert_eq!(conout.write_byte(b'a'), vec![b'a']);
    assert_eq!(conout.write_byte(b'\n'), vec![b'\r', b'\n']);
    assert_eq!(conout.write_byte(b'\r'), vec![b'\r']);
    assert_eq!(conout.write_byte(0), vec![0]);
    assert_eq!(conout.write_string("ok\nnext\n"), b"ok\r\nnext\r\n".to_vec());
    assert_eq!(conout.write_string(""), Vec::<u8>::new());
    // A character stands on the port as the low byte of its number.
    assert_eq!(conout.write_string("\u{e9}\u{20ac}\u{10a}"), vec![0xe9, 0xac, b'\r', b'\n']);
}

#[test]
fn control_strings_at_the_start() {
    let conout = ConOut::new();
    assert_eq!(&conout.set_mode_string, b"\x1b[=3h\0");
    assert_eq!(&conout.set_attribute_string, b"\x1b[0m\x1b[40m\x1b[40m\0");
    assert_eq!(&conout.clear_screen_string, b"\x1b[2J\0");
    assert_eq!(&conout.set_cursor_position_string, b"\x1b[00;00H\0");
    assert_eq!(&conout.cursor_forward_string, b"\x1b[00C\0");
    assert_eq!(&conout.cursor_backward_string, b"\x1b[00D\0");
    assert_eq!(conout.clear_screen(), Vec::<u8>::new());
}

#[test]
fn cursor_position_is_counted_from_one() {
    let mut conout = ConOut::new();
    assert_eq!(conout.set_cursor_position(0, 0), vec![b'\r']);
    assert_eq!(&conout.set_cursor_position_string, b"\x1b[01;01H\0");
    assert_eq!(conout.set_cursor_position(79, 24), Vec::<u8>::new());
    assert_eq!(&conout.set_cursor_position_string, b"\x1b[25;80H\0");
    assert_eq!(conout.set_cursor_position(0, 9), Vec::<u8>::new());
    assert_eq!(&conout.set_cursor_position_string, b"\x1b[10;01H\0");
    assert_eq!(conout.set_cursor_position(5, 0), Vec::<u8>::new());
    assert_eq!(&conout.set_cursor_position_string, b"\x1b[01;06H\0");
    // Beyond two digits the first digit runs on through the characters.
    conout.set_cursor_position(99, 0);
    assert_eq!(conout.set_cursor_position_string[5], b'0' + 10);
    assert_eq!(conout.set_cursor_position_string[6], b'0');
    assert_eq!(&conout.set_attribute_string, b"\x1b[0m\x1b[40m\x1b[40m\0");
}

#[test]
fn attribute_sets_brightness_and_colours() {
    let mut conout = ConOut::new();
    conout.set_attribute(0x07);
    assert_eq!(&conout.set_attribute_string, b"\x1b[0m\x1b[37m\x1b[40m\0");
    conout.set_attribute(0x1f);
    assert_eq!(&conout.set_attribute_string, b"\x1b[1m\x1b[37m\x1b[44m\0");
    conout.set_attribute(0x4e);
    assert_eq!(&conout.set_attribute_string, b"\x1b[1m\x1b[33m\x1b[41m\0");
    conout.set_attribute(0x00);
    assert_eq!(&conout.set_attribute_string, b"\x1b[0m\x1b[30m\x1b[40m\0");
    let codes = [30, 34, 32, 36, 31, 35, 33, 37];
    for color in 0..8usize {
        conout.set_attribute(color | (color << 4));
        let fg = codes[color];
        let bg = codes[color] + 10;
        assert_eq!(conout.set_attribute_string[6], b'0' + (fg / 10) as u8);
        assert_eq!(conout.set_attribute_string[7], b'0' + (fg % 10) as u8);
        assert_eq!(conout.set_attribute_string[11], b'0' + (bg / 10) as u8);
        assert_eq!(conout.set_attribute_string[12], b'0' + (bg % 10) as u8);
        assert_eq!(conout.set_attribute_string[2], b'0');
    }
    assert_eq!(&conout.set_cursor_position_string, b"\x1b[00;00H\0");
}

#[test]
fn attribute_with_a_high_bit_is_ignored() {
    let mut conout = ConOut::new();
    conout.set_attribute(0x1f);
    let before = conout.set_attribute_string;
    conout.set_attribute(0x80);
    assert_eq!(conout.set_attribute_string, before);
    conout.set_attribute(0x107);
    assert_eq!(conout.set_attribute_string, before);
    conout.set_attribute(usize::MAX);
    assert_eq!(conout.set_attribute_string, before);
}

#[test]
fn logger_starts_open_and_can_be_narrowed() {
    let mut logger = Logger::new();
    assert_eq!(logger.get_level(), LOG_LEVEL_VERBOSE);
    assert_eq!(logger.get_mask(), LOG_MASK_ALL);
    logger.set_level(LOG_LEVEL_WARN);
    assert_eq!((logger.get_level(), logger.get_mask()), (10, LOG_MASK_ALL));
    logger.set_mask(LOG_MASK_IMAGE | LOG_MASK_MEMORY);
    assert_eq!((logger.get_level(), logger.get_mask()), (10, 0x14));
    assert_eq!(logger.write_byte(b'\n'), vec![b'\r', b'\n']);
    assert_eq!(logger.write_string("a\n"), b"a\r\n".to_vec());
}

#[test]
fn log_filter_goes_by_level_and_subject() {
    let mut logger = Logger::new();
    assert_eq!(_log(&logger, "start\n"), b"start\r\n".to_vec());
    assert_eq!(_log_ex(&logger, LOG_LEVEL_VERBOSE, LOG_MASK_COMMON, "x"), b"x".to_vec());
    assert_eq!(_log_ex(&logger, LOG_LEVEL_VERBOSE + 1, LOG_MASK_COMMON, "x"), Vec::<u8>::new());
    assert_eq!(_log_ex(&logger, LOG_LEVEL_ERROR, 0, "x"), Vec::<u8>::new());

    logger.set_level(LOG_LEVEL_INFO);
    logger.set_mask(LOG_MASK_IMAGE | LOG_MASK_FILE_SYSTEM);
    assert_eq!(_log_ex(&logger, LOG_LEVEL_INFO, LOG_MASK_IMAGE, "load\n"), b"load\r\n".to_vec());
    assert_eq!(_log_ex(&logger, LOG_LEVEL_WARN, LOG_MASK_FILE_SYSTEM, "fs"), b"fs".to_vec());
    assert_eq!(_log_ex(&logger, LOG_LEVEL_VERBOSE, LOG_MASK_IMAGE, "x"), Vec::<u8>::new());
    assert_eq!(_log_ex(&logger, LOG_LEVEL_ERROR, LOG_MASK_MEMORY, "x"), Vec::<u8>::new());
    assert_eq!(_log_ex(&logger, LOG_LEVEL_ERROR, LOG_MASK_MEMORY | LOG_MASK_IMAGE, "x"), b"x".to_vec());
    assert_eq!(_log(&logger, "always"), b"always".to_vec());

    logger.set_level(LOG_LEVEL_NONE);
    assert_eq!(_log_ex(&logger, LOG_LEVEL_ERROR, LOG_MASK_IMAGE, "x"), Vec::<u8>::new());
    assert_eq!(_log_ex(&logger, LOG_LEVEL_NONE, LOG_MASK_IMAGE, "x"), b"x".to_vec());
}
