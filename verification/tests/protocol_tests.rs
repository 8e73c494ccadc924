use ssd1306_driver::protocol::{
    push_window_commands, Transfer, Window, COMMAND_MODE, CONTROLLER_RAM, DATA_MODE, I2C_ADDRESS,
    PAGE_COUNT, PAGE_WIDTH, SET_COLUMN_ADDRESS, SET_PAGE_ADDRESS,
};

#[test]
fn window_is_programmed_by_two_opcodes_with_two_bytes_each() {
    let mut out = Vec::new();
    let window = Window { start_column: 45, end_column: 46, start_page: 2, end_page: 3 };
    push_window_commands(&mut out, window);
    assert_eq!(
        out,
        vec![
            Transfer::Command(0x21),
            Transfer::Command(45),
            Transfer::Command(46),
            Transfer::Command(0x22),
            Transfer::Command(2),
            Transfer::Command(3),
        ]
    );
    assert_eq!(SET_COLUMN_ADDRESS, 0x21);
    assert_eq!(SET_PAGE_ADDRESS, 0x22);
}

#[test]
fn window_commands_are_appended_to_what_is_there() {
    let mut out = vec![Transfer::Data(9)];
    let window = Window { start_column: 0, end_column: 127, start_page: 0, end_page: 7 };
    push_window_commands(&mut out, window);
    assert_eq!(out.len(), 7);
    assert_eq!(out[0], Transfer::Data(9));
    assert_eq!(out[1], Transfer::Command(0x21));
    assert_eq!(out[3], Transfer::Command(127));
    assert_eq!(out[6], Transfer::Command(7));
}

#[test]
fn window_values_are_passed_on_unchecked() {
    let mut out = Vec::new();
    let window = Window { start_column: 200, end_column: 3, start_page: 9, end_page: 1 };
    push_window_commands(&mut out, window);
    assert_eq!(out[1], Transfer::Command(200));
    assert_eq!(out[2], Transfer::Command(3));
    assert_eq!(out[4], Transfer::Command(9));
    assert_eq!(out[5], Transfer::Command(1));
}

#[test]
fn window_holds_the_indices_of_its_rectangle() {
    let window = Window { start_column: 10, end_column: 20, start_page: 1, end_page: 2 };
    assert!(window.holds(128 + 10));
    assert!(window.holds(128 + 20));
    assert!(window.holds(256 + 15));
    assert!(!window.holds(128 + 9));
    assert!(!window.holds(128 + 21));
    assert!(!window.holds(15));
    assert!(!window.holds(384 + 15));
}

#[test]
fn controller_geometry_constants() {
    assert_eq!(PAGE_WIDTH, 128);
    assert_eq!(PAGE_COUNT, 8);
    assert_eq!(CONTROLLER_RAM, 1024);
    assert_eq!(I2C_ADDRESS, 0x3C);
}

#[test]
fn control_byte_tells_commands_from_data() {
    assert_eq!(Transfer::Command(0xAF).control_byte(), 0x00);
    assert_eq!(Transfer::Data(0xAF).control_byte(), 0x40);
    assert_eq!(COMMAND_MODE, 0x00);
    assert_eq!(DATA_MODE, 0x40);
    assert_eq!(Transfer::Command(0xAF).payload(), 0xAF);
    assert_eq!(Transfer::Data(0x12).payload(), 0x12);
}
