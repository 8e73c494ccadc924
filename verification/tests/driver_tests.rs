use ssd1306_driver::protocol::Transfer;
use ssd1306_driver::ssd1306::{
    Display, BLACK, FRAME_BYTES, LCD_HEIGHT, LCD_WIDTH, SSD1306, WHITE,
};
use ssd1306_driver::transport::{BusError, Recorder};

fn commands(bytes: &[u8]) -> Vec<Transfer> {
    bytes.iter().map(|b| Transfer::Command(*b)).collect()
}

fn init_commands() -> Vec<Transfer> {
    commands(&[
        0xAE, 0xD5, 0x80, 0xA8, 0x3F, 0xD3, 0x00, 0x40, 0x8D, 0x14, 0x20, 0x00, 0xA1, 0xC8, 0xDA,
        0x12, 0x81, 0xCF, 0xD9, 0xF1, 0xDB, 0x40, 0xA4, 0xA6, 0x21, 0x00, 0x7F, 0x22, 0x00, 0x07,
        0x2E, 0xAF,
    ])
}

fn sent(driver: &SSD1306<Recorder>) -> Vec<Transfer> {
    driver.bus().transfers().clone()
}

#[test]
fn new_driver_is_blank_and_silent() {
    let driver = SSD1306::new(Recorder::new());
    assert_eq!(driver.buffer(), &vec![0u8; 1024]);
    assert_eq!(driver.snapshot(), &vec![0u8; 1024]);
    assert!(sent(&driver).is_empty());
    assert_eq!(driver.get_width(), 128);
    assert_eq!(driver.get_height(), 64);
    assert_eq!(LCD_WIDTH, 128);
    assert_eq!(LCD_HEIGHT, 64);
    assert_eq!(FRAME_BYTES, 1024);
}

#[test]
fn default_colours() {
    let driver = SSD1306::new(Recorder::new());
    assert_eq!(driver.get_def_text_color(), WHITE);
    assert_eq!(driver.get_def_bg_color(), BLACK);
    assert_eq!(WHITE, 1);
    assert_eq!(BLACK, 0);
}

#[test]
fn begin_sends_the_start_up_sequence() {
    let mut driver = SSD1306::new(Recorder::new());
    driver.draw_pixel(1, 1, WHITE).unwrap();
    assert_eq!(driver.begin(), Ok(()));
    assert_eq!(sent(&driver), init_commands());
    assert_eq!(sent(&driver).len(), 32);
    assert_eq!(driver.buffer(), &vec![0u8; 1024]);
    assert_eq!(driver.snapshot(), &vec![0u8; 1024]);
}

#[test]
fn begin_aborts_on_a_refused_command() {
    let mut driver = SSD1306::new(Recorder::failing_after(5));
    driver.draw_pixel(1, 1, WHITE).unwrap();
    let frame = driver.buffer().clone();
    assert_eq!(driver.begin(), Err(BusError));
    assert_eq!(sent(&driver), init_commands()[..5].to_vec());
    assert_eq!(driver.buffer(), &frame);
    assert_eq!(driver.snapshot(), &vec![0u8; 1024]);
}

#[test]
fn begin_aborts_when_the_last_command_is_refused() {
    let mut driver = SSD1306::new(Recorder::failing_after(31));
    driver.draw_pixel(1, 1, WHITE).unwrap();
    let frame = driver.buffer().clone();
    assert_eq!(driver.begin(), Err(BusError));
    assert_eq!(sent(&driver).len(), 31);
    assert_eq!(driver.buffer(), &frame);
}

#[test]
fn initialize_selects_normal_video_first() {
    let mut driver = SSD1306::new(Recorder::new());
    assert_eq!(driver.initialize(), Ok(()));
    let mut expected = commands(&[0xA6]);
    expected.extend(init_commands());
    assert_eq!(sent(&driver), expected);
}

#[test]
fn initialize_aborts_on_a_refused_command() {
    let mut driver = SSD1306::new(Recorder::failing_after(0));
    assert_eq!(driver.initialize(), Err(BusError));
    assert!(sent(&driver).is_empty());
    let mut driver = SSD1306::new(Recorder::failing_after(3));
    assert_eq!(driver.initialize(), Err(BusError));
    assert_eq!(sent(&driver), commands(&[0xA6, 0xAE, 0xD5]));
}

#[test]
fn invert_sends_one_command() {
    let mut driver = SSD1306::new(Recorder::new());
    assert_eq!(driver.invert(true), Ok(()));
    assert_eq!(driver.invert(false), Ok(()));
    assert_eq!(driver.invert_display(true), Ok(()));
    assert_eq!(sent(&driver), commands(&[0xA7, 0xA6, 0xA7]));
    let mut failing = SSD1306::new(Recorder::failing_after(0));
    assert_eq!(failing.invert(true), Err(BusError));
    assert!(sent(&failing).is_empty());
}

#[test]
fn deinitialize_switches_the_panel_off() {
    let mut driver = SSD1306::new(Recorder::new());
    assert_eq!(driver.deinitialize(), Ok(()));
    assert_eq!(sent(&driver), commands(&[0xAE]));
}

#[test]
fn draw_pixel_uses_the_layout_and_sends_nothing() {
    let mut driver = SSD1306::new(Recorder::new());
    assert_eq!(driver.draw_pixel(45, 23, WHITE), Ok(()));
    assert_eq!(driver.buffer()[301], 0x80);
    assert_eq!(driver.buffer().iter().filter(|b| **b != 0).count(), 1);
    assert_eq!(driver.snapshot(), &vec![0u8; 1024]);
    assert!(sent(&driver).is_empty());
    assert_eq!(driver.draw_pixel(45, 23, BLACK), Ok(()));
    assert_eq!(driver.buffer(), &vec![0u8; 1024]);
}

#[test]
fn any_colour_but_black_turns_a_pixel_on() {
    let mut driver = SSD1306::new(Recorder::new());
    driver.draw_pixel(0, 0, 7).unwrap();
    driver.draw_pixel(0, 1, u16::MAX).unwrap();
    assert_eq!(driver.buffer()[0], 0x03);
    driver.draw_pixel(0, 0, 0).unwrap();
    assert_eq!(driver.buffer()[0], 0x02);
}

#[test]
fn draw_pixel_outside_the_panel_is_dropped_without_error() {
    let mut driver = SSD1306::new(Recorder::new());
    for (x, y) in [(-1i16, 0i16), (0, -1), (128, 0), (0, 64), (i16::MAX, i16::MAX), (i16::MIN, 0)] {
        assert_eq!(driver.draw_pixel(x, y, WHITE), Ok(()));
        assert_eq!(driver.buffer(), &vec![0u8; 1024]);
    }
}

#[test]
fn flush_of_one_pixel_sends_window_and_one_byte() {
    let mut driver = SSD1306::new(Recorder::new());
    driver.draw_pixel(45, 23, WHITE).unwrap();
    let differing = (0..1024usize).filter(|i| driver.buffer()[*i] != driver.snapshot()[*i]).count();
    assert_eq!(differing, 1);
    assert_eq!(driver.display(), Ok(()));
    let mut expected = commands(&[0x21, 45, 45, 0x22, 2, 2]);
    expected.push(Transfer::Data(0x80));
    assert_eq!(sent(&driver), expected);
}

#[test]
fn flush_makes_the_frame_the_snapshot_and_starts_a_blank_frame() {
    let mut driver = SSD1306::new(Recorder::new());
    driver.draw_pixel(45, 23, WHITE).unwrap();
    driver.draw_pixel(46, 16, WHITE).unwrap();
    let frame = driver.buffer().clone();
    assert_eq!(driver.display(), Ok(()));
    assert_eq!(driver.snapshot(), &frame);
    assert_eq!(driver.buffer(), &vec![0u8; 1024]);
}

#[test]
fn clear_then_flush_on_a_fresh_driver_is_silent() {
    let mut driver = SSD1306::new(Recorder::new());
    driver.clear();
    assert_eq!(driver.display(), Ok(()));
    assert!(sent(&driver).is_empty());
    assert_eq!(driver.update(), Ok(()));
    assert!(sent(&driver).is_empty());
}

#[test]
fn silent_flush_does_not_touch_a_failing_bus() {
    let mut driver = SSD1306::new(Recorder::failing_after(0));
    assert_eq!(driver.display(), Ok(()));
    assert!(sent(&driver).is_empty());
    assert_eq!(driver.invert(true), Err(BusError));
}

#[test]
fn second_flush_after_a_blank_frame_is_silent() {
    let mut driver = SSD1306::new(Recorder::new());
    driver.draw_pixel(3, 3, WHITE).unwrap();
    driver.display().unwrap();
    // The blank frame that follows wipes the pixel from the panel ...
    assert_eq!(driver.display(), Ok(()));
    let after_first = sent(&driver);
    assert_eq!(after_first.len(), 7 + 7);
    assert_eq!(after_first[13], Transfer::Data(0));
    // ... and the one after that has nothing left to send.
    assert_eq!(driver.display(), Ok(()));
    assert_eq!(sent(&driver), after_first);
}

#[test]
fn second_flush_after_a_drawn_frame_wipes_it() {
    let mut driver = SSD1306::new(Recorder::new());
    driver.draw_pixel(45, 23, WHITE).unwrap();
    driver.display().unwrap();
    driver.bus_mut().reset();
    assert_eq!(driver.display(), Ok(()));
    let mut expected = commands(&[0x21, 45, 45, 0x22, 2, 2]);
    expected.push(Transfer::Data(0x00));
    assert_eq!(sent(&driver), expected);
    assert_eq!(driver.snapshot(), &vec![0u8; 1024]);
}

#[test]
fn clear_blanks_the_live_frame_only_and_sends_nothing() {
    let mut driver = SSD1306::new(Recorder::new());
    driver.draw_pixel(9, 9, WHITE).unwrap();
    let drawn = driver.buffer().clone();
    driver.display().unwrap();
    driver.draw_pixel(10, 10, WHITE).unwrap();
    let before = sent(&driver);
    driver.clear();
    assert_eq!(driver.buffer(), &vec![0u8; 1024]);
    assert_eq!(driver.snapshot(), &drawn);
    assert_eq!(sent(&driver), before);
}

#[test]
fn flush_after_clear_wipes_what_the_panel_shows() {
    let mut driver = SSD1306::new(Recorder::new());
    driver.draw_pixel(45, 23, WHITE).unwrap();
    driver.display().unwrap();
    driver.draw_pixel(7, 7, WHITE).unwrap();
    driver.clear();
    driver.bus_mut().reset();
    assert_eq!(driver.display(), Ok(()));
    let mut expected = commands(&[0x21, 45, 45, 0x22, 2, 2]);
    expected.push(Transfer::Data(0x00));
    assert_eq!(sent(&driver), expected);
    assert_eq!(driver.snapshot(), &vec![0u8; 1024]);
    assert_eq!(driver.buffer(), &vec![0u8; 1024]);
}

#[test]
fn display_all_sends_full_window_and_every_byte() {
    let mut driver = SSD1306::new(Recorder::new());
    driver.clear();
    assert_eq!(driver.display_all(), Ok(()));
    let log = sent(&driver);
    assert_eq!(log.len(), 6 + 128 * 64 / 8);
    assert_eq!(log[..6].to_vec(), commands(&[0x21, 0, 127, 0x22, 0, 7]));
    assert!(log[6..].iter().all(|t| *t == Transfer::Data(0)));
}

#[test]
fn display_all_leaves_both_frames_alone() {
    let mut driver = SSD1306::new(Recorder::new());
    driver.draw_pixel(0, 0, WHITE).unwrap();
    driver.draw_pixel(127, 63, WHITE).unwrap();
    let frame = driver.buffer().clone();
    assert_eq!(driver.display_all(), Ok(()));
    let log = sent(&driver);
    assert_eq!(log.len(), 1030);
    assert_eq!(log[6], Transfer::Data(0x01));
    assert_eq!(log[1029], Transfer::Data(0x80));
    assert_eq!(driver.buffer(), &frame);
    assert_eq!(driver.snapshot(), &vec![0u8; 1024]);
}

#[test]
fn refused_data_byte_aborts_the_flush_and_keeps_the_snapshot() {
    // Six window commands and the first data byte pass, the second data
    // byte is refused.
    let mut driver = SSD1306::new(Recorder::failing_after(7));
    driver.draw_pixel(10, 0, WHITE).unwrap();
    driver.draw_pixel(11, 1, WHITE).unwrap();
    driver.draw_pixel(12, 2, WHITE).unwrap();
    let frame = driver.buffer().clone();
    let snapshot = driver.snapshot().clone();
    assert_eq!(driver.display(), Err(BusError));
    assert_eq!(driver.snapshot(), &snapshot);
    assert_eq!(driver.buffer(), &frame);
    let mut partial = commands(&[0x21, 10, 12, 0x22, 0, 0]);
    partial.push(Transfer::Data(0x01));
    assert_eq!(sent(&driver), partial);
    // The retry finds the same difference and sends all of it.
    assert_eq!(driver.display(), Ok(()));
    let mut whole = partial.clone();
    whole.extend(commands(&[0x21, 10, 12, 0x22, 0, 0]));
    whole.push(Transfer::Data(0x01));
    whole.push(Transfer::Data(0x02));
    whole.push(Transfer::Data(0x04));
    assert_eq!(sent(&driver), whole);
    assert_eq!(driver.snapshot(), &frame);
    assert_eq!(driver.buffer(), &vec![0u8; 1024]);
}

#[test]
fn refused_window_command_aborts_the_flush() {
    let mut driver = SSD1306::new(Recorder::failing_after(0));
    driver.draw_pixel(10, 0, WHITE).unwrap();
    let frame = driver.buffer().clone();
    assert_eq!(driver.update(), Err(BusError));
    assert!(sent(&driver).is_empty());
    assert_eq!(driver.buffer(), &frame);
    assert_eq!(driver.snapshot(), &vec![0u8; 1024]);
}

#[test]
fn refused_transfer_aborts_display_all() {
    let mut driver = SSD1306::new(Recorder::failing_after(100));
    driver.draw_pixel(10, 0, WHITE).unwrap();
    let frame = driver.buffer().clone();
    assert_eq!(driver.display_all(), Err(BusError));
    assert_eq!(sent(&driver).len(), 100);
    assert_eq!(driver.buffer(), &frame);
}

#[test]
fn display_clear_transmits_a_blank_frame_then_blanks_both_frames() {
    let mut driver = SSD1306::new(Recorder::new());
    driver.draw_pixel(9, 9, WHITE).unwrap();
    driver.display().unwrap();
    driver.draw_pixel(10, 10, WHITE).unwrap();
    driver.bus_mut().reset();
    assert_eq!(Display::clear(&mut driver), Ok(()));
    let log = sent(&driver);
    assert_eq!(log.len(), 1030);
    assert_eq!(log[..6].to_vec(), commands(&[0x21, 0, 127, 0x22, 0, 7]));
    assert!(log[6..].iter().all(|t| *t == Transfer::Data(0)));
    assert_eq!(driver.buffer(), &vec![0u8; 1024]);
    assert_eq!(driver.snapshot(), &vec![0u8; 1024]);
}

#[test]
fn display_clear_that_fails_keeps_both_frames() {
    let mut driver = SSD1306::new(Recorder::new());
    driver.draw_pixel(9, 9, WHITE).unwrap();
    driver.display().unwrap();
    driver.draw_pixel(10, 10, WHITE).unwrap();
    let frame = driver.buffer().clone();
    let snapshot = driver.snapshot().clone();
    driver.bus_mut().reset();
    driver.bus_mut().fail_after(20);
    assert_eq!(Display::clear(&mut driver), Err(BusError));
    assert_eq!(sent(&driver).len(), 20);
    assert_eq!(driver.buffer(), &frame);
    assert_eq!(driver.snapshot(), &snapshot);
}

#[test]
fn horizontal_scrolls() {
    let mut driver = SSD1306::new(Recorder::new());
    assert_eq!(driver.start_scroll_right(0, 7), Ok(()));
    assert_eq!(sent(&driver), commands(&[0x26, 0x00, 0, 0x00, 7, 0x01, 0xFF, 0x2F]));
    driver.bus_mut().reset();
    assert_eq!(driver.start_scroll_left(1, 6), Ok(()));
    assert_eq!(sent(&driver), commands(&[0x27, 0x00, 1, 0x00, 6, 0x01, 0xFF, 0x2F]));
}

#[test]
fn diagonal_scrolls() {
    let mut driver = SSD1306::new(Recorder::new());
    assert_eq!(driver.start_scroll_diag_right(0, 7), Ok(()));
    assert_eq!(
        sent(&driver),
        commands(&[0xA3, 0x00, 63, 0x29, 0x00, 0, 0x00, 7, 0x01, 0x2F])
    );
    driver.bus_mut().reset();
    assert_eq!(driver.start_scroll_diag_left(2, 5), Ok(()));
    assert_eq!(
        sent(&driver),
        commands(&[0xA3, 0x00, 127, 0x2A, 0x00, 2, 0x00, 5, 0x01, 0x2F])
    );
}

#[test]
fn stop_scroll_sends_one_command() {
    let mut driver = SSD1306::new(Recorder::new());
    assert_eq!(driver.stop_scroll(), Ok(()));
    assert_eq!(sent(&driver), commands(&[0x2E]));
}

#[test]
fn refused_scroll_command_is_reported() {
    let mut driver = SSD1306::new(Recorder::failing_after(4));
    assert_eq!(driver.start_scroll_right(0, 7), Err(BusError));
    assert_eq!(sent(&driver), commands(&[0x26, 0x00, 0, 0x00]));
    let mut driver = SSD1306::new(Recorder::failing_after(0));
    assert_eq!(driver.stop_scroll(), Err(BusError));
}

#[test]
fn release_gives_the_transport_back() {
    let mut driver = SSD1306::new(Recorder::new());
    driver.stop_scroll().unwrap();
    let bus = driver.release();
    assert_eq!(bus.transfers(), &commands(&[0x2E]));
}
