use ssd1306_driver::engine::{
    find_first_change, find_last_change_exclusive, plan_flush, plan_full, window_of,
};
use ssd1306_driver::protocol::{Transfer, Window};

fn window_sequence(sc: u8, ec: u8, sp: u8, ep: u8) -> Vec<Transfer> {
    vec![
        Transfer::Command(0x21),
        Transfer::Command(sc),
        Transfer::Command(ec),
        Transfer::Command(0x22),
        Transfer::Command(sp),
        Transfer::Command(ep),
    ]
}

#[test]
fn equal_buffers_have_no_change() {
    let a = vec![0u8; 1024];
    let b = vec![0u8; 1024];
    assert_eq!(find_first_change(&a, &b), None);
    assert_eq!(find_last_change_exclusive(&a, &b), None);
    let empty: Vec<u8> = Vec::new();
    assert_eq!(find_first_change(&empty, &empty), None);
    assert_eq!(find_last_change_exclusive(&empty, &empty), None);
}

#[test]
fn scans_find_the_ends_of_the_changed_run() {
    let prev = vec![0u8; 1024];
    let mut cur = vec![0u8; 1024];
    cur[300] = 1;
    cur[310] = 2;
    cur[700] = 3;
    assert_eq!(find_first_change(&cur, &prev), Some(300));
    assert_eq!(find_last_change_exclusive(&cur, &prev), Some(701));
    cur[0] = 9;
    cur[1023] = 9;
    assert_eq!(find_first_change(&cur, &prev), Some(0));
    assert_eq!(find_last_change_exclusive(&cur, &prev), Some(1024));
}

#[test]
fn single_byte_change_is_a_run_of_one() {
    let prev = vec![7u8; 1024];
    for k in [0usize, 1, 127, 128, 301, 1022, 1023] {
        let mut cur = prev.clone();
        cur[k] = 8;
        assert_eq!(find_first_change(&cur, &prev), Some(k));
        assert_eq!(find_last_change_exclusive(&cur, &prev), Some(k + 1));
    }
}

#[test]
fn window_of_a_single_byte_is_its_column_and_page() {
    assert_eq!(
        window_of(301, 302),
        Window { start_column: 45, end_column: 45, start_page: 2, end_page: 2 }
    );
    assert_eq!(
        window_of(127, 128),
        Window { start_column: 127, end_column: 127, start_page: 0, end_page: 0 }
    );
    assert_eq!(
        window_of(1023, 1024),
        Window { start_column: 127, end_column: 127, start_page: 7, end_page: 7 }
    );
    assert_eq!(
        window_of(0, 1),
        Window { start_column: 0, end_column: 0, start_page: 0, end_page: 0 }
    );
}

#[test]
fn window_of_a_run_has_the_first_and_last_byte_as_corners() {
    assert_eq!(
        window_of(0, 1024),
        Window { start_column: 0, end_column: 127, start_page: 0, end_page: 7 }
    );
    assert_eq!(
        window_of(130, 140),
        Window { start_column: 2, end_column: 11, start_page: 1, end_page: 1 }
    );
    assert_eq!(
        window_of(10, 128 * 3 + 21),
        Window { start_column: 10, end_column: 20, start_page: 0, end_page: 3 }
    );
    assert_eq!(
        window_of(100, 131),
        Window { start_column: 100, end_column: 2, start_page: 0, end_page: 1 }
    );
}

#[test]
fn unchanged_frame_costs_nothing() {
    let a = vec![0x5Au8; 1024];
    let b = a.clone();
    assert_eq!(plan_flush(&a, &b), Vec::new());
}

#[test]
fn single_changed_byte_is_window_plus_one_data_byte() {
    let prev = vec![0u8; 1024];
    let mut cur = prev.clone();
    cur[301] = 0x80;
    let mut expected = window_sequence(45, 45, 2, 2);
    expected.push(Transfer::Data(0x80));
    assert_eq!(plan_flush(&cur, &prev), expected);
}

#[test]
fn every_single_byte_change_targets_exactly_its_cell() {
    let prev = vec![0u8; 1024];
    for k in 0..1024usize {
        let mut cur = prev.clone();
        cur[k] = 0xFF;
        let mut expected = window_sequence((k % 128) as u8, (k % 128) as u8, (k / 128) as u8, (k / 128) as u8);
        expected.push(Transfer::Data(0xFF));
        assert_eq!(plan_flush(&cur, &prev), expected);
    }
}

#[test]
fn run_inside_one_page_is_streamed_whole() {
    let prev = vec![0u8; 1024];
    let mut cur = prev.clone();
    cur[130] = 1;
    cur[133] = 4;
    let mut expected = window_sequence(2, 5, 1, 1);
    expected.push(Transfer::Data(1));
    expected.push(Transfer::Data(0));
    expected.push(Transfer::Data(0));
    expected.push(Transfer::Data(4));
    assert_eq!(plan_flush(&cur, &prev), expected);
}

#[test]
fn changed_bytes_are_sent_with_their_current_value() {
    let prev = vec![0xFFu8; 1024];
    let mut cur = prev.clone();
    cur[5] = 0x0F;
    cur[6] = 0x00;
    let mut expected = window_sequence(5, 6, 0, 0);
    expected.push(Transfer::Data(0x0F));
    expected.push(Transfer::Data(0x00));
    assert_eq!(plan_flush(&cur, &prev), expected);
}

#[test]
fn run_across_pages_streams_the_rectangle_between_its_corners() {
    let prev = vec![0u8; 1024];
    let mut cur = prev.clone();
    cur[10] = 0xA0;
    cur[128 + 12] = 0xB0;
    cur[256 + 20] = 0xC0;
    cur[128 + 50] = 0xEE;
    let mut expected = window_sequence(10, 20, 0, 2);
    for page in 0..3usize {
        for column in 10..=20usize {
            expected.push(Transfer::Data(cur[page * 128 + column]));
        }
    }
    assert_eq!(expected.len(), 6 + 33);
    assert_eq!(plan_flush(&cur, &prev), expected);
}

#[test]
fn run_whose_corners_cross_programs_the_window_and_streams_nothing() {
    let prev = vec![0u8; 1024];
    let mut cur = prev.clone();
    cur[100] = 1;
    cur[130] = 2;
    assert_eq!(plan_flush(&cur, &prev), window_sequence(100, 2, 0, 1));
}

#[test]
fn full_frame_diff_covers_the_full_geometry() {
    let prev = vec![0u8; 1024];
    let cur = vec![0xFFu8; 1024];
    let plan = plan_flush(&cur, &prev);
    assert_eq!(plan.len(), 6 + 1024);
    assert_eq!(plan[..6].to_vec(), window_sequence(0, 127, 0, 7));
    assert!(plan[6..].iter().all(|t| *t == Transfer::Data(0xFF)));
}

#[test]
fn short_buffers_are_planned_too() {
    let prev = vec![0u8; 4];
    let cur = vec![0u8, 3, 0, 0];
    let mut expected = window_sequence(1, 1, 0, 0);
    expected.push(Transfer::Data(3));
    assert_eq!(plan_flush(&cur, &prev), expected);
}

#[test]
fn full_plan_is_full_window_then_every_byte() {
    let mut cur = vec![0u8; 1024];
    cur[0] = 1;
    cur[1023] = 2;
    let plan = plan_full(&cur);
    assert_eq!(plan.len(), 6 + 1024);
    assert_eq!(plan[..6].to_vec(), window_sequence(0, 127, 0, 7));
    for i in 0..1024usize {
        assert_eq!(plan[6 + i], Transfer::Data(cur[i]));
    }
}

#[test]
fn full_plan_of_a_blank_frame_is_all_zero_data() {
    let cur = vec![0u8; 1024];
    let plan = plan_full(&cur);
    let data = plan.iter().filter(|t| matches!(t, Transfer::Data(_))).count();
    assert_eq!(data, 1024);
    let commands = plan.iter().filter(|t| matches!(t, Transfer::Command(_))).count();
    assert_eq!(commands, 6);
    assert!(plan[6..].iter().all(|t| *t == Transfer::Data(0)));
}
