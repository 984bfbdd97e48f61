use notification_client::layout::{compute_height, height_for};
use notification_client::protocol::{Action, Notification};

fn titled(title: &str) -> Notification {
    Notification {
        title: title.to_string(),
        message: None,
        icon: None,
        image: None,
        actions: None,
        timeout: None,
        audio: None,
    }
}

#[test]
fn short_title_adds_nothing() {
    assert_eq!(height_for(100, 10, None, false, false), 100);
    assert_eq!(compute_height(&titled("0123456789"), 100), 100);
}

#[test]
fn long_title_adds_sixty_four_per_line() {
    // 1 + round(150 / 52) = 4 lines
    assert_eq!(height_for(100, 150, None, false, false), 100 + 64 * 4);
    assert_eq!(compute_height(&titled(&"x".repeat(150)), 100), 356);
}

#[test]
fn title_rounds_halves_up() {
    assert_eq!(height_for(100, 25, None, false, false), 100);
    assert_eq!(height_for(100, 26, None, false, false), 100 + 64 * 2);
    assert_eq!(height_for(100, 77, None, false, false), 100 + 64 * 2);
    assert_eq!(height_for(100, 78, None, false, false), 100 + 64 * 3);
}

#[test]
fn title_length_counts_bytes() {
    // 13 two-byte characters are 26 bytes
    assert_eq!(compute_height(&titled(&"é".repeat(13)), 100), 100 + 64 * 2);
}

#[test]
fn message_adds_block_and_lines() {
    // 1 + round(200 / 62) = 4 lines
    assert_eq!(height_for(100, 10, Some(200), false, false), 100 + 24 + 20 * 4);
    let mut n = titled("0123456789");
    n.message = Some("m".repeat(200));
    assert_eq!(compute_height(&n, 100), 204);
}

#[test]
fn short_message_adds_block_only() {
    assert_eq!(height_for(100, 10, Some(30), false, false), 124);
    assert_eq!(height_for(100, 10, Some(31), false, false), 124 + 40);
    assert_eq!(height_for(100, 10, Some(0), false, false), 124);
}

#[test]
fn image_and_actions_add_fixed_heights() {
    let mut n = titled("0123456789");
    n.image = Some("pic.png".to_string());
    n.actions = Some(vec![Action { command: "c".to_string(), label: "L".to_string(), data: None }]);
    assert_eq!(compute_height(&n, 100), 100 + 280 + 72);
    assert_eq!(height_for(100, 10, None, true, true), 452);
}

#[test]
fn empty_actions_add_nothing() {
    let mut n = titled("0123456789");
    n.actions = Some(Vec::new());
    assert_eq!(compute_height(&n, 100), 100);
}

#[test]
fn height_is_deterministic_and_monotonic() {
    let a = height_for(80, 60, Some(70), false, false);
    assert_eq!(a, height_for(80, 60, Some(70), false, false));
    assert!(height_for(80, 61, Some(70), false, false) >= a);
    assert!(height_for(80, 60, Some(700), false, false) >= a);
    assert!(height_for(80, 60, None, false, false) <= a);
    assert!(height_for(80, 60, Some(70), true, false) >= a);
    assert!(height_for(80, 60, Some(70), false, true) >= a);
}

#[test]
fn largest_lengths_do_not_overflow() {
    let h = height_for(u32::MAX, usize::MAX, Some(usize::MAX), true, true);
    let n = usize::MAX as u128;
    let title = 64 * (1 + (2 * n + 52) / 104);
    let message = 24 + 20 * (1 + (2 * n + 62) / 124);
    assert_eq!(h, u32::MAX as u128 + title + message + 280 + 72);
}
