use bettershot::{
    filename_at, filename_with_id_at, generate_filename, generate_filename_with_id,
    get_timestamp,
};

#[test]
fn test_get_timestamp_returns_valid_value() {
    let result = get_timestamp();
    assert!(result.is_ok());

    let timestamp = result.unwrap();
    assert!(timestamp > 0);
}

#[test]
fn test_generate_filename_format() {
    let result = generate_filename("screenshot", "png");
    assert!(result.is_ok());

    let filename = result.unwrap();
    assert!(filename.starts_with("screenshot_"));
    assert!(filename.ends_with(".png"));
}

#[test]
fn test_generate_filename_with_id_format() {
    let result = generate_filename_with_id("monitor", 1, "png");
    assert!(result.is_ok());

    let filename = result.unwrap();
    assert!(filename.starts_with("monitor_1_"));
    assert!(filename.ends_with(".png"));
}

#[test]
fn filename_at_writes_prefix_timestamp_and_extension() {
    assert_eq!(
        filename_at("screenshot", 1700000000123, "png"),
        "screenshot_1700000000123.png"
    );
    assert_eq!(filename_at("", 0, ""), "_0.");
    assert_eq!(filename_at("a", 7, "b"), "a_7.b");
    assert_eq!(filename_at("a", 10, "b"), "a_10.b");
}

#[test]
fn filename_with_id_at_writes_all_parts() {
    assert_eq!(filename_with_id_at("monitor", 1, 42, "png"), "monitor_1_42.png");
    assert_eq!(
        filename_with_id_at("m", u32::MAX, u64::MAX, "jpg"),
        "m_4294967295_18446744073709551615.jpg"
    );
}

#[test]
fn filenames_at_distinct_timestamps_differ() {
    let a = filename_at("test", 1000, "png");
    let b = filename_at("test", 1001, "png");
    let c = filename_at("test", 10000, "png");
    assert_ne!(a, b);
    assert_ne!(a, c);
    assert_ne!(
        filename_with_id_at("monitor", 2, 5, "png"),
        filename_with_id_at("monitor", 2, 50, "png")
    );
}

#[test]
fn generated_filename_carries_current_timestamp() {
    let before = get_timestamp().unwrap();
    let name = generate_filename("shot", "png").unwrap();
    let after = get_timestamp().unwrap();
    let digits = &name["shot_".len()..name.len() - ".png".len()];
    let t: u64 = digits.parse().unwrap();
    assert!(before <= t && t <= after);
}
