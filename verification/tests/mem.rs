use dashboard::mem::{join_usage_text, MemData};

#[test]
fn new_reading_is_empty() {
    let m = MemData::new();
    assert_eq!(m.get_used(), 0);
    assert_eq!(m.get_total(), 0);
    assert_eq!(m, MemData { used: 0, total: 0 });
}

#[test]
fn record_replaces_the_reading() {
    let mut m = MemData::new();
    m.record(1000, 2000);
    assert_eq!(m.get_used(), 1000);
    assert_eq!(m.get_total(), 2000);
    m.record(7, 9);
    assert_eq!(m, MemData { used: 7, total: 9 });
}

#[test]
fn half_of_the_memory_is_fifty_percent() {
    let m = MemData { used: 1000, total: 2000 };
    assert_eq!(m.get_percent().hundredths(), 5_000);
    assert_eq!(m.get_percent().whole(), 50);
}

#[test]
fn percent_of_no_memory_is_zero() {
    assert_eq!(MemData::new().get_percent().hundredths(), 0);
}

#[test]
fn percent_never_exceeds_full() {
    let m = MemData { used: 3000, total: 2000 };
    assert_eq!(m.get_percent().hundredths(), 10_000);
}

#[test]
fn bytes_are_written_in_powers_of_1000() {
    let m = MemData::new();
    assert_eq!(m.bytes_to_string(1000), "1.00 KB");
    assert_eq!(m.bytes_to_string(2000), "2.00 KB");
    assert_eq!(m.bytes_to_string(1024), "1.02 KB");
    assert_eq!(m.bytes_to_string(1_000_000), "1.00 MB");
    assert_eq!(m.bytes_to_string(1_500_000_000), "1.50 GB");
}

#[test]
fn few_bytes_are_written_as_bytes() {
    let m = MemData::new();
    assert_eq!(m.bytes_to_string(0), "0 bytes");
    assert_eq!(m.bytes_to_string(1), "1 byte");
    assert_eq!(m.bytes_to_string(999), "999 bytes");
}

#[test]
fn larger_counts_have_fewer_decimals() {
    let m = MemData::new();
    assert_eq!(m.bytes_to_string(12_345), "12.3 KB");
    assert_eq!(m.bytes_to_string(123_456), "123 KB");
    assert_eq!(m.bytes_to_string(16_000_000_000), "16.0 GB");
}

#[test]
fn largest_count_of_bytes() {
    let m = MemData::new();
    assert_eq!(m.bytes_to_string(u64::MAX), "9 EB");
}

#[test]
fn usage_text_joins_with_a_stroke() {
    assert_eq!(join_usage_text("1.00 KB", "2.00 KB"), "1.00 KB/2.00 KB");
    assert_eq!(join_usage_text("", ""), "/");
    assert_eq!(join_usage_text("a", ""), "a/");
}

#[test]
fn usage_string_of_half_the_memory() {
    let m = MemData { used: 1000, total: 2000 };
    assert_eq!(m.usage_string(), "1.00 KB/2.00 KB");
}

#[test]
fn usage_string_of_no_memory() {
    assert_eq!(MemData::new().usage_string(), "0 bytes/0 bytes");
}
