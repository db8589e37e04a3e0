use sysinfo_applet::metrics::{aggregate_throughput, ram_usage_percent};
use sysinfo_applet::textfmt::{format_decimal, format_rate};

#[test]
fn ram_percent_truncates() {
    assert_eq!(ram_usage_percent(50, 200), 25);
    assert_eq!(ram_usage_percent(1, 3), 33);
    assert_eq!(ram_usage_percent(2, 3), 66);
    assert_eq!(ram_usage_percent(199, 200), 99);
}

#[test]
fn ram_percent_bounds() {
    assert_eq!(ram_usage_percent(0, 200), 0);
    assert_eq!(ram_usage_percent(200, 200), 100);
    assert_eq!(ram_usage_percent(u64::MAX, u64::MAX), 100);
    assert_eq!(ram_usage_percent(u64::MAX - 1, u64::MAX), 99);
}

#[test]
fn ram_percent_zero_total_is_zero() {
    assert_eq!(ram_usage_percent(0, 0), 0);
    assert_eq!(ram_usage_percent(12345, 0), 0);
}

#[test]
fn throughput_sums_only_physical_interfaces() {
    let counters: Vec<(String, u64, u64)> = vec![
        ("A".to_string(), 500000, 300000),
        ("B".to_string(), 1500000, 700000),
        ("C".to_string(), 9999999, 9999999),
    ];
    let physical: Vec<String> = vec!["A".to_string(), "B".to_string()];
    let (up, down) = aggregate_throughput(&counters, &physical);
    assert_eq!(up, 2000000);
    assert_eq!(down, 1000000);
    assert_eq!(format_rate(up), "2.00");
    assert_eq!(format_rate(down), "1.00");
}

#[test]
fn throughput_of_empty_physical_set_is_zero() {
    let counters: Vec<(String, u64, u64)> = vec![("A".to_string(), 500000, 300000)];
    let physical: Vec<String> = Vec::new();
    let (up, down) = aggregate_throughput(&counters, &physical);
    assert_eq!(up, 0);
    assert_eq!(down, 0);
}

#[test]
fn throughput_sum_does_not_overflow() {
    let counters: Vec<(String, u64, u64)> = vec![
        ("A".to_string(), u64::MAX, u64::MAX),
        ("B".to_string(), u64::MAX, u64::MAX),
    ];
    let physical: Vec<String> = vec!["A".to_string(), "B".to_string()];
    let (up, down) = aggregate_throughput(&counters, &physical);
    assert_eq!(up, 2 * (u64::MAX as u128));
    assert_eq!(down, 2 * (u64::MAX as u128));
}

#[test]
fn rate_formatting_truncates_to_hundredths() {
    assert_eq!(format_rate(0), "0.00");
    assert_eq!(format_rate(9999), "0.00");
    assert_eq!(format_rate(10000), "0.01");
    assert_eq!(format_rate(123456), "0.12");
    assert_eq!(format_rate(999999), "0.99");
    assert_eq!(format_rate(1234567), "1.23");
    assert_eq!(format_rate(25000000), "25.00");
}

#[test]
fn decimal_formatting() {
    assert_eq!(format_decimal(0), "0");
    assert_eq!(format_decimal(7), "7");
    assert_eq!(format_decimal(10), "10");
    assert_eq!(format_decimal(105), "105");
    assert_eq!(format_decimal(u64::MAX as u128), "18446744073709551615");
}
