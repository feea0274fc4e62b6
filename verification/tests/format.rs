use rclone_transfer::format::{format_eta, format_speed, percentage, GIB, KIB, MIB};
use rclone_transfer::progress::{PERCENT_FULL, PERCENT_SCALE};

fn float_speed(bytes_per_sec: f64) -> String {
    if bytes_per_sec >= 1_073_741_824.0 {
        format!("{:.2} GiB/s", bytes_per_sec / 1_073_741_824.0)
    } else if bytes_per_sec >= 1_048_576.0 {
        format!("{:.2} MiB/s", bytes_per_sec / 1_048_576.0)
    } else if bytes_per_sec >= 1024.0 {
        format!("{:.2} KiB/s", bytes_per_sec / 1024.0)
    } else {
        format!("{:.0} B/s", bytes_per_sec)
    }
}

fn clock_eta(s: u64) -> String {
    if s >= 3600 {
        format!("{}h {:02}m {:02}s", s / 3600, (s % 3600) / 60, s % 60)
    } else if s >= 60 {
        format!("{}m {:02}s", s / 60, s % 60)
    } else {
        format!("{}s", s)
    }
}

#[test]
fn speed_below_one_kib_is_whole_bytes() {
    assert_eq!(format_speed(500), "500 B/s");
    assert_eq!(format_speed(0), "0 B/s");
    assert_eq!(format_speed(7), "7 B/s");
    assert_eq!(format_speed(1023), "1023 B/s");
}

#[test]
fn speed_in_kib() {
    assert_eq!(format_speed(2048), "2.00 KiB/s");
    assert_eq!(format_speed(1024), "1.00 KiB/s");
    assert_eq!(format_speed(1536), "1.50 KiB/s");
    assert_eq!(format_speed(10 * 1024 + 512), "10.50 KiB/s");
}

#[test]
fn speed_in_mib() {
    assert_eq!(format_speed(5_242_880), "5.00 MiB/s");
    assert_eq!(format_speed(1_048_576), "1.00 MiB/s");
    assert_eq!(format_speed(12_939_428), "12.34 MiB/s");
}

#[test]
fn speed_in_gib() {
    assert_eq!(format_speed(2_147_483_648), "2.00 GiB/s");
    assert_eq!(format_speed(1_073_741_824), "1.00 GiB/s");
    assert_eq!(format_speed(1_610_612_736), "1.50 GiB/s");
}

#[test]
fn speed_units_are_the_binary_magnitudes() {
    assert_eq!(KIB, 1 << 10);
    assert_eq!(MIB, 1 << 20);
    assert_eq!(GIB, 1 << 30);
}

#[test]
fn speed_just_below_a_unit_rounds_up_within_the_smaller_unit() {
    assert_eq!(format_speed(1_048_575), "1024.00 KiB/s");
    assert_eq!(format_speed(1_073_741_823), "1024.00 MiB/s");
}

#[test]
fn speed_exactly_between_two_hundredths_goes_to_the_even_one() {
    // 1152 / 1024 = 1.125 and 1408 / 1024 = 1.375
    assert_eq!(format_speed(1152), "1.12 KiB/s");
    assert_eq!(format_speed(1408), "1.38 KiB/s");
}

#[test]
fn speed_of_the_largest_rate() {
    assert_eq!(format_speed(u64::MAX), "17179869184.00 GiB/s");
}

#[test]
fn speed_agrees_with_floating_point_formatting_on_small_rates() {
    let mut n: u64 = 0;
    while n < 40_000 {
        assert_eq!(format_speed(n), float_speed(n as f64), "rate {}", n);
        n += 1;
    }
}

#[test]
fn speed_agrees_with_floating_point_formatting_around_the_units() {
    for unit in [KIB, MIB, GIB] {
        for k in 1..200u64 {
            for d in 0..64u64 {
                let n = unit * k + (unit / 128) * d + d;
                assert_eq!(format_speed(n), float_speed(n as f64), "rate {}", n);
                let m = unit * k - d;
                assert_eq!(format_speed(m), float_speed(m as f64), "rate {}", m);
            }
        }
    }
}

#[test]
fn speed_agrees_with_floating_point_formatting_on_ties() {
    for unit in [KIB, MIB, GIB] {
        let eighth = unit / 8;
        for odd in 0..2000u64 {
            let n = unit + eighth * (2 * odd + 1);
            assert_eq!(format_speed(n), float_speed(n as f64), "rate {}", n);
        }
    }
}

#[test]
fn eta_in_seconds() {
    assert_eq!(format_eta(45), "45s");
    assert_eq!(format_eta(0), "0s");
    assert_eq!(format_eta(59), "59s");
}

#[test]
fn eta_in_minutes() {
    assert_eq!(format_eta(125), "2m 05s");
    assert_eq!(format_eta(60), "1m 00s");
    assert_eq!(format_eta(3599), "59m 59s");
}

#[test]
fn eta_in_hours() {
    assert_eq!(format_eta(3725), "1h 02m 05s");
    assert_eq!(format_eta(3600), "1h 00m 00s");
    assert_eq!(format_eta(360_000), "100h 00m 00s");
}

#[test]
fn eta_of_the_largest_time() {
    assert_eq!(format_eta(u64::MAX), clock_eta(u64::MAX));
    assert_eq!(format_eta(u64::MAX), "5124095576030431h 00m 15s");
}

#[test]
fn eta_agrees_with_plain_formatting() {
    let mut s: u64 = 0;
    while s < 100_000 {
        assert_eq!(format_eta(s), clock_eta(s), "seconds {}", s);
        s += 7;
    }
}

#[test]
fn percentage_is_zero_without_a_total() {
    assert_eq!(percentage(0, 0), 0);
    assert_eq!(percentage(500, 0), 0);
    assert_eq!(percentage(u64::MAX, 0), 0);
}

#[test]
fn percentage_counts_thousandths_of_a_percent() {
    assert_eq!(PERCENT_SCALE, 1000);
    assert_eq!(PERCENT_FULL, 100 * PERCENT_SCALE);
    assert_eq!(percentage(250, 1000), 25_000);
    assert_eq!(percentage(600, 1000), 60_000);
    assert_eq!(percentage(1000, 1000), 100_000);
    assert_eq!(percentage(0, 1000), 0);
    assert_eq!(percentage(1, 3), 33_333);
    assert_eq!(percentage(2, 3), 66_666);
}

#[test]
fn percentage_stays_within_full_when_no_more_is_done_than_the_total() {
    let totals = [1u64, 2, 3, 7, 1000, 4096, 1 << 40, u64::MAX];
    for total in totals {
        for bytes in [0, 1, total / 3, total / 2, total - 1, total] {
            if bytes <= total {
                let p = percentage(bytes, total);
                assert!(p <= PERCENT_FULL, "{} of {}", bytes, total);
                let exact = bytes as f64 / total as f64 * 100.0;
                let shown = p as f64 / PERCENT_SCALE as f64;
                assert!((exact - shown).abs() < 0.0011, "{} of {}", bytes, total);
            }
        }
        assert_eq!(percentage(total, total), PERCENT_FULL);
    }
}

#[test]
fn percentage_of_more_than_the_total() {
    assert_eq!(percentage(1500, 1000), 150_000);
    assert_eq!(percentage(u64::MAX, 1), u64::MAX);
    assert_eq!(percentage(u64::MAX, u64::MAX / 2), 200_000);
}
