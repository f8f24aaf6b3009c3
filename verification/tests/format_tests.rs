use efi_size_check::format::decimal_string;
use efi_size_check::format::format_bytes;

#[test]
fn zero_renders_in_bytes() {
    assert_eq!(format_bytes(0), "0 bytes");
}

#[test]
fn just_below_one_kib_renders_in_bytes() {
    assert_eq!(format_bytes(1023), "1023 bytes");
}

#[test]
fn one_kib_boundary_renders_in_kb() {
    assert_eq!(format_bytes(1024), "1.00 KB");
}

#[test]
fn one_mib_boundary_renders_in_mb() {
    assert_eq!(format_bytes(1048576), "1.00 MB");
}

#[test]
fn one_gib_boundary_renders_in_gb() {
    assert_eq!(format_bytes(1073741824), "1.00 GB");
}

#[test]
fn two_gib_renders_in_gb() {
    assert_eq!(format_bytes(2147483648), "2.00 GB");
}

#[test]
fn small_counts_keep_integer_rendering() {
    assert_eq!(format_bytes(1), "1 bytes");
    assert_eq!(format_bytes(512), "512 bytes");
}

#[test]
fn kb_values_round_to_two_decimals() {
    assert_eq!(format_bytes(1025), "1.00 KB");
    assert_eq!(format_bytes(1536), "1.50 KB");
    assert_eq!(format_bytes(10240), "10.00 KB");
}

#[test]
fn just_below_one_mib_stays_in_kb() {
    assert_eq!(format_bytes(1048575), "1024.00 KB");
}

#[test]
fn ties_round_to_even_hundredths() {
    // 1152 / 1024 = 1.125 exactly: the tie goes down to the even 1.12.
    assert_eq!(format_bytes(1152), "1.12 KB");
    // 1408 / 1024 = 1.375 exactly: the tie goes up to the even 1.38.
    assert_eq!(format_bytes(1408), "1.38 KB");
}

#[test]
fn probe_sizes_format_as_logged() {
    assert_eq!(format_bytes(104857600), "100.00 MB");
    assert_eq!(format_bytes(524288000), "500.00 MB");
    assert_eq!(format_bytes(1992294400), "1.86 GB");
    assert_eq!(format_bytes(2097152000), "1.95 GB");
}

#[test]
fn counts_above_the_ceiling_still_format() {
    assert_eq!(format_bytes(3221225472), "3.00 GB");
    assert_eq!(format_bytes(2202009600), "2.05 GB");
}

#[test]
fn decimal_string_renders_digits() {
    assert_eq!(decimal_string(0), "0");
    assert_eq!(decimal_string(9), "9");
    assert_eq!(decimal_string(907), "907");
    assert_eq!(decimal_string(18446744073709551615), "18446744073709551615");
}
