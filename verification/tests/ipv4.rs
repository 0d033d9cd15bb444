use ksoft::ipv4::is_ipv4_text;

#[test]
fn dotted_decimal_addresses_are_accepted() {
    for ip in [
        "0.0.0.0",
        "1.2.3.4",
        "8.8.8.8",
        "10.0.0.1",
        "127.0.0.1",
        "192.168.100.2",
        "255.255.255.255",
        "249.250.199.200",
        "100.99.9.0",
    ] {
        assert!(is_ipv4_text(ip), "{} is an address", ip);
    }
}

#[test]
fn numbers_above_255_are_refused() {
    for ip in ["256.0.0.0", "0.256.0.0", "0.0.256.0", "0.0.0.256", "300.1.1.1", "1.1.1.999", "1.1.1.260"] {
        assert!(!is_ipv4_text(ip), "{} is no address", ip);
    }
}

#[test]
fn leading_zeros_are_refused() {
    for ip in ["01.2.3.4", "1.02.3.4", "1.2.003.4", "1.2.3.04", "00.0.0.0", "1.2.3.00", "1.2.3.000"] {
        assert!(!is_ipv4_text(ip), "{} is no address", ip);
    }
}

#[test]
fn wrong_shapes_are_refused() {
    for ip in [
        "",
        ".",
        "...",
        "1",
        "1.2",
        "1.2.3",
        "1.2.3.",
        ".1.2.3",
        "1..2.3",
        "1.2.3.4.",
        "1.2.3.4.5",
        ".1.2.3.4",
        "1.2.3.4 ",
        " 1.2.3.4",
        "1.2.3.4\n",
        "1,2,3,4",
        "1.2.3.a",
        "a.b.c.d",
        "1.2.3.-4",
        "+1.2.3.4",
        "1.2.3.4/24",
        "1.2.3.0x4",
        "1234.1.1.1",
        "1.1.1.1111",
        "::1",
        "localhost",
        "AmazingNonExistingIP",
        "１.2.3.4",
        "1.2.3.４",
        "1.2.3.4\u{e9}",
        "\u{661}.2.3.4",
    ] {
        assert!(!is_ipv4_text(ip), "{:?} is no address", ip);
    }
}

#[test]
fn every_octet_is_accepted_in_every_place() {
    for n in 0u32..=255 {
        assert!(is_ipv4_text(&format!("{}.0.0.0", n)));
        assert!(is_ipv4_text(&format!("0.{}.0.0", n)));
        assert!(is_ipv4_text(&format!("0.0.{}.0", n)));
        assert!(is_ipv4_text(&format!("0.0.0.{}", n)));
    }
    for n in 256u32..=1100 {
        assert!(!is_ipv4_text(&format!("{}.0.0.0", n)));
        assert!(!is_ipv4_text(&format!("0.0.0.{}", n)));
    }
}
