use live_docs::server::{decimal_text, redirect_target, BindAddress, BindHost};

#[test]
fn root_redirects_to_the_unit_page() {
    assert_eq!(redirect_target("mylib"), "/mylib/");
}

#[test]
fn redirect_keeps_the_unit_name_as_it_is() {
    assert_eq!(redirect_target("my_lib-2"), "/my_lib-2/");
    assert_eq!(redirect_target(""), "//");
}

#[test]
fn decimal_of_single_digits() {
    assert_eq!(decimal_text(0), "0");
    assert_eq!(decimal_text(7), "7");
    assert_eq!(decimal_text(9), "9");
}

#[test]
fn decimal_of_several_digits() {
    assert_eq!(decimal_text(10), "10");
    assert_eq!(decimal_text(8000), "8000");
    assert_eq!(decimal_text(12345), "12345");
    assert_eq!(decimal_text(65535), "65535");
}

#[test]
fn decimal_agrees_with_the_standard_rendering() {
    let mut n: u16 = 0;
    loop {
        assert_eq!(decimal_text(n), n.to_string());
        if n > u16::MAX - 97 {
            break;
        }
        n += 97;
    }
}

#[test]
fn default_bind_address_opens_as_localhost() {
    let address = BindAddress {
        host: BindHost::V4(0, 0, 0, 0),
        port: 8000,
        text: String::from("0.0.0.0:8000"),
    };
    assert!(address.is_unspecified_v4());
    assert_eq!(address.openable_address(), "http://localhost:8000");
}

#[test]
fn specific_ipv4_address_opens_as_itself() {
    let address = BindAddress {
        host: BindHost::V4(127, 0, 0, 1),
        port: 3000,
        text: String::from("127.0.0.1:3000"),
    };
    assert!(!address.is_unspecified_v4());
    assert_eq!(address.openable_address(), "http://127.0.0.1:3000/");
}

#[test]
fn one_nonzero_octet_is_not_the_unspecified_address() {
    for host in [
        BindHost::V4(1, 0, 0, 0),
        BindHost::V4(0, 1, 0, 0),
        BindHost::V4(0, 0, 1, 0),
        BindHost::V4(0, 0, 0, 1),
    ] {
        let address = BindAddress { host, port: 80, text: String::from("x:80") };
        assert!(!address.is_unspecified_v4());
        assert_eq!(address.openable_address(), "http://x:80/");
    }
}

#[test]
fn ipv6_address_opens_as_itself() {
    let address = BindAddress { host: BindHost::V6, port: 8000, text: String::from("[::]:8000") };
    assert!(!address.is_unspecified_v4());
    assert_eq!(address.openable_address(), "http://[::]:8000/");
}

#[test]
fn default_bind_address_is_every_ipv4_address_on_port_8000() {
    let address = BindAddress::default();
    assert_eq!(
        address,
        BindAddress { host: BindHost::V4(0, 0, 0, 0), port: 8000, text: String::from("0.0.0.0:8000") }
    );
    assert_eq!(address.openable_address(), "http://localhost:8000");
}
