use gmon::net::{first_ipv4, LookedUpAddr};

#[test]
fn picks_the_first_ipv4_address() {
    let addrs = vec![
        LookedUpAddr::V6,
        LookedUpAddr::V4([1, 2, 3, 4]),
        LookedUpAddr::V4([5, 6, 7, 8]),
    ];
    assert_eq!(first_ipv4(&addrs), Some([1, 2, 3, 4]));
}

#[test]
fn no_ipv4_address_gives_none() {
    assert_eq!(first_ipv4(&vec![LookedUpAddr::V6, LookedUpAddr::V6]), None);
    assert_eq!(first_ipv4(&Vec::new()), None);
}
