use ddns::address::Ipv4Address;
use ddns::resolver::default_upstream;
use ddns::resolver::machine_ip;
use ddns::resolver::pinned_upstream;
use ddns::resolver::ResolutionError;
use ddns::resolver::Upstream;
use ddns::resolver::BOOTSTRAP_HOSTNAME;
use ddns::resolver::DNS_PORT;
use ddns::resolver::MACHINE_IP_HOSTNAME;

#[test]
fn well_known_names() {
    assert_eq!(BOOTSTRAP_HOSTNAME, "resolver1.opendns.com");
    assert_eq!(MACHINE_IP_HOSTNAME, "myip.opendns.com");
    assert_eq!(DNS_PORT, 53);
    assert_eq!(default_upstream(), Ipv4Address::new(208, 67, 222, 222));
}

#[test]
fn pinned_upstream_is_the_first_answer() {
    let answers = vec![Ipv4Address::new(208, 67, 220, 220), Ipv4Address::new(9, 9, 9, 9)];
    assert_eq!(
        pinned_upstream(&answers),
        Upstream { address: Ipv4Address::new(208, 67, 220, 220), port: 53 }
    );
}

#[test]
fn pinned_upstream_falls_back_without_answer() {
    assert_eq!(
        pinned_upstream(&Vec::new()),
        Upstream { address: Ipv4Address::new(208, 67, 222, 222), port: 53 }
    );
}

#[test]
fn machine_ip_is_the_first_answer() {
    assert_eq!(machine_ip(Ok(vec![Ipv4Address::new(5, 6, 7, 8)])), Ok(Ipv4Address::new(5, 6, 7, 8)));
    assert_eq!(
        machine_ip(Ok(vec![Ipv4Address::new(1, 1, 1, 1), Ipv4Address::new(2, 2, 2, 2)])),
        Ok(Ipv4Address::new(1, 1, 1, 1))
    );
}

#[test]
fn machine_ip_without_answer_is_an_error() {
    assert_eq!(machine_ip(Ok(Vec::new())), Err(ResolutionError::NoAddress));
}

#[test]
fn machine_ip_failed_lookup_is_an_error() {
    assert_eq!(
        machine_ip(Err("no connections available".to_string())),
        Err(ResolutionError::LookupFailed("no connections available".to_string()))
    );
}

#[test]
fn resolution_error_messages() {
    assert_eq!(ResolutionError::NoAddress.message(), "Failed to extract machine's IP address");
    assert_eq!(ResolutionError::LookupFailed("timeout".to_string()).message(), "timeout");
}
