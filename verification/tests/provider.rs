use ddns::address::Ipv4Address;
use ddns::provider::aws::AnswerQuery;
use ddns::provider::aws::ChangeBatch;
use ddns::provider::aws::RecordChange;
use ddns::provider::aws::RECORD_TYPE;
use ddns::provider::aws::UPSERT;
use ddns::provider::Aws;
use ddns::provider::ProviderQueryError;
use ddns::provider::ProviderUpdateError;

fn records(data: &[&str]) -> Vec<String> {
    data.iter().map(|record| record.to_string()).collect()
}

#[test]
fn get_success() {
    let aws = Aws {
        domain: "test.test.net".to_string(),
        hosted_zone_id: "ABCDEFG1234567".to_string(),
        ttl: 300,
    };
    assert_eq!(aws, Aws::new("test.test.net", "ABCDEFG1234567", 300));

    let res = Aws::current(Ok(records(&["1.2.3.4"])));

    assert!(res.is_ok());
    assert_eq!(Ipv4Address::new(1, 2, 3, 4), res.unwrap());
}

#[test]
fn new_keeps_domain_zone_and_ttl() {
    let aws = Aws::new("example.com", "Z123", 42);
    assert_eq!(aws.domain, "example.com");
    assert_eq!(aws.hosted_zone_id, "Z123");
    assert_eq!(aws.ttl, 42);
}

#[test]
fn current_query_asks_for_the_address_record() {
    let aws = Aws::new("test.test.net", "ABCDEFG1234567", 300);
    assert_eq!(
        aws.current_query(),
        AnswerQuery {
            hosted_zone_id: "ABCDEFG1234567".to_string(),
            record_name: "test.test.net".to_string(),
            record_type: "A".to_string(),
        }
    );
    assert_eq!(RECORD_TYPE, "A");
}

#[test]
fn no_record_is_the_blank_address() {
    assert_eq!(Aws::current(Ok(Vec::new())), Ok(Ipv4Address::new(0, 0, 0, 0)));
    assert_eq!(Aws::current(Ok(Vec::new())), Ok(Ipv4Address::blank()));
}

#[test]
fn two_records_are_ambiguous() {
    assert_eq!(
        Aws::current(Ok(records(&["1.2.3.4", "5.6.7.8"]))),
        Err(ProviderQueryError::AmbiguousRecordSet)
    );
    assert_eq!(
        Aws::current(Ok(records(&["1.2.3.4", "1.2.3.4"]))),
        Err(ProviderQueryError::AmbiguousRecordSet)
    );
    assert_eq!(
        Aws::current(Ok(records(&["x", "y", "z"]))),
        Err(ProviderQueryError::AmbiguousRecordSet)
    );
}

#[test]
fn one_malformed_record_is_an_error() {
    assert_eq!(
        Aws::current(Ok(records(&["not an address"]))),
        Err(ProviderQueryError::MalformedRecord("not an address".to_string()))
    );
    assert_eq!(
        Aws::current(Ok(records(&["1.2.3.256"]))),
        Err(ProviderQueryError::MalformedRecord("1.2.3.256".to_string()))
    );
    assert_eq!(
        Aws::current(Ok(records(&[""]))),
        Err(ProviderQueryError::MalformedRecord(String::new()))
    );
}

#[test]
fn failed_query_keeps_the_backends_words() {
    assert_eq!(
        Aws::current(Err("connection reset".to_string())),
        Err(ProviderQueryError::Backend("connection reset".to_string()))
    );
}

#[test]
fn upsert_is_one_change_of_the_address_record() {
    let aws = Aws::new("example.com", "Z123", 300);
    let batch = aws.upsert(&Ipv4Address::new(5, 6, 7, 8));
    assert_eq!(
        batch,
        ChangeBatch {
            hosted_zone_id: "Z123".to_string(),
            changes: vec![RecordChange {
                action: "UPSERT".to_string(),
                name: "example.com".to_string(),
                record_type: "A".to_string(),
                ttl: 300,
                values: vec!["5.6.7.8".to_string()],
            }],
        }
    );
    assert_eq!(UPSERT, "UPSERT");
}

#[test]
fn upsert_uses_the_configured_ttl() {
    let aws = Aws::new("example.com", "Z123", 60);
    let batch = aws.upsert(&Ipv4Address::new(192, 168, 0, 1));
    assert_eq!(batch.changes.len(), 1);
    assert_eq!(batch.changes[0].ttl, 60);
    assert_eq!(batch.changes[0].values, vec!["192.168.0.1".to_string()]);
}

#[test]
fn upsert_twice_asks_for_the_same_record() {
    let aws = Aws::new("example.com", "Z123", 300);
    let ip = Ipv4Address::new(5, 6, 7, 8);
    let first = aws.upsert(&ip);
    let second = aws.upsert(&ip);
    assert_eq!(first, second);

    let mut zone: Vec<String> = records(&["1.2.3.4"]);
    for batch in [first, second] {
        for change in batch.changes {
            assert_eq!(change.action, UPSERT);
            zone = change.values;
        }
        assert_eq!(zone, records(&["5.6.7.8"]));
        assert_eq!(Aws::current(Ok(zone.clone())), Ok(ip));
    }
}

#[test]
fn upserted_record_reads_back() {
    let aws = Aws::new("example.com", "Z123", 300);
    for ip in [
        Ipv4Address::new(0, 0, 0, 0),
        Ipv4Address::new(255, 255, 255, 255),
        Ipv4Address::new(10, 20, 30, 40),
    ] {
        let batch = aws.upsert(&ip);
        assert_eq!(Aws::current(Ok(batch.changes[0].values.clone())), Ok(ip));
    }
}

#[test]
fn update_result_keeps_the_backends_words() {
    assert_eq!(Aws::updated(Ok(())), Ok(()));
    assert_eq!(
        Aws::updated(Err("access denied".to_string())),
        Err(ProviderUpdateError::Backend("access denied".to_string()))
    );
}

#[test]
fn error_messages() {
    assert_eq!(
        ProviderQueryError::AmbiguousRecordSet.message(),
        "record set has multiple values"
    );
    assert_eq!(
        ProviderQueryError::MalformedRecord("abc".to_string()).message(),
        "invalid IPv4 address syntax"
    );
    assert_eq!(ProviderQueryError::Backend("timed out".to_string()).message(), "timed out");
    assert_eq!(ProviderUpdateError::Backend("throttled".to_string()).message(), "throttled");
}
