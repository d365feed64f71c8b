use sn_node_manager::error::ProvisionError;
use sn_node_manager::port_range::PortRange;

#[test]
fn parse_accepts_a_bare_port() {
    assert_eq!(PortRange::parse("8080"), Ok(PortRange::Single(8080)));
}

#[test]
fn parse_accepts_leading_zeros() {
    assert_eq!(PortRange::parse("0080"), Ok(PortRange::Single(80)));
}

#[test]
fn parse_accepts_an_interval() {
    assert_eq!(PortRange::parse("8081-8090"), Ok(PortRange::Range(8081, 8090)));
}

#[test]
fn parse_rejects_an_inverted_interval() {
    assert_eq!(PortRange::parse("8090-8080"), Err(ProvisionError::MalformedRange));
}

#[test]
fn parse_rejects_an_equal_interval() {
    assert_eq!(PortRange::parse("8080-8080"), Err(ProvisionError::MalformedRange));
}

#[test]
fn parse_rejects_text_that_is_no_numeral() {
    assert_eq!(PortRange::parse("eight"), Err(ProvisionError::MalformedRange));
    assert_eq!(PortRange::parse(""), Err(ProvisionError::MalformedRange));
    assert_eq!(PortRange::parse("+80"), Err(ProvisionError::MalformedRange));
}

#[test]
fn parse_rejects_too_many_parts() {
    assert_eq!(PortRange::parse("1-2-3"), Err(ProvisionError::MalformedRange));
}

#[test]
fn parse_rejects_an_overflowing_port() {
    assert_eq!(PortRange::parse("65536"), Err(ProvisionError::MalformedRange));
    assert_eq!(PortRange::parse("8080-65536"), Err(ProvisionError::MalformedRange));
}

#[test]
fn parse_accepts_the_port_bounds() {
    assert_eq!(PortRange::parse("0"), Ok(PortRange::Single(0)));
    assert_eq!(PortRange::parse("65535"), Ok(PortRange::Single(65535)));
}

#[test]
fn validate_accepts_a_single_port_for_one_instance() {
    assert_eq!(PortRange::Single(8080).validate(1), Ok(()));
}

#[test]
fn validate_rejects_a_single_port_for_two_instances() {
    assert_eq!(
        PortRange::Single(8080).validate(2),
        Err(ProvisionError::CardinalityMismatch { required: 1, declared: 2 })
    );
}

#[test]
fn validate_matches_interval_cardinality() {
    let range = PortRange::Range(8081, 8083);
    assert_eq!(range.validate(3), Ok(()));
    assert_eq!(
        range.validate(2),
        Err(ProvisionError::CardinalityMismatch { required: 3, declared: 2 })
    );
    assert_eq!(
        range.validate(4),
        Err(ProvisionError::CardinalityMismatch { required: 3, declared: 4 })
    );
}
