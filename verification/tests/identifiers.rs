use process_lib::{
    Address, AddressParseError, PackageId, ProcessId, ProcessIdParseError,
};

#[test]
fn process_id_round_trip() {
    let p = ProcessId::new("net", "distro", "sys");
    let text = p.to_string();
    assert_eq!(text, "net:distro:sys");
    let q = ProcessId::parse(&text).unwrap();
    assert!(q == p);
}

#[test]
fn process_id_round_trip_unusual_segments() {
    let p = ProcessId::new("a-b_c", "pkg.7", "node.os");
    let q = ProcessId::parse(&p.to_string()).unwrap();
    assert!(q == p);
}

#[test]
fn process_id_parse_exact_fields() {
    let p = ProcessId::parse("proc:pkg:node").unwrap();
    assert_eq!(p.process_name, "proc");
    assert_eq!(p.package_name, "pkg");
    assert_eq!(p.publisher_node, "node");
}

#[test]
fn process_id_parse_too_few_segments() {
    assert_eq!(
        ProcessId::parse("no-colons"),
        Err(ProcessIdParseError::TooFewSegments)
    );
    assert_eq!(
        ProcessId::parse("one:colon"),
        Err(ProcessIdParseError::TooFewSegments)
    );
    assert_eq!(ProcessId::parse(""), Err(ProcessIdParseError::TooFewSegments));
}

#[test]
fn process_id_parse_too_many_segments() {
    assert_eq!(
        ProcessId::parse("a:b:c:d"),
        Err(ProcessIdParseError::TooManySegments)
    );
    assert_eq!(
        ProcessId::parse(":::"),
        Err(ProcessIdParseError::TooManySegments)
    );
}

#[test]
fn process_id_parse_empty_segment() {
    assert_eq!(ProcessId::parse(":b:c"), Err(ProcessIdParseError::EmptySegment));
    assert_eq!(ProcessId::parse("a::c"), Err(ProcessIdParseError::EmptySegment));
    assert_eq!(ProcessId::parse("a:b:"), Err(ProcessIdParseError::EmptySegment));
}

#[test]
fn package_id_round_trip() {
    let p = PackageId::new("distro", "sys");
    let text = p.to_string();
    assert_eq!(text, "distro:sys");
    let q = PackageId::parse(&text).unwrap();
    assert!(q == p);
}

#[test]
fn package_id_segment_count_errors() {
    // One segment: too few.
    assert_eq!(
        PackageId::parse("loneword"),
        Err(ProcessIdParseError::TooFewSegments)
    );
    // Three non-empty segments: too many.
    assert_eq!(
        PackageId::parse("a:b:c"),
        Err(ProcessIdParseError::TooManySegments)
    );
    // An empty segment beside two non-empty ones still counts the colons.
    assert_eq!(
        PackageId::parse("a::b"),
        Err(ProcessIdParseError::TooManySegments)
    );
    assert_eq!(PackageId::parse(":b"), Err(ProcessIdParseError::EmptySegment));
    assert_eq!(PackageId::parse("a:"), Err(ProcessIdParseError::EmptySegment));
}

#[test]
fn address_parse_reserved_local_form() {
    let ad = Address::parse("our@net:distro:sys").unwrap();
    assert_eq!(ad.node, "our");
    assert_eq!(ad.process.process_name, "net");
    assert_eq!(ad.process.package_name, "distro");
    assert_eq!(ad.process.publisher_node, "sys");
}

#[test]
fn address_round_trip() {
    let ad = Address::new("node7.os", ProcessId::new("app", "pkg", "pub.os"));
    let text = ad.to_string();
    assert_eq!(text, "node7.os@app:pkg:pub.os");
    let q = Address::parse(&text).unwrap();
    assert!(q == ad);
}

#[test]
fn address_parse_errors() {
    assert_eq!(
        Address::parse("no-at-sign:a:b:c"),
        Err(AddressParseError::TooFewSegments)
    );
    assert_eq!(
        Address::parse("@a:b:c"),
        Err(AddressParseError::EmptySegment)
    );
    assert_eq!(
        Address::parse("node@a:b"),
        Err(AddressParseError::TooFewSegments)
    );
    assert_eq!(
        Address::parse("node@a:b:c:d"),
        Err(AddressParseError::TooManySegments)
    );
    assert_eq!(
        Address::parse("node@a::c"),
        Err(AddressParseError::EmptySegment)
    );
}
