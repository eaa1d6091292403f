use zonedns::handler::DEFAULT_TTL;
use zonedns::{
    DNSError, DnsName, DnsQuery, Handler, Ipv4, Ipv6, MessageType, Network, NetworkEntry, OpCode,
    RData, Record, ResponseCode,
};

fn name(s: &str) -> DnsName {
    DnsName::new(s.as_bytes().to_vec())
}

fn empty_entry() -> NetworkEntry {
    NetworkEntry { a_recs: vec![], cname_recs: vec![], aaaa_recs: vec![] }
}

fn host1_handler() -> Handler {
    let mut network = Network::new(name("example.com."));
    let entry = NetworkEntry {
        a_recs: vec![Ipv4 { a: 10, b: 0, c: 0, d: 1 }],
        cname_recs: vec![],
        aaaa_recs: vec![],
    };
    network.add_entry(name("host1.example.com."), entry);
    Handler::from_network(network)
}

fn query_for(n: &str) -> DnsQuery {
    DnsQuery {
        id: 42,
        op_code: OpCode::Query,
        message_type: MessageType::Query,
        name: name(n),
    }
}

#[test]
fn one_a_record_for_present_name() {
    let handler = host1_handler();
    let response = handler.handle_request(&query_for("host1.example.com."));
    assert_eq!(response.response_code, ResponseCode::NoError);
    assert_eq!(response.id, 42);
    assert!(response.authoritative);
    assert!(!response.recursion_available);
    assert_eq!(
        response.answers,
        vec![Record {
            name: name("host1.example.com."),
            ttl: DEFAULT_TTL,
            data: RData::A(Ipv4 { a: 10, b: 0, c: 0, d: 1 }),
        }]
    );
}

#[test]
fn nxdomain_for_absent_name() {
    let handler = host1_handler();
    let response = handler.handle_request(&query_for("host2.example.com."));
    assert_eq!(response.response_code, ResponseCode::NXDomain);
    assert!(response.answers.is_empty());
}

#[test]
fn refused_for_out_of_zone_name() {
    let handler = host1_handler();
    let response = handler.handle_request(&query_for("host1.other.com."));
    assert_eq!(response.response_code, ResponseCode::Refused);
    assert!(response.answers.is_empty());
}

#[test]
fn three_records_in_fixed_order() {
    let mut network = Network::new(name("example.com."));
    let entry = NetworkEntry {
        a_recs: vec![Ipv4 { a: 10, b: 0, c: 0, d: 1 }],
        cname_recs: vec![name("alias.example.com.")],
        aaaa_recs: vec![Ipv6 { s1: 0, s2: 0, s3: 0, s4: 0, s5: 0, s6: 0, s7: 0, s8: 1 }],
    };
    network.add_entry(name("multi.example.com."), entry);
    let handler = Handler::from_network(network);
    let response = handler.handle_request(&query_for("multi.example.com."));
    assert_eq!(response.response_code, ResponseCode::NoError);
    let owner = name("multi.example.com.");
    assert_eq!(
        response.answers,
        vec![
            Record {
                name: owner.clone(),
                ttl: DEFAULT_TTL,
                data: RData::A(Ipv4 { a: 10, b: 0, c: 0, d: 1 }),
            },
            Record {
                name: owner.clone(),
                ttl: DEFAULT_TTL,
                data: RData::Cname(name("alias.example.com.")),
            },
            Record {
                name: owner.clone(),
                ttl: DEFAULT_TTL,
                data: RData::Aaaa(Ipv6 { s1: 0, s2: 0, s3: 0, s4: 0, s5: 0, s6: 0, s7: 0, s8: 1 }),
            },
        ]
    );
}

#[test]
fn refused_for_response_message_type() {
    let handler = host1_handler();
    let query = DnsQuery {
        id: 7,
        op_code: OpCode::Query,
        message_type: MessageType::Response,
        name: name("host1.example.com."),
    };
    let response = handler.handle_request(&query);
    assert_eq!(response.response_code, ResponseCode::Refused);
    assert!(response.answers.is_empty());
}

#[test]
fn refused_for_non_query_opcode() {
    let handler = host1_handler();
    let query = DnsQuery {
        id: 7,
        op_code: OpCode::Status,
        message_type: MessageType::Query,
        name: name("host1.example.com."),
    };
    let response = handler.handle_request(&query);
    assert_eq!(response.response_code, ResponseCode::Refused);
    assert!(response.answers.is_empty());
}

#[test]
fn same_query_twice_gives_identical_answers() {
    let handler = host1_handler();
    let first = handler.handle_request(&query_for("host1.example.com."));
    let second = handler.handle_request(&query_for("host1.example.com."));
    assert_eq!(first, second);
    assert_eq!(first.answers, second.answers);
}

#[test]
fn opcode_check_precedes_zone_check() {
    let handler = host1_handler();
    let query = DnsQuery {
        id: 7,
        op_code: OpCode::Notify,
        message_type: MessageType::Response,
        name: name("elsewhere.org."),
    };
    let result = handler.validate_request(&query);
    assert_eq!(result, Err(DNSError::InvalidOpCode(OpCode::Notify)));
}

#[test]
fn message_type_check_precedes_zone_check() {
    let handler = host1_handler();
    let query = DnsQuery {
        id: 7,
        op_code: OpCode::Query,
        message_type: MessageType::Response,
        name: name("elsewhere.org."),
    };
    let result = handler.validate_request(&query);
    assert_eq!(result, Err(DNSError::InvalidMessageType(MessageType::Response)));
}

#[test]
fn zone_violation_is_reported_last() {
    let handler = host1_handler();
    let result = handler.validate_request(&query_for("elsewhere.org."));
    assert_eq!(result, Err(DNSError::InvalidZone(name("elsewhere.org."))));
}

#[test]
fn delivery_failure_maps_to_servfail() {
    let handler = host1_handler();
    let query = query_for("host1.example.com.");
    let response = handler.handle_err(&query, DNSError::Io);
    assert_eq!(response.response_code, ResponseCode::ServFail);
    assert!(response.answers.is_empty());
    assert_eq!(response.id, 42);
    assert!(response.authoritative);
    assert!(!response.recursion_available);
}

#[test]
fn validation_error_maps_to_refused() {
    let handler = host1_handler();
    let query = query_for("host1.example.com.");
    let response = handler.handle_err(&query, DNSError::InvalidOpCode(OpCode::Update));
    assert_eq!(response.response_code, ResponseCode::Refused);
    assert!(response.answers.is_empty());
}

#[test]
fn query_case_and_trailing_dot_are_normalized() {
    let handler = host1_handler();
    let response = handler.handle_request(&query_for("HOST1.Example.COM"));
    assert_eq!(response.response_code, ResponseCode::NoError);
    assert_eq!(response.answers.len(), 1);
    assert_eq!(response.answers[0].name, name("host1.example.com."));
}

#[test]
fn apex_itself_is_in_zone() {
    let handler = host1_handler();
    let response = handler.handle_request(&query_for("example.com."));
    assert_eq!(response.response_code, ResponseCode::NXDomain);
}

#[test]
fn suffix_without_label_boundary_is_out_of_zone() {
    let handler = host1_handler();
    let response = handler.handle_request(&query_for("bexample.com."));
    assert_eq!(response.response_code, ResponseCode::Refused);
}

#[test]
fn root_zone_serves_every_name() {
    let mut network = Network::new(name("."));
    network.add_entry(name("anything.test."), empty_entry());
    let handler = Handler::from_network(network);
    let found = handler.handle_request(&query_for("anything.test."));
    assert_eq!(found.response_code, ResponseCode::NoError);
    let absent = handler.handle_request(&query_for("unrelated.org."));
    assert_eq!(absent.response_code, ResponseCode::NXDomain);
}

#[test]
fn present_name_with_no_records_answers_noerror_empty() {
    let mut network = Network::new(name("example.com."));
    network.add_entry(name("bare.example.com."), empty_entry());
    let handler = Handler::from_network(network);
    let response = handler.handle_request(&query_for("bare.example.com."));
    assert_eq!(response.response_code, ResponseCode::NoError);
    assert!(response.answers.is_empty());
}

#[test]
fn answers_keep_insertion_order_within_a_kind() {
    let mut network = Network::new(name("example.com."));
    let entry = NetworkEntry {
        a_recs: vec![
            Ipv4 { a: 10, b: 0, c: 0, d: 2 },
            Ipv4 { a: 10, b: 0, c: 0, d: 1 },
            Ipv4 { a: 10, b: 0, c: 0, d: 2 },
        ],
        cname_recs: vec![],
        aaaa_recs: vec![],
    };
    network.add_entry(name("many.example.com."), entry);
    let handler = Handler::from_network(network);
    let response = handler.handle_request(&query_for("many.example.com."));
    let ips: Vec<RData> = response.answers.iter().map(|r| r.data.clone()).collect();
    assert_eq!(
        ips,
        vec![
            RData::A(Ipv4 { a: 10, b: 0, c: 0, d: 2 }),
            RData::A(Ipv4 { a: 10, b: 0, c: 0, d: 1 }),
            RData::A(Ipv4 { a: 10, b: 0, c: 0, d: 2 }),
        ]
    );
}
