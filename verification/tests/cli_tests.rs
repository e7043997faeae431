use byte_unit::Byte;
use memcrs::memcache::cli::parser::{
    memory_limit, parse_memory_mb, port_in_range, RuntimeType, CONNECTION_LIMIT, DEFAULT_ADDRESS,
    DEFAULT_PORT, LISTEN_BACKLOG, MAX_ITEM_SIZE, MEMORY_LIMIT,
};

#[test]
fn runtime_type_describes_itself() {
    assert_eq!(
        RuntimeType::CurrentThread.as_str(),
        "Work handled withing current thread runtime"
    );
    assert_eq!(RuntimeType::MultiThread.as_str(), "Work stealing threadpool runtime");
}

#[test]
fn runtime_types_are_ordered_as_declared() {
    assert!(RuntimeType::CurrentThread < RuntimeType::MultiThread);
    assert_eq!(RuntimeType::CurrentThread, RuntimeType::CurrentThread);
    assert_ne!(RuntimeType::CurrentThread, RuntimeType::MultiThread);
}

#[test]
fn defaults_are_those_of_memcached() {
    assert_eq!(DEFAULT_PORT, 11211);
    assert_eq!(DEFAULT_ADDRESS, "127.0.0.1");
    assert_eq!(CONNECTION_LIMIT, 1024);
    assert_eq!(LISTEN_BACKLOG, 1024);
    assert_eq!(MEMORY_LIMIT, "64MiB");
    assert_eq!(MAX_ITEM_SIZE, "1MiB");
}

#[test]
fn port_in_range_accepts_every_port() {
    assert_eq!(port_in_range("1"), Ok(1));
    assert_eq!(port_in_range("11211"), Ok(11211));
    assert_eq!(port_in_range("65535"), Ok(65535));
    assert_eq!(port_in_range("+80"), Ok(80));
    assert_eq!(port_in_range("0080"), Ok(80));
}

#[test]
fn port_in_range_refuses_numbers_out_of_range() {
    let message = String::from("port not in range 1-65535");
    assert_eq!(port_in_range("0"), Err(message.clone()));
    assert_eq!(port_in_range("65536"), Err(message.clone()));
    assert_eq!(port_in_range("4294967295"), Err(message.clone()));
    assert_eq!(port_in_range(&usize::MAX.to_string()), Err(message));
}

#[test]
fn port_in_range_refuses_what_is_no_number() {
    assert_eq!(port_in_range("abc"), Err(String::from("`abc` isn't a port number")));
    assert_eq!(port_in_range(""), Err(String::from("`` isn't a port number")));
    assert_eq!(port_in_range("-1"), Err(String::from("`-1` isn't a port number")));
    assert_eq!(port_in_range(" 80"), Err(String::from("` 80` isn't a port number")));
    assert_eq!(port_in_range("8o"), Err(String::from("`8o` isn't a port number")));
    assert_eq!(port_in_range("ünï"), Err(String::from("`ünï` isn't a port number")));
    assert_eq!(
        port_in_range("340282366920938463463374607431768211456"),
        Err(String::from("`340282366920938463463374607431768211456` isn't a port number"))
    );
}

#[test]
fn memory_limit_hands_on_counts_and_messages() {
    assert_eq!(memory_limit(Ok(0)), Ok(0));
    assert_eq!(memory_limit(Ok(67108864)), Ok(67108864));
    assert_eq!(memory_limit(Ok(u64::MAX as u128)), Ok(u64::MAX));
    assert_eq!(memory_limit(Err(String::from("no"))), Err(String::from("no")));
}

#[test]
fn parse_memory_mb_reads_units() {
    assert_eq!(parse_memory_mb("64MiB"), Some(Ok(64 * 1024 * 1024)));
    assert_eq!(parse_memory_mb("1MiB"), Some(Ok(1024 * 1024)));
    assert_eq!(parse_memory_mb("1 KB"), Some(Ok(1000)));
    assert_eq!(parse_memory_mb("123"), Some(Ok(123)));
    assert_eq!(parse_memory_mb("  2 GiB "), Some(Ok(2 * 1024 * 1024 * 1024)));
    assert_eq!(parse_memory_mb("1.5 KiB"), Some(Ok(1536)));
}

#[test]
fn parse_memory_mb_reports_the_error_of_the_unit_parser() {
    let texts: Vec<&str> = vec!["", "abc", "12 XB", "1.x", "5 Mx", "7 Ki?"];
    for text in texts {
        let expected = Byte::from_str(text).unwrap_err().to_string();
        assert_eq!(parse_memory_mb(text), Some(Err(expected)));
    }
    assert_eq!(parse_memory_mb(""), Some(Err(String::from("No value."))));
}

#[test]
fn parse_memory_mb_has_no_answer_beyond_sixty_four_bits() {
    assert_eq!(parse_memory_mb("16 EiB"), None);
    assert_eq!(parse_memory_mb("1 ZiB"), None);
    assert_eq!(parse_memory_mb("15 EiB"), Some(Ok(15 * (1u64 << 60))));
}
