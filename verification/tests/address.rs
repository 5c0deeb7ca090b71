use mcping::address::parse_address;
use mcping::Error;

fn parsed(address: &str, default_port: u16) -> Result<(String, u16), Error> {
    parse_address(address, default_port)
}

#[test]
fn address_without_port_takes_the_default() {
    assert_eq!(
        parsed("mc.hypixel.net", 25565),
        Ok(("mc.hypixel.net".to_string(), 25565))
    );
    assert_eq!(
        parsed("13.212.76.209", 19132),
        Ok(("13.212.76.209".to_string(), 19132))
    );
}

#[test]
fn address_with_port() {
    assert_eq!(
        parsed("test.server.com:19384", 25565),
        Ok(("test.server.com".to_string(), 19384))
    );
    assert_eq!(
        parsed("13.212.76.209:23193", 25565),
        Ok(("13.212.76.209".to_string(), 23193))
    );
    assert_eq!(parsed("host:0", 1), Ok(("host".to_string(), 0)));
    assert_eq!(parsed("host:65535", 1), Ok(("host".to_string(), 65535)));
    assert_eq!(parsed("host:+80", 1), Ok(("host".to_string(), 80)));
}

#[test]
fn address_with_bad_port_is_invalid() {
    for address in [
        "host:",
        "host:65536",
        "host:-1",
        "host:http",
        "host: 80",
        "host:80 ",
        "host:+",
        "host:99999999999999999999999",
    ] {
        assert_eq!(parsed(address, 25565), Err(Error::InvalidAddress));
    }
}

#[test]
fn address_with_more_colons_is_invalid() {
    assert_eq!(parsed("a:1:2", 25565), Err(Error::InvalidAddress));
    assert_eq!(parsed("::1", 25565), Err(Error::InvalidAddress));
    assert_eq!(parsed("host::", 25565), Err(Error::InvalidAddress));
}

#[test]
fn address_in_brackets_may_hold_colons() {
    assert_eq!(parsed("[::1]", 25565), Ok(("::1".to_string(), 25565)));
    assert_eq!(parsed("[::1]:19132", 25565), Ok(("::1".to_string(), 19132)));
    assert_eq!(
        parsed("[2001:db8::2]:80", 25565),
        Ok(("2001:db8::2".to_string(), 80))
    );
}

#[test]
fn address_with_broken_brackets_is_invalid() {
    assert_eq!(parsed("[::1", 25565), Err(Error::InvalidAddress));
    assert_eq!(parsed("[::1]x", 25565), Err(Error::InvalidAddress));
    assert_eq!(parsed("[::1]:", 25565), Err(Error::InvalidAddress));
    assert_eq!(parsed("[::1]:port", 25565), Err(Error::InvalidAddress));
}

#[test]
fn address_may_have_an_empty_host() {
    assert_eq!(parsed("", 25565), Ok((String::new(), 25565)));
    assert_eq!(parsed(":25570", 25565), Ok((String::new(), 25570)));
}

#[test]
fn address_keeps_other_characters() {
    assert_eq!(parsed("ünï.example", 7), Ok(("ünï.example".to_string(), 7)));
}
