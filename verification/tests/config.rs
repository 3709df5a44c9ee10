use sensor_ingest::config::{
    influx_url, load, parse_port, ConfigError, Environment, Settings, BIND_INTERFACE,
    DEFAULT_INFLUX_PORT, DEFAULT_PORT, INFLUX_HOST_VAR, INFLUX_ORG_VAR, INFLUX_PORT_VAR,
    INFLUX_TOKEN_VAR, PORT_VAR,
};

fn text(value: &str) -> Option<String> {
    Some(value.to_string())
}

fn complete() -> Environment {
    Environment {
        port: text("8080"),
        influx_host: text("influx.local"),
        influx_port: text("9999"),
        influx_token: text("s3cr3t"),
        influx_org: text("home"),
    }
}

#[test]
fn parse_port_reads_plain_numbers() {
    assert_eq!(parse_port("3000"), Some(3000));
    assert_eq!(parse_port("8086"), Some(8086));
    assert_eq!(parse_port("1"), Some(1));
    assert_eq!(parse_port("0"), Some(0));
}

#[test]
fn parse_port_accepts_the_whole_range_and_no_more() {
    assert_eq!(parse_port("65535"), Some(65535));
    assert_eq!(parse_port("65536"), None);
    assert_eq!(parse_port("70000"), None);
    assert_eq!(parse_port("99999999999999999999999999"), None);
}

#[test]
fn parse_port_accepts_one_leading_plus_sign() {
    assert_eq!(parse_port("+80"), Some(80));
    assert_eq!(parse_port("+65535"), Some(65535));
    assert_eq!(parse_port("+"), None);
    assert_eq!(parse_port("++80"), None);
    assert_eq!(parse_port("80+"), None);
}

#[test]
fn parse_port_accepts_leading_zeros() {
    assert_eq!(parse_port("0080"), Some(80));
    assert_eq!(parse_port("000000000000000000000000065535"), Some(65535));
    assert_eq!(parse_port("+0"), Some(0));
}

#[test]
fn parse_port_refuses_what_is_not_a_number() {
    assert_eq!(parse_port(""), None);
    assert_eq!(parse_port("-1"), None);
    assert_eq!(parse_port("-0"), None);
    assert_eq!(parse_port(" 80"), None);
    assert_eq!(parse_port("80 "), None);
    assert_eq!(parse_port("8_0"), None);
    assert_eq!(parse_port("80.0"), None);
    assert_eq!(parse_port("0x50"), None);
    assert_eq!(parse_port("http"), None);
}

#[test]
fn parse_port_refuses_digits_outside_ascii() {
    assert_eq!(parse_port("\u{ff18}\u{ff10}"), None);
    assert_eq!(parse_port("8\u{0660}"), None);
    assert_eq!(parse_port("+\u{00e9}"), None);
    assert_eq!(parse_port("\u{00e9}80"), None);
}

#[test]
fn parse_port_agrees_with_the_standard_parser() {
    let samples = [
        "", "+", "-", "0", "00", "+0", "-0", "7", "80", "+80", "-80", "3000", "65535", "65536",
        "065535", "655350", "4294967296", "12a", "a12", "1 2", "\t1", "1\n", "+-1", "-+1", "+ 1",
        "\u{0661}\u{0662}\u{0663}", "\u{ff11}\u{ff12}", "1e3", "\u{0661}", "99999", "65534", "+65536",
    ];
    for sample in samples {
        assert_eq!(parse_port(sample), sample.parse::<u16>().ok(), "on {:?}", sample);
    }
}

#[test]
fn variable_names_and_defaults() {
    assert_eq!(PORT_VAR, "PORT");
    assert_eq!(INFLUX_HOST_VAR, "INFLUX_HOST");
    assert_eq!(INFLUX_PORT_VAR, "INFLUX_PORT");
    assert_eq!(INFLUX_TOKEN_VAR, "INFLUX_TOKEN");
    assert_eq!(INFLUX_ORG_VAR, "INFLUX_ORG");
    assert_eq!(DEFAULT_PORT, "3000");
    assert_eq!(DEFAULT_INFLUX_PORT, "8086");
    assert_eq!(BIND_INTERFACE, [0, 0, 0, 0]);
}

#[test]
fn influx_url_joins_host_and_port() {
    assert_eq!(influx_url("localhost", "8086"), "http://localhost:8086");
    assert_eq!(influx_url("10.0.0.9", "9999"), "http://10.0.0.9:9999");
    assert_eq!(influx_url("", ""), "http://:");
}

#[test]
fn influx_url_takes_the_port_as_it_is_written() {
    assert_eq!(influx_url("influx", "not-a-port"), "http://influx:not-a-port");
}

#[test]
fn load_takes_every_variable_that_is_set() {
    assert_eq!(
        load(complete()),
        Ok(Settings {
            port: 8080,
            influx_url: "http://influx.local:9999".to_string(),
            influx_org: "home".to_string(),
            influx_token: "s3cr3t".to_string(),
        })
    );
}

#[test]
fn load_defaults_the_listen_port_to_3000() {
    let env = Environment { port: None, ..complete() };
    assert_eq!(load(env).map(|settings| settings.port), Ok(3000));
}

#[test]
fn load_defaults_the_store_port_to_8086() {
    let env = Environment { influx_port: None, ..complete() };
    assert_eq!(
        load(env).map(|settings| settings.influx_url),
        Ok("http://influx.local:8086".to_string())
    );
}

#[test]
fn load_refuses_a_malformed_listen_port() {
    for bad in ["", "http", "-1", "65536", "80 "] {
        let env = Environment { port: text(bad), ..complete() };
        assert_eq!(load(env), Err(ConfigError::InvalidPort), "on {:?}", bad);
    }
}

#[test]
fn load_requires_the_store_host() {
    let env = Environment { influx_host: None, ..complete() };
    assert_eq!(load(env), Err(ConfigError::MissingInfluxHost));
}

#[test]
fn load_requires_the_store_token() {
    let env = Environment { influx_token: None, ..complete() };
    assert_eq!(load(env), Err(ConfigError::MissingInfluxToken));
}

#[test]
fn load_requires_the_store_organization() {
    let env = Environment { influx_org: None, ..complete() };
    assert_eq!(load(env), Err(ConfigError::MissingInfluxOrg));
}

#[test]
fn load_reports_the_first_thing_that_is_wrong() {
    let nothing = Environment {
        port: text("nope"),
        influx_host: None,
        influx_port: None,
        influx_token: None,
        influx_org: None,
    };
    assert_eq!(load(nothing), Err(ConfigError::InvalidPort));
    let no_store = Environment {
        port: None,
        influx_host: None,
        influx_port: None,
        influx_token: None,
        influx_org: None,
    };
    assert_eq!(load(no_store), Err(ConfigError::MissingInfluxHost));
    let host_only = Environment {
        port: None,
        influx_host: text("influx"),
        influx_port: None,
        influx_token: None,
        influx_org: None,
    };
    assert_eq!(load(host_only), Err(ConfigError::MissingInfluxToken));
}

#[test]
fn load_accepts_empty_values_that_are_set() {
    let env = Environment {
        port: None,
        influx_host: text(""),
        influx_port: text(""),
        influx_token: text(""),
        influx_org: text(""),
    };
    assert_eq!(
        load(env),
        Ok(Settings {
            port: 3000,
            influx_url: "http://:".to_string(),
            influx_org: String::new(),
            influx_token: String::new(),
        })
    );
}

#[test]
fn startup_without_the_token_fails_before_anything_is_bound() {
    let env = Environment {
        port: text("3000"),
        influx_host: text("localhost"),
        influx_port: text("8086"),
        influx_token: None,
        influx_org: text("home"),
    };
    let outcome = load(env);
    assert_eq!(outcome, Err(ConfigError::MissingInfluxToken));
    assert_eq!(ConfigError::MissingInfluxToken.message(), "INFLUX_TOKEN must be set");
}

#[test]
fn every_startup_failure_has_its_message() {
    assert_eq!(ConfigError::InvalidPort.message(), "PORT must be a valid u16 number");
    assert_eq!(ConfigError::MissingInfluxHost.message(), "INFLUX_HOST must be set");
    assert_eq!(ConfigError::MissingInfluxToken.message(), "INFLUX_TOKEN must be set");
    assert_eq!(ConfigError::MissingInfluxOrg.message(), "INFLUX_ORG must be set");
}
