//! Start-up configuration from the process environment.
//!
//! The program reads the variables named here and hands what it found to
//! [`load`], which decides whether the service can start, and with which
//! settings.

use vstd::prelude::*;

verus! {

/// The variable that holds the port to listen on.  Optional.
pub const PORT_VAR: &'static str = "PORT";

/// The variable that holds the host of the store.  Required.
pub const INFLUX_HOST_VAR: &'static str = "INFLUX_HOST";

/// The variable that holds the port of the store.  Optional.
pub const INFLUX_PORT_VAR: &'static str = "INFLUX_PORT";

/// The variable that holds the access token for the store.  Required.
pub const INFLUX_TOKEN_VAR: &'static str = "INFLUX_TOKEN";

/// The variable that holds the organization in the store.  Required.
pub const INFLUX_ORG_VAR: &'static str = "INFLUX_ORG";

/// The port to listen on where the environment names none.
pub const DEFAULT_PORT: &'static str = "3000";

/// The port of the store where the environment names none.
pub const DEFAULT_INFLUX_PORT: &'static str = "8086";

/// Whether `c` is a decimal digit.
pub open spec fn is_digit(c: char) -> bool {
    '0' <= c <= '9'
}

/// Whether `text` consists of decimal digits only.
pub open spec fn all_digits(text: Seq<char>) -> bool {
    forall|i: int| 0 <= i < text.len() ==> is_digit(#[trigger] text[i])
}

/// The number that the decimal digits `digits` write.
pub open spec fn decimal_value(digits: Seq<char>) -> nat
    decreases digits.len(),
{
    if digits.len() == 0 {
        0
    } else {
        (10 * decimal_value(digits.drop_last()) + (digits.last() as int - '0' as int)) as nat
    }
}

/// `text` without the one plus sign that may lead it.
pub open spec fn without_sign(text: Seq<char>) -> Seq<char> {
    if text.len() > 0 && text[0] == '+' {
        text.drop_first()
    } else {
        text
    }
}

/// The port that `text` names, if it names one: an optional plus sign, then
/// one or more decimal digits and nothing else, which write a number of at
/// most 65535.  Leading zeros are allowed.
pub open spec fn port_of(text: Seq<char>) -> Option<u16> {
    let digits = without_sign(text);
    if digits.len() > 0 && all_digits(digits) && decimal_value(digits) <= u16::MAX {
        Some(decimal_value(digits) as u16)
    } else {
        None
    }
}

/// The number written by some leading digits is at most the number written
/// by all of them.
proof fn lemma_decimal_value_grows(digits: Seq<char>, k: int)
    requires
        0 <= k <= digits.len(),
        all_digits(digits),
    ensures
        decimal_value(digits.subrange(0, k)) <= decimal_value(digits),
    decreases digits.len() - k,
{
    if k == digits.len() {
        assert(digits.subrange(0, k) =~= digits);
    } else {
        let front = digits.drop_last();
        assert(all_digits(front));
        if k == front.len() {
            assert(digits.subrange(0, k) =~= front);
        } else {
            assert(front.subrange(0, k) =~= digits.subrange(0, k));
            lemma_decimal_value_grows(front, k);
        }
        assert(is_digit(digits.last()));
    }
}

/// Reads a port number from `text`.
pub fn parse_port(text: &str) -> (port: Option<u16>)
    ensures
        port == port_of(text@),
{
    let ghost digits = without_sign(text@);
    if !text.is_ascii() {
        proof {
            let j = choose|j: int|
                0 <= j < text@.len() && !('\0' <= #[trigger] text@[j] <= '\u{7f}');
            if text@[0] == '+' {
                assert(digits[j - 1] == text@[j]);
                assert(!is_digit(digits[j - 1]));
            } else {
                assert(!is_digit(digits[j]));
            }
        }
        return None;
    }
    proof {
        vstd::utf8::is_ascii_chars_encode_utf8(text@);
    }
    let bytes = text.as_bytes();
    let n = bytes.len();
    let mut i: usize = 0;
    if n > 0 && bytes[0] == 43 {
        i = 1;
    }
    let start = i;
    assert(n > 0 ==> ((text@[0] == '+') <==> start == 1)) by {
        if n > 0 {
            assert('\0' <= text@[0] <= '\u{7f}');
            assert(text@[0] as u8 as int == text@[0] as int);
        }
    }
    assert(digits =~= text@.subrange(start as int, n as int));
    if i == n {
        return None;
    }
    let mut value: u32 = 0;
    assert(digits.subrange(0, 0) =~= Seq::<char>::empty());
    while i < n
        invariant
            text.is_ascii(),
            bytes@ == vstd::utf8::encode_utf8(text@),
            n == bytes@.len(),
            n == text@.len(),
            start <= i <= n,
            digits == without_sign(text@),
            digits == text@.subrange(start as int, n as int),
            digits.len() > 0,
            all_digits(digits.subrange(0, i - start)),
            value == decimal_value(digits.subrange(0, i - start)),
            value <= u16::MAX,
        decreases n - i,
    {
        let b = bytes[i];
        proof {
            vstd::utf8::is_ascii_chars_encode_utf8(text@);
        }
        let ghost prefix = digits.subrange(0, i - start + 1);
        assert(prefix.drop_last() =~= digits.subrange(0, i - start));
        assert(prefix.last() == text@[i as int]);
        assert(text@[i as int] as int == b as int);
        if b < 48 || b > 57 {
            assert(!is_digit(digits[i - start]));
            return None;
        }
        value = value * 10 + (b - 48) as u32;
        assert(all_digits(prefix)) by {
            assert forall|k: int| 0 <= k < prefix.len() implies is_digit(#[trigger] prefix[k]) by {
                if k < prefix.len() - 1 {
                    assert(prefix[k] == digits.subrange(0, i - start)[k]);
                }
            }
        }
        if value > 65535 {
            proof {
                if all_digits(digits) {
                    lemma_decimal_value_grows(digits, i - start + 1);
                }
            }
            return None;
        }
        i += 1;
    }
    assert(digits.subrange(0, i - start) =~= digits);
    Some(value as u16)
}

/// Where the environment names no port, the service listens on port 3000.
pub proof fn lemma_default_port()
    ensures
        port_of(DEFAULT_PORT@) == Some(3000u16),
{
    reveal_strlit("3000");
    reveal_with_fuel(decimal_value, 5);
    let text = DEFAULT_PORT@;
    assert(without_sign(text) == text);
    assert(text.drop_last() =~= seq!['3', '0', '0']);
    assert(text.drop_last().drop_last() =~= seq!['3', '0']);
    assert(text.drop_last().drop_last().drop_last() =~= seq!['3']);
    assert(text.drop_last().drop_last().drop_last().drop_last() =~= Seq::<char>::empty());
}

/// The interface that the service listens on: every one of the machine.
pub const BIND_INTERFACE: [u8; 4] = [0, 0, 0, 0];

/// What the process environment holds of the variables that the service
/// reads; `None` where a variable is not set.
#[derive(Clone, Debug, PartialEq, Eq)]
pub struct Environment {
    pub port: Option<String>,
    pub influx_host: Option<String>,
    pub influx_port: Option<String>,
    pub influx_token: Option<String>,
    pub influx_org: Option<String>,
}

/// What the service starts with.
#[derive(Clone, Debug, PartialEq, Eq)]
pub struct Settings {
    /// The port to listen on.
    pub port: u16,
    /// The address of the store.
    pub influx_url: String,
    /// The organization in the store.
    pub influx_org: String,
    /// The access token for the store.
    pub influx_token: String,
}

/// Why the service cannot start.
#[derive(Clone, Copy, Debug, PartialEq, Eq, Structural)]
pub enum ConfigError {
    /// The port to listen on is not a port number.
    InvalidPort,
    /// The host of the store is not set.
    MissingInfluxHost,
    /// The access token for the store is not set.
    MissingInfluxToken,
    /// The organization in the store is not set.
    MissingInfluxOrg,
}

/// What an [`Environment`] holds, as mathematical values.
pub struct EnvironmentView {
    pub port: Option<Seq<char>>,
    pub influx_host: Option<Seq<char>>,
    pub influx_port: Option<Seq<char>>,
    pub influx_token: Option<Seq<char>>,
    pub influx_org: Option<Seq<char>>,
}

/// What a [`Settings`] holds, as mathematical values.
pub struct SettingsView {
    pub port: u16,
    pub influx_url: Seq<char>,
    pub influx_org: Seq<char>,
    pub influx_token: Seq<char>,
}

/// The text of a variable that may not be set.
pub open spec fn text_of(value: Option<String>) -> Option<Seq<char>> {
    match value {
        Some(text) => Some(text@),
        None => None,
    }
}

impl View for Environment {
    type V = EnvironmentView;

    open spec fn view(&self) -> EnvironmentView {
        EnvironmentView {
            port: text_of(self.port),
            influx_host: text_of(self.influx_host),
            influx_port: text_of(self.influx_port),
            influx_token: text_of(self.influx_token),
            influx_org: text_of(self.influx_org),
        }
    }
}

impl View for Settings {
    type V = SettingsView;

    open spec fn view(&self) -> SettingsView {
        SettingsView {
            port: self.port,
            influx_url: self.influx_url@,
            influx_org: self.influx_org@,
            influx_token: self.influx_token@,
        }
    }
}

/// `value`, or `default` where there is none.
pub open spec fn or_default(value: Option<Seq<char>>, default: Seq<char>) -> Seq<char> {
    match value {
        Some(text) => text,
        None => default,
    }
}

/// The address of the store on `host` and `port`, which is taken as it is
/// written.
pub open spec fn store_url(host: Seq<char>, port: Seq<char>) -> Seq<char> {
    "http://"@ + host + ":"@ + port
}

/// The settings that `env` gives, or the first reason why it gives none.
///
/// The port to listen on is looked at first: it must name a port, and is
/// `3000` where it is not set.  Then the host of the store, its access token
/// and its organization must be set, and are asked for in this order.  The
/// port of the store is `8086` where it is not set.
pub open spec fn settings_of(env: EnvironmentView) -> Result<SettingsView, ConfigError> {
    let port = port_of(or_default(env.port, DEFAULT_PORT@));
    if port is None {
        Err(ConfigError::InvalidPort)
    } else if env.influx_host is None {
        Err(ConfigError::MissingInfluxHost)
    } else if env.influx_token is None {
        Err(ConfigError::MissingInfluxToken)
    } else if env.influx_org is None {
        Err(ConfigError::MissingInfluxOrg)
    } else {
        Ok(
            SettingsView {
                port: port->0,
                influx_url: store_url(
                    env.influx_host->0,
                    or_default(env.influx_port, DEFAULT_INFLUX_PORT@),
                ),
                influx_org: env.influx_org->0,
                influx_token: env.influx_token->0,
            },
        )
    }
}

/// What [`load`] hands back, as mathematical values.
pub open spec fn loaded_view(loaded: Result<Settings, ConfigError>) -> Result<
    SettingsView,
    ConfigError,
> {
    match loaded {
        Ok(settings) => Ok(settings@),
        Err(error) => Err(error),
    }
}

/// Writes the address of the store on `host` and `port`.
pub fn influx_url(host: &str, port: &str) -> (url: String)
    ensures
        url@ == store_url(host@, port@),
{
    let mut url = "http://".to_owned();
    url.append(host);
    url.append(":");
    url.append(port);
    url
}

/// Decides from the environment whether the service can start, and with
/// which settings.
pub fn load(env: Environment) -> (loaded: Result<Settings, ConfigError>)
    ensures
        loaded_view(loaded) == settings_of(env@),
{
    let port = match &env.port {
        Some(text) => parse_port(text.as_str()),
        None => parse_port(DEFAULT_PORT),
    };
    let port = match port {
        Some(port) => port,
        None => {
            return Err(ConfigError::InvalidPort);
        },
    };
    let host = match env.influx_host {
        Some(host) => host,
        None => {
            return Err(ConfigError::MissingInfluxHost);
        },
    };
    let url = match &env.influx_port {
        Some(text) => influx_url(host.as_str(), text.as_str()),
        None => influx_url(host.as_str(), DEFAULT_INFLUX_PORT),
    };
    let token = match env.influx_token {
        Some(token) => token,
        None => {
            return Err(ConfigError::MissingInfluxToken);
        },
    };
    let org = match env.influx_org {
        Some(org) => org,
        None => {
            return Err(ConfigError::MissingInfluxOrg);
        },
    };
    Ok(Settings { port, influx_url: url, influx_org: org, influx_token: token })
}

impl ConfigError {
    /// The words that say why the service cannot start.
    pub open spec fn message_text(self) -> Seq<char> {
        match self {
            ConfigError::InvalidPort => "PORT must be a valid u16 number"@,
            ConfigError::MissingInfluxHost => "INFLUX_HOST must be set"@,
            ConfigError::MissingInfluxToken => "INFLUX_TOKEN must be set"@,
            ConfigError::MissingInfluxOrg => "INFLUX_ORG must be set"@,
        }
    }

    /// Says why the service cannot start.
    pub fn message(&self) -> (message: &'static str)
        ensures
            message@ == self.message_text(),
    {
        match self {
            ConfigError::InvalidPort => "PORT must be a valid u16 number",
            ConfigError::MissingInfluxHost => "INFLUX_HOST must be set",
            ConfigError::MissingInfluxToken => "INFLUX_TOKEN must be set",
            ConfigError::MissingInfluxOrg => "INFLUX_ORG must be set",
        }
    }
}

} // verus!
