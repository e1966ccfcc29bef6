//! Configuration values, and how their textual forms are read.

use vstd::prelude::*;
use vstd::string::StringExecFns;

verus! {

/// The runtime mode of the server.
#[allow(non_camel_case_types)]
#[derive(Debug, Clone, Copy, PartialEq, Eq, Structural)]
pub enum Environment {
    DEV,
    PROD,
}

impl Environment {
    /// Whether this is the development mode.
    pub fn is_dev(&self) -> (dev: bool)
        ensures
            dev == (*self == Environment::DEV),
    {
        *self == Environment::DEV
    }

    /// Whether this is the production mode.
    pub fn is_prod(&self) -> (prod: bool)
        ensures
            prod == (*self == Environment::PROD),
    {
        *self == Environment::PROD
    }

    /// Whether this is the same mode as `compare_with`.
    pub fn is_equal(&self, compare_with: &Environment) -> (equal: bool)
        ensures
            equal == (*self == *compare_with),
    {
        *self == *compare_with
    }

    /// Whether `env` and `compare_with` are the same mode.
    pub fn compare(env: &Environment, compare_with: &Environment) -> (equal: bool)
        ensures
            equal == (*env == *compare_with),
    {
        *env == *compare_with
    }

    /// The mode that an all-lowercase name stands for: `development` is
    /// development, and everything else is production. Development switches
    /// authentication off, so no text stands for it but its own name: an
    /// empty, misspelt or unknown name gives production.
    pub open spec fn spec_named(lower: Seq<char>) -> Environment {
        if lower == "development"@ {
            Environment::DEV
        } else {
            Environment::PROD
        }
    }

    /// The mode that an all-lowercase name stands for.
    pub fn named(lower: &str) -> (env: Environment)
        ensures
            env == Environment::spec_named(lower@),
    {
        if same_text(lower, "development") {
            Environment::DEV
        } else {
            Environment::PROD
        }
    }

    /// Reads a mode from its name, whatever the case of its letters. Only
    /// the name `development` gives development.
    pub fn parse(name: &str) -> (env: Environment)
        ensures
            env == Environment::spec_named(lowercased(name@)),
            env == Environment::DEV <==> lowercased(name@) == "development"@,
    {
        let lower: String = to_lowercase(name);
        Environment::named(lower.as_str())
    }
}

/// How much the log records.
#[derive(Debug, Clone, Copy, PartialEq, Eq, Structural)]
pub enum LogLevel {
    Off,
    Error,
    Warn,
    Info,
    Debug,
    Trace,
}

impl LogLevel {
    /// The level that an all-lowercase name stands for; a name that is none
    /// of the six stands for `Info`.
    pub open spec fn spec_named(lower: Seq<char>) -> LogLevel {
        if lower == "off"@ {
            LogLevel::Off
        } else if lower == "error"@ {
            LogLevel::Error
        } else if lower == "warn"@ {
            LogLevel::Warn
        } else if lower == "debug"@ {
            LogLevel::Debug
        } else if lower == "trace"@ {
            LogLevel::Trace
        } else {
            LogLevel::Info
        }
    }

    /// The level that an all-lowercase name stands for.
    pub fn named(lower: &str) -> (level: LogLevel)
        ensures
            level == LogLevel::spec_named(lower@),
    {
        if same_text(lower, "off") {
            LogLevel::Off
        } else if same_text(lower, "error") {
            LogLevel::Error
        } else if same_text(lower, "warn") {
            LogLevel::Warn
        } else if same_text(lower, "debug") {
            LogLevel::Debug
        } else if same_text(lower, "trace") {
            LogLevel::Trace
        } else {
            LogLevel::Info
        }
    }

    /// Reads a level from its name, whatever the case of its letters.
    pub fn parse(name: &str) -> (level: LogLevel)
        ensures
            level == LogLevel::spec_named(lowercased(name@)),
    {
        let lower: String = to_lowercase(name);
        LogLevel::named(lower.as_str())
    }
}

/// The lowercase form of a text, as `str::to_lowercase` gives it.
pub uninterp spec fn lowercased(text: Seq<char>) -> Seq<char>;

/// Calls `str::to_lowercase`. Trusted: the result depends on the text alone.
#[verifier::external_body]
fn to_lowercase(text: &str) -> (lower: String)
    ensures
        lower@ == lowercased(text@),
{
    text.to_lowercase()
}

/// Whether two texts are the same, character by character.
pub fn same_text(a: &str, b: &str) -> (same: bool)
    ensures
        same == (a@ == b@),
{
    let len: usize = a.unicode_len();
    if len != b.unicode_len() {
        return false;
    }
    let mut at: usize = 0;
    while at < len
        invariant
            len == a@.len(),
            len == b@.len(),
            at <= len,
            forall|i: int| 0 <= i < at ==> a@[i] == b@[i],
        decreases len - at,
    {
        if a.get_char(at) != b.get_char(at) {
            return false;
        }
        at = at + 1;
    }
    assert(a@ =~= b@);
    true
}

/// Where the log is written, and how much of it.
#[derive(Debug, Clone)]
pub struct LogConfig {
    pub path: String,
    pub level: LogLevel,
}

/// Where the database is, and how to sign in.
#[derive(Debug, Clone)]
pub struct DatabaseConfig {
    pub host: String,
    pub port: u16,
    pub name: String,
    pub username: String,
    pub password: String,
}

/// What a database connection is opened with.
#[derive(Debug, Clone)]
pub struct DBConnector {
    pub db_url: String,
    pub db_name: String,
    pub db_username: String,
    pub db_password: String,
}

/// The character of a decimal digit.
pub open spec fn digit(d: nat) -> char {
    if d == 0 {
        '0'
    } else if d == 1 {
        '1'
    } else if d == 2 {
        '2'
    } else if d == 3 {
        '3'
    } else if d == 4 {
        '4'
    } else if d == 5 {
        '5'
    } else if d == 6 {
        '6'
    } else if d == 7 {
        '7'
    } else if d == 8 {
        '8'
    } else {
        '9'
    }
}

/// A number written in decimal, without leading zeros.
pub open spec fn decimal(n: nat) -> Seq<char>
    decreases n,
{
    if n < 10 {
        seq![digit(n)]
    } else {
        decimal(n / 10).push(digit(n % 10))
    }
}

/// The text of one decimal digit.
fn digit_text(d: u16) -> (text: &'static str)
    requires
        d < 10,
    ensures
        text@ == seq![digit(d as nat)],
{
    proof {
        reveal_strlit("0");
        reveal_strlit("1");
        reveal_strlit("2");
        reveal_strlit("3");
        reveal_strlit("4");
        reveal_strlit("5");
        reveal_strlit("6");
        reveal_strlit("7");
        reveal_strlit("8");
        reveal_strlit("9");
    }
    let text: &'static str = if d == 0 {
        "0"
    } else if d == 1 {
        "1"
    } else if d == 2 {
        "2"
    } else if d == 3 {
        "3"
    } else if d == 4 {
        "4"
    } else if d == 5 {
        "5"
    } else if d == 6 {
        "6"
    } else if d == 7 {
        "7"
    } else if d == 8 {
        "8"
    } else {
        "9"
    };
    assert(text@ =~= seq![digit(d as nat)]);
    text
}

/// Appends `n`, written in decimal, to `out`.
fn append_decimal(out: &mut String, n: u16)
    ensures
        final(out)@ == old(out)@ + decimal(n as nat),
    decreases n,
{
    if n >= 10 {
        append_decimal(out, n / 10);
    }
    out.append(digit_text(n % 10));
    assert(out@ =~= old(out)@ + decimal(n as nat));
}

impl DatabaseConfig {
    /// The address of the database: the host, a colon, and the port in
    /// decimal.
    pub open spec fn spec_url(&self) -> Seq<char> {
        self.host@ + seq![':'] + decimal(self.port as nat)
    }

    /// The address of the database: the host, a colon, and the port.
    pub fn get_url(&self) -> (url: String)
        ensures
            url@ == self.spec_url(),
    {
        let mut url: String = self.host.clone();
        proof {
            reveal_strlit(":");
        }
        url.append(":");
        append_decimal(&mut url, self.port);
        assert(url@ =~= self.spec_url());
        url
    }

    /// What a connection to this database is opened with.
    pub fn connector(self) -> (connector: DBConnector)
        ensures
            connector.db_url@ == self.spec_url(),
            connector.db_name@ == self.name@,
            connector.db_username@ == self.username@,
            connector.db_password@ == self.password@,
    {
        let db_url: String = self.get_url();
        DBConnector {
            db_url,
            db_name: self.name,
            db_username: self.username,
            db_password: self.password,
        }
    }
}

} // verus!
