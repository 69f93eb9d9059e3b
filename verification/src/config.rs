//! The three settings of the service and how they are read from text.

use vstd::prelude::*;
use vstd::string::*;
use crate::error::{AppError, AppResult};

verus! {

/// Port of the main listener when `PORT` is not set.
pub const DEFAULT_MAIN_PORT: u16 = 8080;

/// Port of the application listener when `PORT_APP` is not set.
pub const DEFAULT_APP_PORT: u16 = 4242;

/// The settings of the service: one port per listener and the address
/// both bind to.
#[derive(Debug, Clone)]
pub struct Config {
    /// Port of the main listener.
    pub main_port: u16,
    /// Port of the application listener.
    pub app_port: u16,
    /// Address both listeners bind to.
    pub bind_address: String,
}

/// A configuration as plain mathematical values.
pub ghost struct ConfigView {
    pub main_port: u16,
    pub app_port: u16,
    pub bind_address: Seq<char>,
}

/// Why loading failed: the variable at fault and the text it held.
pub ghost struct LoadFailure {
    pub var_name: Seq<char>,
    pub text: Seq<char>,
}

impl View for Config {
    type V = ConfigView;

    open spec fn view(&self) -> ConfigView {
        ConfigView {
            main_port: self.main_port,
            app_port: self.app_port,
            bind_address: self.bind_address@,
        }
    }
}

/// Whether `c` is one of the ten decimal digits.
pub open spec fn is_digit(c: char) -> bool {
    '0' <= c <= '9'
}

/// The number a decimal digit stands for.
pub open spec fn digit_value(c: char) -> nat {
    (c as nat - '0' as nat) as nat
}

/// Whether every character of `s` is a decimal digit.
pub open spec fn all_digits(s: Seq<char>) -> bool {
    forall|i: int| 0 <= i < s.len() ==> is_digit(#[trigger] s[i])
}

/// The number written by a string of decimal digits, most significant
/// digit first; the empty string writes zero.
pub open spec fn decimal_value(digits: Seq<char>) -> nat
    decreases digits.len(),
{
    if digits.len() == 0 {
        0
    } else {
        decimal_value(digits.drop_last()) * 10 + digit_value(digits.last())
    }
}

/// The text without the one plus sign that may lead it.
pub open spec fn unsigned_part(s: Seq<char>) -> Seq<char> {
    if s.len() > 0 && s[0] == '+' {
        s.subrange(1, s.len() as int)
    } else {
        s
    }
}

/// Whether `s` writes a number: an optional plus sign, then at least
/// one decimal digit and nothing else.
pub open spec fn is_numeric(s: Seq<char>) -> bool {
    unsigned_part(s).len() > 0 && all_digits(unsigned_part(s))
}

/// The port a text denotes: the number it writes, where it writes one
/// of at most 65535.
pub open spec fn port_of_text(s: Seq<char>) -> Option<u16> {
    if is_numeric(s) && decimal_value(unsigned_part(s)) <= u16::MAX {
        Some(decimal_value(unsigned_part(s)) as u16)
    } else {
        None
    }
}

/// Whether `s` holds a character that is neither a digit nor a plus sign.
pub open spec fn has_foreign_char(s: Seq<char>) -> bool {
    exists|i: int| 0 <= i < s.len() && !is_digit(#[trigger] s[i]) && s[i] != '+'
}

/// The port a setting resolves to: the default when it is absent, else
/// what its text denotes.
pub open spec fn resolved_port(value: Option<Seq<char>>, default: u16) -> Option<u16> {
    match value {
        None => Some(default),
        Some(text) => port_of_text(text),
    }
}

/// The address a setting resolves to: `0.0.0.0` when it is absent, else
/// its text as it stands.
pub open spec fn resolved_address(value: Option<Seq<char>>) -> Seq<char> {
    match value {
        None => "0.0.0.0"@,
        Some(text) => text,
    }
}

/// What loading yields for the values of `PORT`, `PORT_APP` and
/// `BIND_ADDRESS`: `PORT` is judged first, then `PORT_APP`.
pub open spec fn load(
    port: Option<Seq<char>>,
    port_app: Option<Seq<char>>,
    bind_address: Option<Seq<char>>,
) -> Result<ConfigView, LoadFailure> {
    if resolved_port(port, DEFAULT_MAIN_PORT) is None {
        Err(LoadFailure { var_name: "PORT"@, text: port.unwrap() })
    } else if resolved_port(port_app, DEFAULT_APP_PORT) is None {
        Err(LoadFailure { var_name: "PORT_APP"@, text: port_app.unwrap() })
    } else {
        Ok(
            ConfigView {
                main_port: resolved_port(port, DEFAULT_MAIN_PORT).unwrap(),
                app_port: resolved_port(port_app, DEFAULT_APP_PORT).unwrap(),
                bind_address: resolved_address(bind_address),
            },
        )
    }
}

/// The message of the error for a port setting that holds `text`.
pub open spec fn port_complaint(text: Seq<char>) -> Seq<char> {
    "must be a valid port number (1-65535), got: "@ + text
}

/// Whether `e` is the error that reports `failure`.
pub open spec fn reports(e: AppError, failure: LoadFailure) -> bool {
    e matches AppError::Environment { var_name, message } && var_name@ == failure.var_name
        && message@ == port_complaint(failure.text)
}

/// The text of an optional setting.
pub open spec fn text_of(value: Option<&str>) -> Option<Seq<char>> {
    match value {
        None => None,
        Some(text) => Some(text@),
    }
}

/// A string of digits is worth at least as much as any of its prefixes.
proof fn lemma_prefix_value_grows(digits: Seq<char>, k: int)
    requires
        0 <= k <= digits.len(),
    ensures
        decimal_value(digits.take(k)) <= decimal_value(digits),
    decreases digits.len() - k,
{
    if k == digits.len() {
        assert(digits.take(k) =~= digits);
    } else {
        lemma_prefix_value_grows(digits, k + 1);
        assert(digits.take(k + 1).drop_last() =~= digits.take(k));
    }
}

/// Reads a port from its text, as `port_of_text` defines it.
pub fn parse_port(text: &str) -> (port: Option<u16>)
    ensures
        port == port_of_text(text@),
{
    if !text.is_ascii() {
        proof {
            let j = choose|j: int| 0 <= j < text@.len() && !('\0' <= #[trigger] text@[j] <= '\u{7f}');
            if text@[0] == '+' {
                assert(unsigned_part(text@)[j - 1] == text@[j]);
            }
        }
        return None;
    }
    let bytes = text.as_bytes();
    let n: usize = bytes.len();
    proof {
        is_ascii_spec_bytes(text);
    }
    let start: usize = if n > 0 && bytes[0] == 43u8 {
        1
    } else {
        0
    };
    let ghost digits = unsigned_part(text@);
    assert(digits =~= text@.subrange(start as int, n as int));
    if start == n {
        return None;
    }
    let mut acc: u32 = 0;
    let mut i: usize = start;
    while i < n
        invariant
            start <= i <= n,
            n == text@.len(),
            n == bytes@.len(),
            is_ascii(text),
            forall|k: int| 0 <= k < n ==> bytes@[k] == text@[k] as u8,
            digits == text@.subrange(start as int, n as int),
            digits == unsigned_part(text@),
            digits.len() > 0,
            all_digits(digits.take(i - start)),
            acc == decimal_value(digits.take(i - start)),
            acc <= u16::MAX,
        decreases n - i,
    {
        let b: u8 = bytes[i];
        let ghost c = text@[i as int];
        assert(c == digits[i - start]);
        assert('\0' <= c <= '\u{7f}');
        if b < 48u8 || b > 57u8 {
            assert(!is_digit(c));
            return None;
        }
        assert(is_digit(c));
        let digit: u32 = (b - 48u8) as u32;
        assert(digit == digit_value(c));
        let next: u32 = acc * 10 + digit;
        proof {
            let longer = digits.take(i - start + 1);
            assert(longer.drop_last() =~= digits.take(i - start));
            assert(longer.last() == c);
            assert(next == decimal_value(longer));
            assert forall|k: int| 0 <= k < longer.len() implies is_digit(#[trigger] longer[k]) by {
                if k < i - start {
                    assert(longer[k] == digits.take(i - start)[k]);
                }
            }
        }
        if next > 65535u32 {
            proof {
                lemma_prefix_value_grows(digits, i - start + 1);
            }
            return None;
        }
        acc = next;
        i = i + 1;
    }
    assert(digits.take(n - start) =~= digits);
    Some(acc as u16)
}

impl Config {
    /// Resolves one port setting. An absent setting gives `default`; a
    /// present one gives the port its text denotes, or else the
    /// environment error that names `env_var` and quotes the text.
    pub fn parse_port_env(env_var: &str, value: Option<&str>, default: u16) -> (r: AppResult<u16>)
        ensures
            match resolved_port(text_of(value), default) {
                Some(port) => r matches Ok(p) && p == port,
                None => r matches Err(e) && reports(
                    e,
                    LoadFailure { var_name: env_var@, text: value.unwrap()@ },
                ),
            },
    {
        match value {
            None => Ok(default),
            Some(text) => match parse_port(text) {
                Some(port) => Ok(port),
                None => {
                    let message = String::from_str(
                        "must be a valid port number (1-65535), got: ",
                    ).concat(text);
                    Err(AppError::environment(env_var, message.as_str()))
                },
            },
        }
    }

    /// Builds the configuration from the values of the variables `PORT`,
    /// `PORT_APP` and `BIND_ADDRESS`, each `None` where the variable is
    /// not set. Nothing is kept between calls.
    pub fn from_env(port: Option<&str>, port_app: Option<&str>, bind_address: Option<&str>) -> (r:
        AppResult<Config>)
        ensures
            match load(text_of(port), text_of(port_app), text_of(bind_address)) {
                Ok(view) => r matches Ok(config) && config@ == view,
                Err(failure) => r matches Err(e) && reports(e, failure),
            },
    {
        let main_port: u16 = match Config::parse_port_env("PORT", port, DEFAULT_MAIN_PORT) {
            Ok(p) => p,
            Err(e) => { return Err(e); },
        };
        let app_port: u16 = match Config::parse_port_env("PORT_APP", port_app, DEFAULT_APP_PORT) {
            Ok(p) => p,
            Err(e) => { return Err(e); },
        };
        let bind_address = match bind_address {
            Some(text) => String::from_str(text),
            None => String::from_str("0.0.0.0"),
        };
        Ok(Config { main_port, app_port, bind_address })
    }
}

/// A text that denotes a port sets the main port to it, whatever the
/// address is, as long as the other port is readable; and likewise for
/// the application port.
pub proof fn lemma_valid_ports_are_loaded(
    port: Seq<char>,
    port_app: Seq<char>,
    bind_address: Option<Seq<char>>,
)
    requires
        port_of_text(port) is Some,
        port_of_text(port_app) is Some,
    ensures
        load(Some(port), Some(port_app), bind_address) matches Ok(view) && view.main_port
            == port_of_text(port).unwrap() && view.app_port == port_of_text(port_app).unwrap(),
        load(Some(port), None, bind_address) matches Ok(view) && view.main_port == port_of_text(
            port,
        ).unwrap(),
        load(None, Some(port_app), bind_address) matches Ok(view) && view.app_port
            == port_of_text(port_app).unwrap(),
{
}

/// Digits alone, worth at most 65535, denote exactly their decimal value.
pub proof fn lemma_digits_denote_their_value(digits: Seq<char>)
    requires
        digits.len() > 0,
        all_digits(digits),
        decimal_value(digits) <= u16::MAX,
    ensures
        port_of_text(digits) == Some(decimal_value(digits) as u16),
{
    assert(is_digit(digits[0]));
}

/// The character that writes a digit below ten.
pub open spec fn digit_char(d: nat) -> char {
    ((d + 48) as u8) as char
}

/// A number as it is usually written: in decimal, without a sign and
/// without leading zeros.
pub open spec fn decimal_text(n: nat) -> Seq<char>
    decreases n,
{
    if n < 10 {
        seq![digit_char(n)]
    } else {
        decimal_text(n / 10).push(digit_char(n % 10))
    }
}

/// The usual writing of a number is made of digits and is worth the
/// number.
pub proof fn lemma_decimal_text_is_worth_its_number(n: nat)
    ensures
        decimal_text(n).len() > 0,
        all_digits(decimal_text(n)),
        decimal_value(decimal_text(n)) == n,
    decreases n,
{
    let text = decimal_text(n);
    if n < 10 {
        assert(text.drop_last() =~= Seq::<char>::empty());
        assert(decimal_value(text.drop_last()) == 0);
        assert(digit_value(text.last()) == n);
    } else {
        lemma_decimal_text_is_worth_its_number(n / 10);
        let front = decimal_text(n / 10);
        assert(text.drop_last() =~= front);
        assert(digit_value(text.last()) == n % 10);
        assert forall|i: int| 0 <= i < text.len() implies is_digit(#[trigger] text[i]) by {
            if i < front.len() {
                assert(text[i] == front[i]);
            }
        }
    }
}

/// Every port, written as usual, denotes itself: so setting a variable
/// to a port's usual writing loads that very port.
pub proof fn lemma_written_port_is_read_back(port: u16)
    ensures
        port_of_text(decimal_text(port as nat)) == Some(port),
        resolved_port(Some(decimal_text(port as nat)), DEFAULT_MAIN_PORT) == Some(port),
{
    lemma_decimal_text_is_worth_its_number(port as nat);
    let text = decimal_text(port as nat);
    assert(is_digit(text[0]));
}

/// A text with a character that is neither a digit nor a plus sign
/// writes no number.
pub proof fn lemma_foreign_char_is_not_numeric(text: Seq<char>)
    requires
        has_foreign_char(text),
    ensures
        !is_numeric(text),
{
    let j = choose|j: int| 0 <= j < text.len() && !is_digit(#[trigger] text[j]) && text[j] != '+';
    if text[0] == '+' {
        assert(unsigned_part(text)[j - 1] == text[j]);
    } else {
        assert(unsigned_part(text)[j] == text[j]);
    }
}

/// A `PORT` that is not numeric makes loading fail with the failure that
/// names `PORT`, whatever the other two settings hold.
pub proof fn lemma_non_numeric_port_fails(
    port: Seq<char>,
    port_app: Option<Seq<char>>,
    bind_address: Option<Seq<char>>,
)
    requires
        !is_numeric(port),
    ensures
        load(Some(port), port_app, bind_address) == Err::<ConfigView, LoadFailure>(
            LoadFailure { var_name: "PORT"@, text: port },
        ),
{
}

/// With none of the three settings present, loading yields the defaults.
pub proof fn lemma_defaults()
    ensures
        load(None, None, None) == Ok::<ConfigView, LoadFailure>(
            ConfigView { main_port: 8080, app_port: 4242, bind_address: "0.0.0.0"@ },
        ),
{
}

} // verus!
