//! The service's settings, assembled from looked-up values.

use vstd::prelude::*;
use vstd::string::*;
use crate::instant::digit_of;
use crate::instant::digits_value;

verus! {

/// Why a setting could not be looked up.
#[derive(Clone, Copy, Debug, PartialEq, Eq, Structural)]
pub enum VarError {
    /// The setting is absent.
    NotPresent,
    /// The setting is present but is not valid text.
    NotUnicode,
}

/// What went wrong with a setting.
#[derive(Clone, Copy, Debug, PartialEq, Eq, Structural)]
pub enum EnvErrorKind {
    /// The lookup failed.
    Env(VarError),
    /// The value was found but could not be read as its type.
    Parse,
}

/// A failed setting: its name and what went wrong.
#[derive(Debug)]
pub struct EnvError<'a>(pub &'a str, pub EnvErrorKind);

/// The settings of the service.
#[derive(Clone, Debug)]
pub struct EnvConfiguration {
    pub email: String,
    pub password: String,
    pub club: String,
    pub host: String,
    pub port: u16,
}

/// The mathematical content of the settings.
pub struct ConfigurationView {
    pub email: Seq<char>,
    pub password: Seq<char>,
    pub club: Seq<char>,
    pub host: Seq<char>,
    pub port: u16,
}

impl View for EnvConfiguration {
    type V = ConfigurationView;

    open spec fn view(&self) -> ConfigurationView {
        ConfigurationView {
            email: self.email@,
            password: self.password@,
            club: self.club@,
            host: self.host@,
            port: self.port,
        }
    }
}

/// The result of one lookup, as mathematics: the text found, or why not.
pub type Lookup = Result<Seq<char>, VarError>;

/// The view of a lookup.
pub open spec fn lookup_view(found: Result<String, VarError>) -> Lookup {
    match found {
        Ok(s) => Ok(s@),
        Err(e) => Err(e),
    }
}

/// A text setting: the text found, or the lookup's failure under the
/// setting's name.
pub open spec fn text_setting(found: Lookup) -> Result<Seq<char>, EnvErrorKind> {
    match found {
        Ok(s) => Ok(s),
        Err(e) => Err(EnvErrorKind::Env(e)),
    }
}

/// Reads a text setting from the result of its lookup.
pub fn var<'a>(key: &'a str, found: Result<String, VarError>) -> (r: Result<String, EnvError<'a>>)
    ensures
        match (r, text_setting(lookup_view(found))) {
            (Ok(s), Ok(t)) => s@ == t,
            (Err(e), Err(kind)) => e.0@ == key@ && e.1 == kind,
            _ => false,
        },
{
    match found {
        Ok(s) => Ok(s),
        Err(e) => Err(EnvError(key, EnvErrorKind::Env(e))),
    }
}

/// Replaces an absent setting by a default; any other failure, and any
/// value, passes unchanged.
pub fn with_default<'a, T>(var_opt: Result<T, EnvError<'a>>, default: T) -> (r: Result<
    T,
    EnvError<'a>,
>)
    ensures
        r == match var_opt {
            Err(EnvError(_, EnvErrorKind::Env(VarError::NotPresent))) => Ok(default),
            other => other,
        },
{
    match var_opt {
        Err(EnvError(_, EnvErrorKind::Env(VarError::NotPresent))) => Ok(default),
        res => res,
    }
}

/// The port that a text writes: decimal digits, after at most one `+`, of a
/// value that fits 16 bits.
pub open spec fn port_value(s: Seq<char>) -> Option<u16> {
    let digits = if s.len() > 0 && s[0] == '+' {
        s.skip(1)
    } else {
        s
    };
    fitting(digits_value(digits))
}

/// A value as a 16-bit number, where there is one and it fits.
pub open spec fn fitting(value: Option<nat>) -> Option<u16> {
    match value {
        Some(v) => if v <= 65535 {
            Some(v as u16)
        } else {
            None
        },
        None => None,
    }
}

/// A run that holds anything but a digit has no value.
pub proof fn lemma_not_a_digit(s: Seq<char>, k: int)
    requires
        0 <= k < s.len(),
        digit_of(s[k]) is None,
    ensures
        digits_value(s) is None,
    decreases s.len(),
{
    if k < s.len() - 1 {
        lemma_not_a_digit(s.drop_last(), k);
    }
}

/// Where a run of digits has a value, each of its beginnings has one too,
/// and no greater one.
pub proof fn lemma_beginning_value(s: Seq<char>, k: int)
    requires
        1 <= k <= s.len(),
        digits_value(s) is Some,
    ensures
        digits_value(s.subrange(0, k)) is Some,
        digits_value(s.subrange(0, k)).unwrap() <= digits_value(s).unwrap(),
    decreases s.len(),
{
    if k == s.len() {
        assert(s.subrange(0, k) =~= s);
    } else {
        lemma_beginning_value(s.drop_last(), k);
        assert(s.drop_last().subrange(0, k) =~= s.subrange(0, k));
    }
}

fn digit_value(c: char) -> (r: Option<u32>)
    ensures
        match r {
            Some(d) => digit_of(c) == Some(d as int) && d < 10,
            None => digit_of(c) is None,
        },
{
    match c {
        '0' => Some(0),
        '1' => Some(1),
        '2' => Some(2),
        '3' => Some(3),
        '4' => Some(4),
        '5' => Some(5),
        '6' => Some(6),
        '7' => Some(7),
        '8' => Some(8),
        '9' => Some(9),
        _ => None,
    }
}

/// Reads a port number.
pub fn parse_port(text: &str) -> (r: Option<u16>)
    ensures
        r == port_value(text@),
{
    let n = text.unicode_len();
    let mut i: usize = 0;
    if n > 0 && text.get_char(0) == '+' {
        i = 1;
    }
    let start = i;
    let ghost digits = text@.subrange(start as int, n as int);
    proof {
        if start == 1 {
            assert(digits =~= text@.skip(1));
        } else {
            assert(digits =~= text@);
        }
    }
    if i >= n {
        return None;
    }
    let mut acc: u32 = 0;
    while i < n
        invariant
            start <= i <= n,
            n == text@.len(),
            digits == text@.subrange(start as int, n as int),
            port_value(text@) == fitting(digits_value(digits)),
            i == start ==> acc == 0,
            i > start ==> digits_value(digits.subrange(0, i - start)) == Some(acc as nat),
            acc <= 65535,
        decreases n - i,
    {
        let c = text.get_char(i);
        let ghost upto = digits.subrange(0, i - start + 1);
        proof {
            assert(upto.len() == i - start + 1);
            assert(upto.last() == c);
            assert(upto.drop_last() =~= digits.subrange(0, i - start));
        }
        match digit_value(c) {
            None => {
                proof {
                    lemma_not_a_digit(digits, i - start);
                }
                return None;
            },
            Some(d) => {
                let next: u32 = acc * 10 + d;
                assert(digits_value(upto) == Some(next as nat));
                if next > 65535 {
                    proof {
                        if digits_value(digits) is Some {
                            lemma_beginning_value(digits, i - start + 1);
                        }
                    }
                    return None;
                }
                acc = next;
                i = i + 1;
            },
        }
    }
    proof {
        assert(digits.subrange(0, n - start) =~= digits);
    }
    Some(acc as u16)
}

/// A port setting: the port that the text found writes, a parse failure
/// where it writes none, or the lookup's failure.
pub open spec fn port_setting(found: Lookup) -> Result<u16, EnvErrorKind> {
    match found {
        Ok(s) => match port_value(s) {
            Some(p) => Ok(p),
            None => Err(EnvErrorKind::Parse),
        },
        Err(e) => Err(EnvErrorKind::Env(e)),
    }
}

/// Reads a port setting from the result of its lookup.
pub fn var_port<'a>(key: &'a str, found: Result<String, VarError>) -> (r: Result<u16, EnvError<'a>>)
    ensures
        match (r, port_setting(lookup_view(found))) {
            (Ok(p), Ok(q)) => p == q,
            (Err(e), Err(kind)) => e.0@ == key@ && e.1 == kind,
            _ => false,
        },
{
    match found {
        Ok(s) => match parse_port(s.as_str()) {
            Some(p) => Ok(p),
            None => Err(EnvError(key, EnvErrorKind::Parse)),
        },
        Err(e) => Err(EnvError(key, EnvErrorKind::Env(e))),
    }
}

/// An optional setting: an absent one takes the default.
pub open spec fn or_default<T>(setting: Result<T, EnvErrorKind>, default: T) -> Result<
    T,
    EnvErrorKind,
> {
    match setting {
        Err(EnvErrorKind::Env(VarError::NotPresent)) => Ok(default),
        other => other,
    }
}

/// The settings that five lookups give, or the name of the first setting
/// that failed, in the order email, password, club, host, port, with what
/// went wrong. Email, password and club are required; the host is
/// `127.0.0.1` and the port 8080 where they are absent.
pub open spec fn conf_of(
    email: Lookup,
    password: Lookup,
    club: Lookup,
    host: Lookup,
    port: Lookup,
) -> Result<ConfigurationView, (Seq<char>, EnvErrorKind)> {
    match text_setting(email) {
        Err(kind) => Err(("DIWI_EMAIL"@, kind)),
        Ok(email) => match text_setting(password) {
            Err(kind) => Err(("DIWI_PASSWORD"@, kind)),
            Ok(password) => match text_setting(club) {
                Err(kind) => Err(("DIWI_CLUB"@, kind)),
                Ok(club) => match or_default(text_setting(host), "127.0.0.1"@) {
                    Err(kind) => Err(("DIWI_HOST"@, kind)),
                    Ok(host) => match or_default(port_setting(port), 8080u16) {
                        Err(kind) => Err(("DIWI_PORT"@, kind)),
                        Ok(port) => Ok(ConfigurationView { email, password, club, host, port }),
                    },
                },
            },
        },
    }
}

/// Assembles the settings from the lookups of `DIWI_EMAIL`, `DIWI_PASSWORD`,
/// `DIWI_CLUB`, `DIWI_HOST` and `DIWI_PORT`.
pub fn get_conf(
    email: Result<String, VarError>,
    password: Result<String, VarError>,
    club: Result<String, VarError>,
    host: Result<String, VarError>,
    port: Result<String, VarError>,
) -> (r: Result<EnvConfiguration, EnvError<'static>>)
    ensures
        match (
            r,
            conf_of(
                lookup_view(email),
                lookup_view(password),
                lookup_view(club),
                lookup_view(host),
                lookup_view(port),
            ),
        ) {
            (Ok(conf), Ok(v)) => conf@ == v,
            (Err(e), Err((key, kind))) => e.0@ == key && e.1 == kind,
            _ => false,
        },
{
    let email = match var("DIWI_EMAIL", email) {
        Ok(v) => v,
        Err(e) => {
            return Err(e);
        },
    };
    let password = match var("DIWI_PASSWORD", password) {
        Ok(v) => v,
        Err(e) => {
            return Err(e);
        },
    };
    let club = match var("DIWI_CLUB", club) {
        Ok(v) => v,
        Err(e) => {
            return Err(e);
        },
    };
    let host = match with_default(var("DIWI_HOST", host), String::from_str("127.0.0.1")) {
        Ok(v) => v,
        Err(e) => {
            return Err(e);
        },
    };
    let port = match with_default(var_port("DIWI_PORT", port), 8080u16) {
        Ok(v) => v,
        Err(e) => {
            return Err(e);
        },
    };
    Ok(EnvConfiguration { email, password, club, host, port })
}

/// Without its email, its password or its club, the service has no
/// settings: whatever the other lookups found, assembling them fails.
pub proof fn lemma_required_settings(
    email: Lookup,
    password: Lookup,
    club: Lookup,
    host: Lookup,
    port: Lookup,
)
    requires
        email is Err || password is Err || club is Err,
    ensures
        conf_of(email, password, club, host, port) is Err,
{
}

} // verus!
