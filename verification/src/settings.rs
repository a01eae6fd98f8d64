//! The configuration of the webhook server, made once at startup from
//! values of the environment and never changed afterwards.

use vstd::prelude::*;
use vstd::string::{StrSliceExecFns, StringSliceAdditionalSpecFns};
use vstd::utf8::{encode_utf8, is_ascii_chars_encode_utf8};
use crate::text::text_view;

verus! {

/// What every request is checked against.
///
/// The secret is an opaque run of bytes. The type has no `Debug`, so that the
/// secret does not find its way into a log.
#[derive(Clone)]
pub struct WebhookConfig {
    pub secret: Vec<u8>,
    pub deploy_script_path: String,
}

/// The mathematical content of a [`WebhookConfig`].
pub struct WebhookConfigView {
    pub secret: Seq<u8>,
    pub deploy_script_path: Seq<char>,
}

impl View for WebhookConfig {
    type V = WebhookConfigView;

    open spec fn view(&self) -> WebhookConfigView {
        WebhookConfigView { secret: self.secret@, deploy_script_path: self.deploy_script_path@ }
    }
}

/// What the server starts with: the configuration and the port to listen on.
#[derive(Clone)]
pub struct Startup {
    pub config: WebhookConfig,
    pub port: u16,
}

/// Why the server cannot start.
#[derive(Clone, Copy, Debug, PartialEq, Eq, Structural)]
pub enum StartupError {
    /// `WEBHOOK_SECRET` is not set.
    MissingSecret,
    /// `WEBHOOK_PORT` is set to something that is no port number.
    InvalidPort,
}

/// The script that deploys, where `DEPLOY_SCRIPT_PATH` names no other.
pub open spec fn default_script_path() -> Seq<char> {
    "/app/scripts/deploy.sh"@
}

/// The port to listen on, where `WEBHOOK_PORT` names no other.
pub open spec fn default_port() -> u16 {
    9000
}

/// Whether `c` is one of the ten decimal digits of ASCII.
pub open spec fn is_digit(c: char) -> bool {
    '0' <= c <= '9'
}

/// The number that a run of decimal digits writes.
pub open spec fn digits_value(digits: Seq<char>) -> nat
    decreases digits.len(),
{
    if digits.len() == 0 {
        0
    } else {
        digits_value(digits.drop_last()) * 10 + (digits.last() as nat - '0' as nat) as nat
    }
}

/// `text` without the plus sign that may stand in front of a number.
pub open spec fn unsigned_part(text: Seq<char>) -> Seq<char> {
    if text.len() > 0 && text[0] == '+' {
        text.drop_first()
    } else {
        text
    }
}

/// The port that `text` writes: decimal digits, at least one, after an
/// optional plus sign and nothing else, whose value fits in sixteen bits.
/// Leading zeros do not count against it.
pub open spec fn port_spec(text: Seq<char>) -> Option<u16> {
    let digits = unsigned_part(text);
    if digits.len() > 0 && (forall|i: int| 0 <= i < digits.len() ==> is_digit(#[trigger] digits[i]))
        && digits_value(digits) <= u16::MAX {
        Some(digits_value(digits) as u16)
    } else {
        None
    }
}

proof fn lemma_digits_value_grows(digits: Seq<char>, k: int)
    requires
        0 <= k <= digits.len(),
    ensures
        digits_value(digits.subrange(0, k)) <= digits_value(digits),
    decreases digits.len() - k,
{
    if k < digits.len() {
        let longer = digits.subrange(0, k + 1);
        assert(longer.drop_last() =~= digits.subrange(0, k));
        lemma_digits_value_grows(digits, k + 1);
    } else {
        assert(digits.subrange(0, k) =~= digits);
    }
}

/// Reads a port number as `u16` is read from text: an optional plus sign,
/// then decimal digits only. Blank space, a minus sign, an empty text or a
/// value above 65535 give `None`.
pub fn parse_port(text: &str) -> (port: Option<u16>)
    ensures
        port == port_spec(text@),
{
    let ghost digits = unsigned_part(text@);
    if !text.is_ascii() {
        proof {
            let i = choose|i: int| 0 <= i < text@.len() && !('\0' <= #[trigger] text@[i] <= '\u{7f}');
            if i > 0 && text@[0] == '+' {
                assert(digits[i - 1] == text@[i]);
            } else {
                assert(digits[i] == text@[i]);
            }
        }
        return None;
    }
    let bytes = text.as_bytes();
    proof {
        is_ascii_chars_encode_utf8(text@);
    }
    let n = bytes.len();
    let start: usize = if n > 0 && bytes[0] == 43 {
        assert(text@[0] as u8 == 43u8);
        assert(text@[0] == '+');
        1
    } else {
        0
    };
    assert(digits =~= text@.skip(start as int));
    if start == n {
        return None;
    }
    let mut value: u32 = 0;
    let mut i: usize = start;
    assert(digits.subrange(0, 0) =~= Seq::<char>::empty());
    while i < n
        invariant
            start <= i <= n,
            n == bytes@.len(),
            n == text@.len(),
            digits == text@.skip(start as int),
            digits == unsigned_part(text@),
            forall|j: int| 0 <= j < n ==> text@[j] as u8 == #[trigger] bytes@[j],
            forall|j: int| 0 <= j < n ==> '\0' <= #[trigger] text@[j] <= '\u{7f}',
            forall|j: int| 0 <= j < i - start ==> is_digit(#[trigger] digits[j]),
            value == digits_value(digits.subrange(0, i - start)),
            value <= u16::MAX,
        decreases n - i,
    {
        let byte = bytes[i];
        let ghost c = text@[i as int];
        assert(digits[i - start] == c);
        assert(c as u8 == byte);
        if byte < 48 || byte > 57 {
            assert(!is_digit(c));
            return None;
        }
        assert(is_digit(c));
        let ghost longer = digits.subrange(0, i - start + 1);
        assert(longer.drop_last() =~= digits.subrange(0, i - start));
        assert(longer.last() == c);
        value = value * 10 + (byte - 48) as u32;
        assert(value == digits_value(longer));
        if value > 65535 {
            proof {
                lemma_digits_value_grows(digits, i - start + 1);
            }
            return None;
        }
        i += 1;
    }
    assert(digits.subrange(0, n - start) =~= digits);
    Some(value as u16)
}

/// What the server starts with, given what the environment holds under
/// `WEBHOOK_SECRET`, `DEPLOY_SCRIPT_PATH` and `WEBHOOK_PORT`. The secret must
/// be there and is taken as the bytes of its text. The other two have
/// defaults, which apply only where the value is absent, not where it is
/// empty.
pub open spec fn startup_spec(
    secret: Option<Seq<char>>,
    script_path: Option<Seq<char>>,
    port: Option<Seq<char>>,
) -> Result<(WebhookConfigView, u16), StartupError> {
    if secret is None {
        Err(StartupError::MissingSecret)
    } else if port is Some && port_spec(port->0) is None {
        Err(StartupError::InvalidPort)
    } else {
        Ok(
            (
                WebhookConfigView {
                    secret: encode_utf8(secret->0),
                    deploy_script_path: match script_path {
                        Some(path) => path,
                        None => default_script_path(),
                    },
                },
                match port {
                    Some(port) => port_spec(port)->0,
                    None => default_port(),
                },
            ),
        )
    }
}

/// Makes the server's configuration from the values of the environment.
///
/// There is no server without a secret, and none on a port that is not a
/// number of sixteen bits; a missing secret is reported before a bad port.
pub fn startup(secret: Option<String>, script_path: Option<String>, port: Option<String>) -> (result:
    Result<Startup, StartupError>)
    ensures
        match result {
            Ok(startup) => startup_spec(text_view(secret), text_view(script_path), text_view(port))
                == Ok::<(WebhookConfigView, u16), StartupError>((startup.config@, startup.port)),
            Err(error) => startup_spec(text_view(secret), text_view(script_path), text_view(port))
                == Err::<(WebhookConfigView, u16), StartupError>(error),
        },
{
    let secret = match secret {
        Some(secret) => secret.as_str().as_bytes_vec(),
        None => return Err(StartupError::MissingSecret),
    };
    let port = match port {
        Some(port) => match parse_port(port.as_str()) {
            Some(port) => port,
            None => return Err(StartupError::InvalidPort),
        },
        None => 9000,
    };
    let deploy_script_path = match script_path {
        Some(path) => path,
        None => "/app/scripts/deploy.sh".to_owned(),
    };
    Ok(Startup { config: WebhookConfig { secret, deploy_script_path }, port })
}

} // verus!
