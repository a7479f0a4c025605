//! Configuration resolved from environment variables.

use vstd::prelude::*;
use crate::error::{CoreError, CoreErrorView, result_view};
use crate::text::{chars_of, concat2, debug_quoted, debug_text, opt_view, owned};

verus! {

/// Runtime configuration for choragos.
#[derive(Debug, Clone, PartialEq, Eq)]
pub struct Config {
    /// Absolute path to the `ai-coding` monorepo checkout.
    pub ai_coding_monorepo: String,
    /// Default pipeline profile name (e.g. `"default"`).
    pub default_profile: String,
    /// Maximum number of plan-cycle attempts before giving up.
    pub max_attempts: u32,
    /// Telegram bot token for run notifications, if configured.
    pub telegram_bot_token: Option<String>,
    /// Telegram chat ID for run notifications, if configured.
    pub telegram_chat_id: Option<String>,
    /// Absolute path to the cerebrum MCP server binary.
    pub cerebrum_bin: String,
}

/// The mathematical value of a [`Config`].
pub struct ConfigView {
    pub ai_coding_monorepo: Seq<char>,
    pub default_profile: Seq<char>,
    pub max_attempts: u32,
    pub telegram_bot_token: Option<Seq<char>>,
    pub telegram_chat_id: Option<Seq<char>>,
    pub cerebrum_bin: Seq<char>,
}

impl View for Config {
    type V = ConfigView;

    open spec fn view(&self) -> ConfigView {
        ConfigView {
            ai_coding_monorepo: self.ai_coding_monorepo@,
            default_profile: self.default_profile@,
            max_attempts: self.max_attempts,
            telegram_bot_token: opt_view(self.telegram_bot_token),
            telegram_chat_id: opt_view(self.telegram_chat_id),
            cerebrum_bin: self.cerebrum_bin@,
        }
    }
}

/// The number of plan-cycle attempts when `CHORAGOS_MAX_ATTEMPTS` is not set.
pub const DEFAULT_MAX_ATTEMPTS: u32 = 3;

/// Whether every character of `s` is an ASCII decimal digit.
pub open spec fn all_digits(s: Seq<char>) -> bool {
    forall|i: int| 0 <= i < s.len() ==> '0' <= #[trigger] s[i] <= '9'
}

/// The value of a string of decimal digits, most significant first.
pub open spec fn digits_value(s: Seq<char>) -> int
    decreases s.len(),
{
    if s.len() == 0 {
        0
    } else {
        digits_value(s.drop_last()) * 10 + (s.last() as int - '0' as int)
    }
}

/// The number that `str::parse::<u32>` reads from `s`: an optional `'+'`
/// followed by at least one ASCII digit and nothing else, whose value fits
/// in a `u32`.
pub open spec fn parse_u32_text(s: Seq<char>) -> Option<u32> {
    let body = if s.len() > 0 && s[0] == '+' {
        s.drop_first()
    } else {
        s
    };
    if body.len() > 0 && all_digits(body) && digits_value(body) <= u32::MAX {
        Some(digits_value(body) as u32)
    } else {
        None
    }
}

proof fn lemma_digits_value_nonneg(s: Seq<char>)
    requires
        all_digits(s),
    ensures
        digits_value(s) >= 0,
    decreases s.len(),
{
    if s.len() > 0 {
        assert(all_digits(s.drop_last()));
        lemma_digits_value_nonneg(s.drop_last());
    }
}

/// Reads a `u32` as `str::parse::<u32>` does.
pub fn parse_u32(s: &str) -> (r: Option<u32>)
    ensures
        r == parse_u32_text(s@),
{
    let chars = chars_of(s);
    let ghost text = chars@;
    let start: usize = if chars.len() > 0 && chars[0] == '+' {
        1
    } else {
        0
    };
    let ghost body = if text.len() > 0 && text[0] == '+' {
        text.drop_first()
    } else {
        text
    };
    assert(body == text.subrange(start as int, text.len() as int));
    if start == chars.len() {
        return None;
    }
    let mut value: u64 = 0;
    let mut overflow = false;
    let mut i = start;
    while i < chars.len()
        invariant
            text == chars@,
            text == s@,
            body == (if text.len() > 0 && text[0] == '+' {
                text.drop_first()
            } else {
                text
            }),
            start <= i <= chars.len(),
            body == text.subrange(start as int, text.len() as int),
            all_digits(text.subrange(start as int, i as int)),
            overflow ==> digits_value(text.subrange(start as int, i as int)) > u32::MAX,
            !overflow ==> value == digits_value(text.subrange(start as int, i as int)),
            !overflow ==> value <= u32::MAX,
        decreases chars.len() - i,
    {
        let c = chars[i];
        let ghost prefix = text.subrange(start as int, i as int);
        let ghost next = text.subrange(start as int, i + 1);
        assert(next.drop_last() == prefix);
        if c < '0' || c > '9' {
            assert(!all_digits(body)) by {
                assert(body[i - start] == c);
            }
            return None;
        }
        assert(all_digits(next));
        proof {
            lemma_digits_value_nonneg(prefix);
        }
        let d = (c as u32 - '0' as u32) as u64;
        if !overflow {
            value = value * 10 + d;
            if value > 4294967295u64 {
                overflow = true;
            }
        } else {
            let ghost v = digits_value(prefix);
            assert(v * 10 + (c as int - '0' as int) > u32::MAX) by (nonlinear_arith)
                requires
                    v > u32::MAX,
                    (c as int - '0' as int) >= 0,
            ;
        }
        i += 1;
    }
    assert(text.subrange(start as int, chars.len() as int) == body);
    if overflow {
        None
    } else {
        Some(value as u32)
    }
}

/// The configuration that the values of the six variables give, or the
/// error that resolving them meets first (the required ones are checked in
/// the order `AI_CODING_MONOREPO`, `CHORAGOS_DEFAULT_PROFILE`,
/// `CEREBRUM_BIN`).
pub open spec fn config_from(
    ai_coding_monorepo: Option<Seq<char>>,
    default_profile: Option<Seq<char>>,
    max_attempts: Option<Seq<char>>,
    telegram_bot_token: Option<Seq<char>>,
    telegram_chat_id: Option<Seq<char>>,
    cerebrum_bin: Option<Seq<char>>,
) -> Result<ConfigView, CoreErrorView> {
    match ai_coding_monorepo {
        None => Err(CoreErrorView::MissingEnv("AI_CODING_MONOREPO"@)),
        Some(ai) => match default_profile {
            None => Err(CoreErrorView::MissingEnv("CHORAGOS_DEFAULT_PROFILE"@)),
            Some(profile) => match cerebrum_bin {
            None => Err(CoreErrorView::MissingEnv("CEREBRUM_BIN"@)),
            Some(bin) => {
                let attempts: Result<u32, CoreErrorView> = match max_attempts {
                    None => Ok(DEFAULT_MAX_ATTEMPTS),
                    Some(raw) => match parse_u32_text(raw) {
                        Some(n) => Ok(n),
                        None => Err(
                            CoreErrorView::Message(
                                "CHORAGOS_MAX_ATTEMPTS is not a valid u32: "@ + debug_quoted(raw),
                            ),
                        ),
                    },
                };
                match attempts {
                    Err(e) => Err(e),
                    Ok(n) => Ok(
                        ConfigView {
                            ai_coding_monorepo: ai,
                            default_profile: profile,
                            max_attempts: n,
                            telegram_bot_token,
                            telegram_chat_id,
                            cerebrum_bin: bin,
                        },
                    ),
                }
            },
            },
        },
    }
}

/// Resolves a [`Config`] from the values of its variables: `AI_CODING_MONOREPO`,
/// `CHORAGOS_DEFAULT_PROFILE`, `CHORAGOS_MAX_ATTEMPTS`, `TELEGRAM_BOT_TOKEN`,
/// `TELEGRAM_CHAT_ID` and `CEREBRUM_BIN`, each `None` when absent.
///
/// Returns [`CoreError::MissingEnv`] when a required variable is absent, or
/// [`CoreError::Message`] when `CHORAGOS_MAX_ATTEMPTS` is present but cannot
/// be parsed as a `u32` (the default is 3).
pub fn from_values(
    ai_coding_monorepo: Option<String>,
    default_profile: Option<String>,
    max_attempts: Option<String>,
    telegram_bot_token: Option<String>,
    telegram_chat_id: Option<String>,
    cerebrum_bin: Option<String>,
) -> (r: Result<Config, CoreError>)
    ensures
        result_view(r) == config_from(
            opt_view(ai_coding_monorepo),
            opt_view(default_profile),
            opt_view(max_attempts),
            opt_view(telegram_bot_token),
            opt_view(telegram_chat_id),
            opt_view(cerebrum_bin),
        ),
{
    let ai = match ai_coding_monorepo {
        Some(v) => v,
        None => {
            return Err(CoreError::MissingEnv(owned("AI_CODING_MONOREPO")));
        },
    };
    let profile = match default_profile {
        Some(v) => v,
        None => {
            return Err(CoreError::MissingEnv(owned("CHORAGOS_DEFAULT_PROFILE")));
        },
    };
    let bin = match cerebrum_bin {
        Some(v) => v,
        None => {
            return Err(CoreError::MissingEnv(owned("CEREBRUM_BIN")));
        },
    };
    let attempts = match max_attempts {
        None => DEFAULT_MAX_ATTEMPTS,
        Some(raw) => match parse_u32(raw.as_str()) {
            Some(n) => n,
            None => {
                let quoted = debug_text(raw.as_str());
                return Err(
                    CoreError::Message(
                        concat2("CHORAGOS_MAX_ATTEMPTS is not a valid u32: ", quoted.as_str()),
                    ),
                );
            },
        },
    };
    Ok(
        Config {
            ai_coding_monorepo: ai,
            default_profile: profile,
            max_attempts: attempts,
            telegram_bot_token,
            telegram_chat_id,
            cerebrum_bin: bin,
        },
    )
}

/// Resolves [`Config`] from an arbitrary key→value getter, asking it for
/// each of the six variables once. What the getter answers decides the
/// result exactly as [`from_values`] says.
pub fn from_getter<F: Fn(&str) -> Option<String>>(get: F) -> (r: Result<Config, CoreError>)
    requires
        forall|k: &str| get.requires((k,)),
    ensures
        exists|
            a: Option<String>,
            p: Option<String>,
            m: Option<String>,
            t: Option<String>,
            c: Option<String>,
            b: Option<String>,
        |
            {
                &&& get.ensures(("AI_CODING_MONOREPO",), a)
                &&& get.ensures(("CHORAGOS_DEFAULT_PROFILE",), p)
                &&& get.ensures(("CHORAGOS_MAX_ATTEMPTS",), m)
                &&& get.ensures(("TELEGRAM_BOT_TOKEN",), t)
                &&& get.ensures(("TELEGRAM_CHAT_ID",), c)
                &&& get.ensures(("CEREBRUM_BIN",), b)
                &&& result_view(r) == config_from(
                    opt_view(a),
                    opt_view(p),
                    opt_view(m),
                    opt_view(t),
                    opt_view(c),
                    opt_view(b),
                )
            },
{
    let a = get("AI_CODING_MONOREPO");
    let p = get("CHORAGOS_DEFAULT_PROFILE");
    let m = get("CHORAGOS_MAX_ATTEMPTS");
    let t = get("TELEGRAM_BOT_TOKEN");
    let c = get("TELEGRAM_CHAT_ID");
    let b = get("CEREBRUM_BIN");
    let ghost (ga, gp, gm, gt, gc, gb) = (a, p, m, t, c, b);
    let r = from_values(a, p, m, t, c, b);
    assert(get.ensures(("AI_CODING_MONOREPO",), ga) && get.ensures(
        ("CHORAGOS_DEFAULT_PROFILE",),
        gp,
    ) && get.ensures(("CHORAGOS_MAX_ATTEMPTS",), gm) && get.ensures(("TELEGRAM_BOT_TOKEN",), gt)
        && get.ensures(("TELEGRAM_CHAT_ID",), gc) && get.ensures(("CEREBRUM_BIN",), gb)
        && result_view(r) == config_from(
        opt_view(ga),
        opt_view(gp),
        opt_view(gm),
        opt_view(gt),
        opt_view(gc),
        opt_view(gb),
    ));
    r
}

} // verus!
