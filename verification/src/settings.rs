//! Settings: notifications, GeoIP data and disaster recovery.
use crate::json::{int_member, read_members, text_member, Member};
use crate::locale::{tr, Locale};
use crate::text::{cat2, cat3, chars_of, contains, is_empty, same, trim};
use vstd::prelude::*;

verus! {

/// Page to return to after the Telegram settings were saved.
pub const TELEGRAM_PAGE: &'static str = "/admin/settings/notifications#telegram-notifications";

/// Page to return to after a change of the language, a test message or a
/// digest.
pub const SETTINGS_PAGE: &'static str = "/admin/settings";

/// Why a language is refused.
pub const BAD_LANGUAGE: &'static str = "notification language must be 'ru' or 'en'";

/// The language to store for a submitted one: surrounding white space aside,
/// only `ru` and `en` are taken.
pub fn settings_notification_language(raw: &str) -> (r: Result<String, &'static str>)
    ensures
        match r {
            Ok(lang) => lang@ == crate::text::trimmed(raw@) && (lang@ == "ru"@ || lang@ == "en"@),
            Err(msg) => msg == BAD_LANGUAGE && crate::text::trimmed(raw@) != "ru"@
                && crate::text::trimmed(raw@) != "en"@,
        },
{
    let lang = trim(raw);
    if same(lang.as_str(), "ru") || same(lang.as_str(), "en") {
        Ok(lang)
    } else {
        Err(BAD_LANGUAGE)
    }
}

/// Why a token is refused.
pub const BAD_TOKEN: &'static str =
    "bot token looks malformed (expected '<bot_id>:<auth_hex>' from @BotFather)";

/// Why a chat id is refused.
pub const BAD_CHAT_ID: &'static str =
    "chat-id must be numeric (e.g. 123456789, or -100123... for supergroups) or '@channel_name'";

/// Last character that takes one byte in UTF-8.
pub const LAST_ONE_BYTE: char = '\u{7f}';

/// Last character that takes two bytes in UTF-8.
pub const LAST_TWO_BYTES: char = '\u{7ff}';

/// Last character that takes three bytes in UTF-8.
pub const LAST_THREE_BYTES: char = '\u{ffff}';

/// Bytes of a character in UTF-8.
pub open spec fn char_bytes(c: char) -> nat {
    if c <= LAST_ONE_BYTE {
        1
    } else if c <= LAST_TWO_BYTES {
        2
    } else if c <= LAST_THREE_BYTES {
        3
    } else {
        4
    }
}

/// Bytes of a text in UTF-8.
pub open spec fn utf8_len(s: Seq<char>) -> nat
    decreases s.len(),
{
    if s.len() == 0 {
        0
    } else {
        utf8_len(s.drop_last()) + char_bytes(s.last())
    }
}

/// A token has the shape of a bot token: a colon with something behind it,
/// and at least twenty bytes.
pub open spec fn token_shape(s: Seq<char>) -> bool {
    inner_colon(s) && utf8_len(s) >= 20
}

/// Something stands behind a colon.
pub open spec fn inner_colon(s: Seq<char>) -> bool {
    exists|k: int| 0 <= k < s.len() - 1 && #[trigger] s[k] == ':'
}

/// A decimal digit.
pub open spec fn ascii_digit(c: char) -> bool {
    '0' <= c && c <= '9'
}

/// A decimal digit or an ASCII letter.
pub open spec fn ascii_alphanumeric(c: char) -> bool {
    ascii_digit(c) || ('a' <= c && c <= 'z') || ('A' <= c && c <= 'Z')
}

/// A chat id that is a number: digits, optionally after a minus sign.
pub open spec fn numeric_chat(s: Seq<char>) -> bool {
    all_digits(after_sign(s))
}

/// The text behind a leading minus sign, if there is one.
pub open spec fn after_sign(s: Seq<char>) -> Seq<char> {
    if s.len() > 0 && s[0] == '-' {
        s.skip(1)
    } else {
        s
    }
}

/// One or more decimal digits.
pub open spec fn all_digits(s: Seq<char>) -> bool {
    s.len() > 0 && forall|i: int| 0 <= i < s.len() ==> ascii_digit(#[trigger] s[i])
}

/// A chat id that names a channel: an at sign, then letters, digits and
/// underscores.
pub open spec fn channel_chat(s: Seq<char>) -> bool {
    s.len() >= 2 && s[0] == '@' && forall|i: int|
        1 <= i < s.len() ==> ascii_alphanumeric(#[trigger] s[i]) || s[i] == '_'
}

fn has_token_shape(s: &str) -> (r: bool)
    ensures
        r == token_shape(s@),
{
    let v = chars_of(s);
    let mut colon = false;
    let mut bytes: usize = 0;
    let mut i: usize = 0;
    while i < v.len()
        invariant
            i <= v.len(),
            v@ == s@,
            colon == (exists|k: int| 0 <= k < i && k < s@.len() - 1 && #[trigger] s@[k] == ':'),
            bytes <= 20,
            bytes < 20 ==> bytes == utf8_len(s@.take(i as int)),
            bytes >= 20 ==> utf8_len(s@.take(i as int)) >= 20,
        decreases v.len() - i,
    {
        assert(s@.take(i + 1).drop_last() =~= s@.take(i as int));
        let c = v[i];
        if c == ':' && i < v.len() - 1 {
            assert(s@[i as int] == ':');
            colon = true;
        }
        let size: usize = if c <= LAST_ONE_BYTE {
            1
        } else if c <= LAST_TWO_BYTES {
            2
        } else if c <= LAST_THREE_BYTES {
            3
        } else {
            4
        };
        if bytes + size >= 20 {
            bytes = 20;
        } else {
            bytes = bytes + size;
        }
        i = i + 1;
    }
    assert(s@.take(i as int) =~= s@);
    colon && bytes >= 20
}

fn is_numeric_chat(s: &str) -> (r: bool)
    ensures
        r == numeric_chat(s@),
{
    let v = chars_of(s);
    let start: usize = if v.len() > 0 && v[0] == '-' {
        1
    } else {
        0
    };
    let ghost digits = after_sign(s@);
    assert(digits =~= s@.skip(start as int));
    if start == v.len() {
        return false;
    }
    let mut i: usize = start;
    while i < v.len()
        invariant
            start <= i <= v.len(),
            v@ == s@,
            digits == s@.skip(start as int),
            digits == after_sign(s@),
            forall|k: int| 0 <= k < i - start ==> ascii_digit(#[trigger] digits[k]),
        decreases v.len() - i,
    {
        assert(digits[i - start] == v@[i as int]);
        if !('0' <= v[i] && v[i] <= '9') {
            assert(!ascii_digit(digits[i - start]));
            return false;
        }
        i = i + 1;
    }
    true
}

fn is_channel_chat(s: &str) -> (r: bool)
    ensures
        r == channel_chat(s@),
{
    let v = chars_of(s);
    if v.len() < 2 || v[0] != '@' {
        return false;
    }
    let mut i: usize = 1;
    while i < v.len()
        invariant
            1 <= i <= v.len(),
            v@ == s@,
            forall|k: int|
                1 <= k < i ==> ascii_alphanumeric(#[trigger] s@[k]) || s@[k] == '_',
        decreases v.len() - i,
    {
        let c = v[i];
        if !(('0' <= c && c <= '9') || ('a' <= c && c <= 'z') || ('A' <= c && c <= 'Z') || c
            == '_') {
            assert(!(ascii_alphanumeric(s@[i as int]) || s@[i as int] == '_'));
            return false;
        }
        i = i + 1;
    }
    true
}

/// The submitted Telegram form.
pub struct TelegramForm {
    pub token: String,
    pub chat_id: String,
    pub proxy_via: String,
}

/// Settings to store.
pub struct TelegramSettings {
    pub token: Option<String>,
    pub chat_id: Option<String>,
    pub proxy_via: Option<String>,
}

/// The text without surrounding white space, unless that leaves nothing.
pub open spec fn filled(s: Seq<char>) -> Option<Seq<char>> {
    if crate::text::trimmed(s).len() == 0 {
        None
    } else {
        Some(crate::text::trimmed(s))
    }
}

/// A chat id is acceptable: none, a number or a channel.
pub open spec fn chat_ok(chat: Option<Seq<char>>) -> bool {
    match chat {
        Some(c) => numeric_chat(c) || channel_chat(c),
        None => true,
    }
}

/// `s` stores this token with the chat id and proxy of the form.
pub open spec fn settings_of(
    s: TelegramSettings,
    token: Option<Seq<char>>,
    form: TelegramForm,
) -> bool {
    &&& crate::text::opt_string(s.token) == token
    &&& crate::text::opt_string(s.chat_id) == filled(form.chat_id@)
    &&& crate::text::opt_string(s.proxy_via) == filled(form.proxy_via@)
}

/// `r` is what a form asks to store. A token of the wrong shape is refused
/// first, then a chat id of the wrong shape. A field that was left empty is
/// stored as none.
pub open spec fn telegram_result(
    r: Result<TelegramSettings, &'static str>,
    form: TelegramForm,
) -> bool {
    let token = filled(form.token@);
    let chat = filled(form.chat_id@);
    if token is Some && !token_shape(token->0) {
        r matches Err(msg) && msg == BAD_TOKEN
    } else if !chat_ok(chat) {
        r matches Err(msg) && msg == BAD_CHAT_ID
    } else {
        r matches Ok(s) && settings_of(s, token, form)
    }
}

fn fill(s: &str) -> (r: Option<String>)
    ensures
        crate::text::opt_string(r) == filled(s@),
{
    let t = trim(s);
    if is_empty(t.as_str()) {
        None
    } else {
        Some(t)
    }
}

fn chat_accepted(chat: &Option<String>) -> (r: bool)
    ensures
        r == chat_ok(crate::text::opt_string(*chat)),
{
    match chat {
        Some(c) => is_numeric_chat(c.as_str()) || is_channel_chat(c.as_str()),
        None => true,
    }
}

/// What a submitted form asks to store, or why it is refused.
pub fn settings_telegram(form: &TelegramForm) -> (r: Result<TelegramSettings, &'static str>)
    ensures
        telegram_result(r, *form),
{
    let token = fill(form.token.as_str());
    let chat_id = fill(form.chat_id.as_str());
    let bad_token = match &token {
        Some(t) => !has_token_shape(t.as_str()),
        None => false,
    };
    if bad_token {
        return Err(BAD_TOKEN);
    }
    if !chat_accepted(&chat_id) {
        return Err(BAD_CHAT_ID);
    }
    Ok(TelegramSettings { token, chat_id, proxy_via: fill(form.proxy_via.as_str()) })
}

/// Messages are sent: both a token and a chat id are stored.
pub open spec fn transport_enabled(s: TelegramSettings) -> bool {
    s.token is Some && s.chat_id is Some
}

/// A form that leaves the token or the chat id empty, once it is accepted,
/// stores none in its place, and so disables the transport; a form that fills
/// in both enables it.
pub proof fn empty_field_disables(form: TelegramForm, s: TelegramSettings)
    requires
        telegram_result(Ok(s), form),
    ensures
        filled(form.token@) is None <==> s.token is None,
        filled(form.chat_id@) is None <==> s.chat_id is None,
        transport_enabled(s) <==> filled(form.token@) is Some && filled(form.chat_id@) is Some,
{
}

/// Leaving the token empty never gets a form refused for its token, and
/// whether it is accepted is up to the chat id alone.
pub proof fn empty_token_is_accepted(
    form: TelegramForm,
    r: Result<TelegramSettings, &'static str>,
)
    requires
        telegram_result(r, form),
        filled(form.token@) is None,
    ensures
        r is Ok <==> chat_ok(filled(form.chat_id@)),
        r matches Err(msg) ==> msg == BAD_CHAT_ID,
{
}

/// What is recorded of a change; the token itself is not.
pub struct TelegramAudit {
    pub token_set: bool,
    pub chat_id_set: bool,
    pub chat_id: String,
    pub proxy_via_server_id: String,
}

/// `a` records the settings `s`.
pub open spec fn telegram_audit(a: TelegramAudit, s: TelegramSettings) -> bool {
    &&& a.token_set == (s.token is Some)
    &&& a.chat_id_set == (s.chat_id is Some)
    &&& a.chat_id@ == (match s.chat_id {
        Some(c) => c@,
        None => Seq::empty(),
    })
    &&& a.proxy_via_server_id@ == (match s.proxy_via {
        Some(p) => p@,
        None => Seq::empty(),
    })
}

/// The record of a change.
pub fn audit_of(s: &TelegramSettings) -> (r: TelegramAudit)
    ensures
        telegram_audit(r, *s),
{
    TelegramAudit {
        token_set: s.token.is_some(),
        chat_id_set: s.chat_id.is_some(),
        chat_id: match &s.chat_id {
            Some(c) => c.clone(),
            None => String::new(),
        },
        proxy_via_server_id: match &s.proxy_via {
            Some(p) => p.clone(),
            None => String::new(),
        },
    }
}

/// Two changes that differ only in which token is set have the same record:
/// it discloses nothing of the token.
pub proof fn audit_discloses_no_token(
    a: TelegramAudit,
    s: TelegramSettings,
    b: TelegramAudit,
    t: TelegramSettings,
)
    requires
        telegram_audit(a, s),
        telegram_audit(b, t),
        s.token is Some <==> t.token is Some,
        crate::text::opt_string(s.chat_id) == crate::text::opt_string(t.chat_id),
        crate::text::opt_string(s.proxy_via) == crate::text::opt_string(t.proxy_via),
    ensures
        a.token_set == b.token_set,
        a.chat_id_set == b.chat_id_set,
        a.chat_id@ == b.chat_id@,
        a.proxy_via_server_id@ == b.proxy_via_server_id@,
{
}

/// Mark of a failure on the way through a server, which explains itself.
pub const SSH_MARK: &'static str = "ssh-then-curl";

/// Hints for any other failure.
pub const TEST_HINTS: &'static str =
    " — common causes: chat-id wrong (Telegram returns 'chat not found'), token revoked, bot never started conversation with you (open the bot in Telegram + tap Start), api.telegram.org blocked (use the «egress» dropdown on /admin/settings to route via an inventory server, or set VPNCTLD_HTTPS_PROXY env)";

/// Why a test message cannot be sent.
pub const NOT_CONFIGURED: &'static str =
    "Telegram transport not configured — fill in both fields on /admin/settings first";

/// How to answer a test message.
pub enum TestReply {
    /// Back to the settings.
    Redirect(&'static str),
    /// It failed, with the explanation.
    BadGateway(String),
}

/// `r` answers a test message, sent or failed with `error`. Hints are added
/// only to failures that do not explain themselves.
pub open spec fn test_reply(r: TestReply, error: Option<Seq<char>>) -> bool {
    match error {
        None => r matches TestReply::Redirect(url) && url == SETTINGS_PAGE,
        Some(e) => r matches TestReply::BadGateway(msg) && msg@ == "test-send failed: "@ + e + (
        if crate::text::occurs_in(e, SSH_MARK@) {
            Seq::empty()
        } else {
            TEST_HINTS@
        }),
    }
}

/// How to answer a test message, sent or failed with `error`.
pub fn settings_telegram_test(error: Option<&str>) -> (r: TestReply)
    ensures
        test_reply(r, crate::text::opt_text(error)),
{
    match error {
        None => TestReply::Redirect(SETTINGS_PAGE),
        Some(e) => {
            if contains(e, SSH_MARK) {
                let msg = cat2("test-send failed: ", e);
                assert(msg@ =~= "test-send failed: "@ + e@ + Seq::empty());
                TestReply::BadGateway(msg)
            } else {
                TestReply::BadGateway(cat3("test-send failed: ", e, TEST_HINTS))
            }
        },
    }
}

/// Why a request to update the GeoIP data is refused.
pub const CROSS_ORIGIN: &'static str =
    "cross-origin request rejected — open the admin UI directly";

/// Whether a request may update the GeoIP data: one from the page itself,
/// from the address bar, or from a client that does not say.
pub fn geoip_update_allowed(sec_fetch_site: Option<&str>) -> (r: bool)
    ensures
        r == (match sec_fetch_site {
            None => true,
            Some(s) => s@ == "same-origin"@ || s@ == "none"@,
        }),
{
    match sec_fetch_site {
        None => true,
        Some(s) => same(s, "same-origin") || same(s, "none"),
    }
}

/// Directory of the GeoIP data where none is configured.
pub const GEOIP_DIR: &'static str = "/var/lib/vpnctl/geoip";

/// The GeoIP section.
pub struct GeoipSection {
    pub dir: String,
    /// Some data file is there.
    pub any_loaded: bool,
    /// What to do, before the button's name.
    pub advice: &'static str,
}

/// The GeoIP section for the configured directory and the data files found.
pub fn settings_geoip_section(
    configured: Option<&str>,
    has_city: bool,
    has_asn: bool,
    lang: Locale,
) -> (r: GeoipSection)
    ensures
        r.dir@ == (match configured {
            Some(d) => d@,
            None => GEOIP_DIR@,
        }),
        r.any_loaded == (has_city || has_asn),
        r.advice == (if r.any_loaded {
            crate::locale::in_language(
                lang,
                "Update once a month with the ",
                "Обновлять раз в месяц кнопкой ",
            )
        } else {
            crate::locale::in_language(
                lang,
                "Drop fresh MMDB files into the dir + restart the daemon, or use the ",
                "Положи свежие MMDB-файлы в папку + перезапусти демон, либо используй ",
            )
        }),
{
    let any_loaded = has_city || has_asn;
    GeoipSection {
        dir: match configured {
            Some(d) => d.to_owned(),
            None => GEOIP_DIR.to_owned(),
        },
        any_loaded,
        advice: if any_loaded {
            tr(lang, "Update once a month with the ", "Обновлять раз в месяц кнопкой ")
        } else {
            tr(
                lang,
                "Drop fresh MMDB files into the dir + restart the daemon, or use the ",
                "Положи свежие MMDB-файлы в папку + перезапусти демон, либо используй ",
            )
        },
    }
}

/// The last restore self-test.
pub struct SelfTest {
    pub colour: &'static str,
    pub label: String,
    /// How long it took, in milliseconds.
    pub duration_ms: Option<i64>,
}

/// Colour of a verdict.
pub open spec fn verdict_colour(overall: Seq<char>) -> &'static str {
    if overall == "ok"@ {
        "#2e7d32"
    } else if overall == "warn"@ {
        "#e6a23c"
    } else if overall == "fail"@ || overall == "error"@ {
        "#c62828"
    } else {
        "var(--mute)"
    }
}

/// A verdict in words; an unknown one as it stands.
pub open spec fn verdict_label(overall: Seq<char>, lang: Locale) -> Seq<char> {
    if overall == "ok"@ {
        crate::locale::in_language(lang, "PASS", "ПРОЙДЕНО")@
    } else if overall == "warn"@ {
        crate::locale::in_language(lang, "PASS · with warnings", "ПРОЙДЕНО · с предупреждениями")@
    } else if overall == "fail"@ {
        crate::locale::in_language(lang, "FAIL", "ПРОВАЛ")@
    } else if overall == "error"@ {
        crate::locale::in_language(lang, "ERROR", "ОШИБКА")@
    } else {
        overall
    }
}

/// `t` shows a verdict, a question mark without one.
pub open spec fn self_test(
    t: SelfTest,
    overall: Option<Seq<char>>,
    duration_ms: Option<int>,
    lang: Locale,
) -> bool {
    let verdict = match overall {
        Some(o) => o,
        None => "?"@,
    };
    &&& t.colour == verdict_colour(verdict)
    &&& t.label@ == verdict_label(verdict, lang)
    &&& duration_ms == crate::json::opt_int(t.duration_ms)
}

/// Shows the verdict of a self-test.
pub fn self_test_of(overall: &Option<String>, duration_ms: Option<i64>, lang: Locale) -> (r:
    SelfTest)
    ensures
        self_test(
            r,
            crate::text::opt_string(*overall),
            crate::json::opt_int(duration_ms),
            lang,
        ),
{
    let verdict = match overall {
        Some(o) => o.as_str(),
        None => "?",
    };
    let (colour, label) = if same(verdict, "ok") {
        ("#2e7d32", tr(lang, "PASS", "ПРОЙДЕНО"))
    } else if same(verdict, "warn") {
        (
            "#e6a23c",
            tr(lang, "PASS · with warnings", "ПРОЙДЕНО · с предупреждениями"),
        )
    } else if same(verdict, "fail") {
        ("#c62828", tr(lang, "FAIL", "ПРОВАЛ"))
    } else if same(verdict, "error") {
        ("#c62828", tr(lang, "ERROR", "ОШИБКА"))
    } else {
        ("var(--mute)", verdict)
    };
    SelfTest { colour, label: label.to_owned(), duration_ms }
}

/// `t` shows the verdict and duration among the members of a record; without
/// a record that is an object neither is known.
pub open spec fn recorded_test(
    t: SelfTest,
    ms: Option<Seq<(Seq<char>, Option<Seq<char>>, Option<int>)>>,
    lang: Locale,
) -> bool {
    match ms {
        Some(ms) => self_test(
            t,
            crate::json::member_text(ms, "overall"@),
            crate::json::member_int(ms, "duration_ms"@),
            lang,
        ),
        None => self_test(t, None, None, lang),
    }
}

/// Shows the self-test with these members of its record.
pub fn self_test_from(record: &Option<Vec<Member>>, lang: Locale) -> (r: SelfTest)
    ensures
        recorded_test(
            r,
            match *record {
                Some(v) => Some(crate::json::members(v@)),
                None => None,
            },
            lang,
        ),
{
    match record {
        Some(v) => {
            let overall = text_member(v, "overall");
            let duration_ms = int_member(v, "duration_ms");
            self_test_of(&overall, duration_ms, lang)
        },
        None => self_test_of(&None, None, lang),
    }
}

/// The disaster recovery section.
pub struct DisasterRecovery {
    /// Paths of the deploy key in a bundle.
    pub key_label: String,
    /// The last self-test, if one ran.
    pub last: Option<SelfTest>,
}

/// The record of a self-test.
pub struct SelfTestRecord {
    /// What was recorded, as JSON.
    pub payload: Option<String>,
}

/// The disaster recovery section, with the record of the last self-test where
/// one ran.
pub fn settings_disaster_recovery_section(
    deploy_key: &str,
    deploy_key_pub: &str,
    last_self_test: &Option<SelfTestRecord>,
    lang: Locale,
) -> (r: DisasterRecovery)
    ensures
        r.key_label@ == deploy_key@ + " · "@ + deploy_key_pub@,
        match *last_self_test {
            None => r.last is None,
            Some(e) => r.last matches Some(t) && recorded_test(
                t,
                match e.payload {
                    Some(j) => crate::json::json_members(j@),
                    None => None,
                },
                lang,
            ),
        },
{
    DisasterRecovery {
        key_label: cat3(deploy_key, " · ", deploy_key_pub),
        last: match last_self_test {
            None => None,
            Some(e) => {
                let record = match &e.payload {
                    Some(j) => read_members(j.as_str()),
                    None => None,
                };
                Some(self_test_from(&record, lang))
            },
        },
    }
}

} // verus!
