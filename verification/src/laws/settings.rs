//! Laws of the settings.
use crate::locale::Locale;
use crate::settings::{SelfTest, TelegramAudit, TelegramForm, TelegramSettings, TestReply};
use vstd::prelude::*;

verus! {

/// Texts take as many bytes as their parts, and a character one to four of
/// them, by its code.
pub proof fn bytes_of_texts(a: Seq<char>, b: Seq<char>, c: char)
    ensures
        crate::settings::utf8_len(a + b) == crate::settings::utf8_len(a)
            + crate::settings::utf8_len(b),
        crate::settings::utf8_len(Seq::empty()) == 0,
        crate::settings::utf8_len(seq![c]) == (if (c as int) < 0x80 {
            1nat
        } else if (c as int) < 0x800 {
            2
        } else if (c as int) < 0x1_0000 {
            3
        } else {
            4
        }),
    decreases b.len(),
{
    assert(seq![c].drop_last() =~= Seq::empty());
    reveal_with_fuel(crate::settings::utf8_len, 2);
    if b.len() == 0 {
        assert(a + b =~= a);
    } else {
        bytes_of_texts(a, b.drop_last(), c);
        assert((a + b).drop_last() =~= a + b.drop_last());
    }
}

/// A bot token is something, a colon, and something more, of twenty bytes at
/// least.
pub open spec fn bot_token(s: Seq<char>) -> bool {
    crate::settings::utf8_len(s) >= 20 && exists|a: Seq<char>, b: Seq<char>|
        b.len() > 0 && s == #[trigger] (a + seq![':'] + b)
}

/// A chat is a number, perhaps below zero, or a channel name of letters, digits
/// and underscores behind an at sign.
pub open spec fn chat(s: Seq<char>) -> bool {
    ||| crate::laws::texts::digit_run(s)
    ||| exists|d: Seq<char>| #[trigger] crate::laws::texts::digit_run(d) && s == seq!['-'] + d
    ||| exists|d: Seq<char>| #[trigger] channel_name(d) && s == seq!['@'] + d
}

/// One or more letters, digits and underscores.
pub open spec fn channel_name(d: Seq<char>) -> bool {
    d.len() > 0 && forall|i: int|
        0 <= i < d.len() ==> ('0' <= #[trigger] d[i] && d[i] <= '9') || ('a' <= d[i] && d[i] <= 'z')
            || ('A' <= d[i] && d[i] <= 'Z') || d[i] == '_'
}

proof fn lemma_token(s: Seq<char>)
    ensures
        crate::settings::token_shape(s) <==> bot_token(s),
{
    if crate::settings::inner_colon(s) {
        let k = choose|k: int| 0 <= k < s.len() - 1 && #[trigger] s[k] == ':';
        assert(s =~= s.take(k) + seq![':'] + s.skip(k + 1));
    }
    if exists|a: Seq<char>, b: Seq<char>| b.len() > 0 && s == #[trigger] (a + seq![':'] + b) {
        let (a, b) = choose|a: Seq<char>, b: Seq<char>|
            b.len() > 0 && s == #[trigger] (a + seq![':'] + b);
        assert(s[a.len() as int] == ':');
    }
}

proof fn lemma_digits(s: Seq<char>)
    ensures
        crate::settings::all_digits(s) <==> crate::laws::texts::digit_run(s),
{
    if crate::settings::all_digits(s) {
        assert forall|i: int| 0 <= i < s.len() implies '0' <= #[trigger] s[i] && s[i] <= '9' by {
            assert(crate::settings::ascii_digit(s[i]));
        }
    }
    if crate::laws::texts::digit_run(s) {
        assert forall|i: int| 0 <= i < s.len() implies crate::settings::ascii_digit(
            #[trigger] s[i],
        ) by {
            assert('0' <= s[i] && s[i] <= '9');
        }
    }
}

proof fn lemma_chat(s: Seq<char>)
    ensures
        crate::settings::numeric_chat(s) || crate::settings::channel_chat(s) <==> chat(s),
{
    lemma_digits(crate::settings::after_sign(s));
    lemma_digits(s);
    if crate::settings::numeric_chat(s) && s.len() > 0 && s[0] == '-' {
        assert(s =~= seq!['-'] + s.skip(1));
        assert(crate::laws::texts::digit_run(s.skip(1)));
    }
    if crate::settings::channel_chat(s) {
        let d = s.skip(1);
        assert(s =~= seq!['@'] + d);
        assert forall|i: int| 0 <= i < d.len() implies ('0' <= #[trigger] d[i] && d[i] <= '9') || (
        'a' <= d[i] && d[i] <= 'z') || ('A' <= d[i] && d[i] <= 'Z') || d[i] == '_' by {
            assert(crate::settings::ascii_alphanumeric(s[i + 1]) || s[i + 1] == '_');
        }
        assert(channel_name(d));
    }
    if crate::laws::texts::digit_run(s) {
        assert('0' <= s[0] && s[0] <= '9');
        assert(crate::settings::after_sign(s) == s);
    }
    if exists|d: Seq<char>| #[trigger] crate::laws::texts::digit_run(d) && s == seq!['-'] + d {
        let d = choose|d: Seq<char>| #[trigger]
            crate::laws::texts::digit_run(d) && s == seq!['-'] + d;
        assert(s[0] == '-');
        assert(s.skip(1) =~= d);
    }
    if exists|d: Seq<char>| #[trigger] channel_name(d) && s == seq!['@'] + d {
        let d = choose|d: Seq<char>| #[trigger] channel_name(d) && s == seq!['@'] + d;
        assert(s[0] == '@');
        assert forall|i: int| 1 <= i < s.len() implies crate::settings::ascii_alphanumeric(
            #[trigger] s[i],
        ) || s[i] == '_' by {
            assert(s[i] == d[i - 1]);
        }
    }
}

/// A form is accepted exactly where each of its two fields, white space around
/// it aside, is empty or has the right shape; the token is judged first. What
/// is stored are the fields without that white space, and nothing for an empty
/// one.
pub proof fn accepted_forms(r: Result<TelegramSettings, &'static str>, form: TelegramForm)
    requires
        crate::settings::telegram_result(r, form),
    ensures
        ({
            let t = crate::text::trimmed(form.token@);
            let c = crate::text::trimmed(form.chat_id@);
            let p = crate::text::trimmed(form.proxy_via@);
            let token_ok = t.len() == 0 || bot_token(t);
            let chat_ok = c.len() == 0 || chat(c);
            &&& r is Ok <==> token_ok && chat_ok
            &&& r matches Err(msg) ==> (!token_ok ==> msg
                == "bot token looks malformed (expected '<bot_id>:<auth_hex>' from @BotFather)") && (
            token_ok ==> msg
                == "chat-id must be numeric (e.g. 123456789, or -100123... for supergroups) or '@channel_name'")
            &&& r matches Ok(s) ==> {
                &&& s.token is Some <==> t.len() > 0
                &&& s.token is Some ==> s.token->0@ == t
                &&& s.chat_id is Some <==> c.len() > 0
                &&& s.chat_id is Some ==> s.chat_id->0@ == c
                &&& s.proxy_via is Some <==> p.len() > 0
                &&& s.proxy_via is Some ==> s.proxy_via->0@ == p
            }
        }),
{
    lemma_token(crate::text::trimmed(form.token@));
    lemma_chat(crate::text::trimmed(form.chat_id@));
}

/// The record of a change says whether token and chat are set, and which chat
/// and which server they go through.
pub proof fn record_of_a_change(a: TelegramAudit, s: TelegramSettings)
    requires
        crate::settings::telegram_audit(a, s),
    ensures
        a.token_set <==> s.token is Some,
        a.chat_id_set <==> s.chat_id is Some,
        s.chat_id matches Some(c) ==> a.chat_id@ == c@,
        s.chat_id is None ==> a.chat_id@.len() == 0,
        s.proxy_via matches Some(p) ==> a.proxy_via_server_id@ == p@,
        s.proxy_via is None ==> a.proxy_via_server_id@.len() == 0,
{
}

/// A test message that was sent leads back to the settings. One that failed is
/// answered with the failure, and with hints unless the failure names the way
/// through a server.
pub proof fn failed_tests_are_explained(r: TestReply, error: Option<Seq<char>>)
    requires
        crate::settings::test_reply(r, error),
    ensures
        r is Redirect <==> error is None,
        r matches TestReply::Redirect(url) ==> url@ == "/admin/settings"@,
        error matches Some(e) ==> (r matches TestReply::BadGateway(m) && {
            &&& crate::text::occurs_in(e, "ssh-then-curl"@) ==> m@ == "test-send failed: "@ + e
            &&& !crate::text::occurs_in(e, "ssh-then-curl"@) ==> m@ == "test-send failed: "@ + e
                + crate::settings::TEST_HINTS@ && m@.len() > ("test-send failed: "@ + e).len()
        }),
{
    if let Some(e) = error {
        let head = "test-send failed: "@ + e;
        assert(head + Seq::<char>::empty() =~= head);
        assert(crate::settings::TEST_HINTS@.len() > 0) by {
            reveal_strlit(
                " — common causes: chat-id wrong (Telegram returns 'chat not found'), token revoked, bot never started conversation with you (open the bot in Telegram + tap Start), api.telegram.org blocked (use the «egress» dropdown on /admin/settings to route via an inventory server, or set VPNCTLD_HTTPS_PROXY env)",
            );
        }
    }
}

/// Each verdict has its colour and its word; one that is not known keeps its
/// own word, and none at all reads as a question mark.
pub proof fn verdicts_in_words(
    t: SelfTest,
    overall: Option<Seq<char>>,
    duration_ms: Option<int>,
    lang: Locale,
)
    requires
        crate::settings::self_test(t, overall, duration_ms, lang),
    ensures
        overall == Some("ok"@) ==> t.colour == "#2e7d32" && (lang is En ==> t.label@ == "PASS"@)
            && (lang is Ru ==> t.label@ == "ПРОЙДЕНО"@),
        overall == Some("warn"@) ==> t.colour == "#e6a23c" && (lang is En ==> t.label@
            == "PASS · with warnings"@) && (lang is Ru ==> t.label@
            == "ПРОЙДЕНО · с предупреждениями"@),
        overall == Some("fail"@) ==> t.colour == "#c62828" && (lang is En ==> t.label@ == "FAIL"@)
            && (lang is Ru ==> t.label@ == "ПРОВАЛ"@),
        overall == Some("error"@) ==> t.colour == "#c62828" && (lang is En ==> t.label@
            == "ERROR"@) && (lang is Ru ==> t.label@ == "ОШИБКА"@),
        overall != Some("ok"@) && overall != Some("warn"@) && overall != Some("fail"@) && overall
            != Some("error"@) ==> t.colour == "var(--mute)" && t.label@ == (match overall {
            Some(o) => o,
            None => "?"@,
        }),
        t.duration_ms is Some <==> duration_ms is Some,
        t.duration_ms matches Some(d) ==> duration_ms == Some(d as int),
{
    reveal_strlit("ok");
    reveal_strlit("warn");
    reveal_strlit("fail");
    reveal_strlit("error");
    reveal_strlit("?");
    assert("ok"@.len() == 2 && "warn"@.len() == 4 && "fail"@.len() == 4 && "error"@.len() == 5
        && "?"@.len() == 1);
    assert("warn"@[0] == 'w' && "fail"@[0] == 'f');
}

} // verus!
