//! Properties that hold across the library's operations.

use vstd::prelude::*;
use crate::command::{command_action, command_shutdown_reason, kick_notice, split_first_space};
use crate::protocol::CmdView;
use crate::command::ActionView;
use crate::app::{chosen_role, dialog_countdown, next_running, running_after_events, ServerApp};
use crate::protocol::AdminRole;
use crate::protocol::{LogLevel, ServerEvent};
use crate::uptime::{reads_as_uptime, uptime_parts, uptime_text};
use crate::text::{
    ascii_lower_char, ascii_lowercase, ascii_upper_char, ascii_uppercase, contains,
    is_ascii_text, lowered, pad2,
};
use crate::text::{
    all_digits, decimal, digit_char, digit_value, digits_value, is_digit, is_white_space,
    parse_u64, trim, trim_end, trim_start,
};

verus! {

proof fn lemma_decimal_digits(n: nat)
    ensures
        decimal(n).len() > 0,
        all_digits(decimal(n)),
        digits_value(decimal(n)) == n,
    decreases n,
{
    let d = n % 10;
    assert(digit_char(d) as u32 == 48 + d);
    assert(digit_value(digit_char(d)) == d);
    assert(decimal(n).last() == digit_char(d));
    if n >= 10 {
        lemma_decimal_digits(n / 10);
        let s = decimal(n);
        assert(s.drop_last() =~= decimal(n / 10));
        assert(digits_value(s) == digits_value(decimal(n / 10)) * 10 + d);
        assert forall|i: int| 0 <= i < s.len() implies is_digit(#[trigger] s[i]) by {
            if i < s.len() - 1 {
                assert(s[i] == decimal(n / 10)[i]);
            }
        }
    } else {
        assert(decimal(n).drop_last() =~= Seq::<char>::empty());
        assert(digits_value(Seq::<char>::empty()) == 0);
        assert(digits_value(decimal(n)) == digits_value(decimal(n).drop_last()) * 10 + d);
    }
}

/// Decimal notation read back: every `u64` written in decimal parses to itself.
pub proof fn law_decimal_parses_back(n: u64)
    ensures
        parse_u64(decimal(n as nat)) == Some(n),
{
    lemma_decimal_digits(n as nat);
    assert(is_digit(decimal(n as nat)[0]));
}


proof fn lemma_trim_end_is_prefix(s: Seq<char>)
    ensures
        trim_end(s).len() <= s.len(),
        trim_end(s) == s.take(trim_end(s).len() as int),
    decreases s.len(),
{
    if s.len() > 0 && is_white_space(s.last()) {
        lemma_trim_end_is_prefix(s.drop_last());
        assert(s.drop_last().take(trim_end(s).len() as int) =~= s.take(trim_end(s).len() as int));
    } else {
        assert(s.take(s.len() as int) =~= s);
    }
}

proof fn lemma_trim_end_concat(p: Seq<char>, t: Seq<char>)
    requires
        p.len() > 0,
        !is_white_space(p.last()),
    ensures
        trim_end(p + t) == p + trim_end(t),
    decreases t.len(),
{
    if t.len() == 0 {
        assert(p + t =~= p);
        assert(p + trim_end(t) =~= p);
    } else if is_white_space(t.last()) {
        assert((p + t).drop_last() =~= p + t.drop_last());
        lemma_trim_end_concat(p, t.drop_last());
    } else {
        assert((p + t).last() == t.last());
    }
}

proof fn lemma_split_concat(p: Seq<char>, t: Seq<char>)
    requires
        forall|i: int| 0 <= i < p.len() ==> p[i] != ' ',
    ensures
        split_first_space(p + t) == (p + split_first_space(t).0, split_first_space(t).1),
    decreases p.len(),
{
    if p.len() == 0 {
        assert(p + t =~= t);
        assert(p + split_first_space(t).0 =~= split_first_space(t).0);
    } else {
        let q = p.drop_first();
        assert((p + t).drop_first() =~= q + t);
        lemma_split_concat(q, t);
        assert(seq![p[0]] + (q + split_first_space(t).0) =~= p + split_first_space(t).0);
    }
}

/// How a line made of a command word, a space and an argument is taken apart.
proof fn lemma_line_parts(word: Seq<char>, rest: Seq<char>)
    requires
        word.len() > 0,
        forall|i: int| 0 <= i < word.len() ==> word[i] != ' ' && !is_white_space(#[trigger] word[i]),
    ensures
        split_first_space(trim(word + seq![' '] + rest)).0 == word,
        split_first_space(trim(word + seq![' '] + rest)).1 == (if trim_end(seq![' '] + rest).len()
            == 0 {
            None
        } else {
            Some(trim_end(seq![' '] + rest).drop_first())
        }),
        rest.len() > 0 && !is_white_space(rest.last()) ==> split_first_space(
            trim(word + seq![' '] + rest),
        ).1 == Some(rest),
{
    let line = word + seq![' '] + rest;
    let t = seq![' '] + rest;
    assert(line =~= word + t);
    assert(!is_white_space(line[0])) by {
        assert(line[0] == word[0]);
    }
    assert(trim_start(line) == line);
    assert(!is_white_space(word.last())) by {
        assert(word.last() == word[word.len() - 1]);
    }
    lemma_trim_end_concat(word, t);
    let tt = trim_end(t);
    lemma_trim_end_is_prefix(t);
    lemma_split_concat(word, tt);
    if tt.len() == 0 {
        assert(tt =~= Seq::<char>::empty());
        assert(word + Seq::<char>::empty() =~= word);
    } else {
        assert(tt[0] == t[0]);
        assert(word + Seq::<char>::empty() =~= word);
    }
    if rest.len() > 0 && !is_white_space(rest.last()) {
        assert(t.last() == rest.last());
        assert(tt == t);
        assert(t.drop_first() =~= rest);
    }
}


/// A countdown typed after `shutdown` is the countdown used: for every `u64` `n`, the
/// command line `shutdown <n>` asks for a graceful shutdown after `n` seconds.
pub proof fn law_shutdown_countdown_read_back(n: u64)
    ensures
        command_action("shutdown "@ + decimal(n as nat)) == ActionView::Dispatch(
            CmdView::ShutdownGraceful { seconds: n, reason: command_shutdown_reason() },
        ),
{
    reveal_strlit("say");
    reveal_strlit("msg");
    reveal_strlit("kick");
    reveal_strlit("stop");
    reveal_strlit("quit");
    reveal_strlit("shutdown");
    reveal_strlit("shutdown ");
    let w = "shutdown"@;
    let d = decimal(n as nat);
    assert("shutdown "@ + d =~= w + seq![' '] + d);
    lemma_decimal_digits(n as nat);
    assert(is_digit(d[d.len() - 1]));
    lemma_line_parts(w, d);
    law_decimal_parses_back(n);
}

/// Kicking from the command bar and from the player list announce the same: for every
/// name that does not end in white space, `kick <name>` broadcasts the notice that the
/// "Kick" button beside that name broadcasts.
pub proof fn law_kick_command_matches_button(name: Seq<char>)
    requires
        name.len() > 0,
        !is_white_space(name.last()),
    ensures
        command_action("kick "@ + name) == ActionView::Dispatch(
            CmdView::BroadcastMessage { msg: kick_notice(name) },
        ),
{
    reveal_strlit("say");
    reveal_strlit("msg");
    reveal_strlit("kick");
    reveal_strlit("stop");
    reveal_strlit("quit");
    reveal_strlit("shutdown");
    reveal_strlit("kick ");
    let w = "kick"@;
    assert("kick "@ + name =~= w + seq![' '] + name);
    lemma_line_parts(w, name);
}

/// `say` and `msg` are the same command, whatever follows them.
pub proof fn law_say_msg_synonyms(rest: Seq<char>)
    ensures
        command_action("say "@ + rest) == command_action("msg "@ + rest),
{
    reveal_strlit("say");
    reveal_strlit("msg");
    reveal_strlit("kick");
    reveal_strlit("stop");
    reveal_strlit("quit");
    reveal_strlit("shutdown");
    reveal_strlit("say ");
    reveal_strlit("msg ");
    assert("say "@ + rest =~= "say"@ + seq![' '] + rest);
    assert("msg "@ + rest =~= "msg"@ + seq![' '] + rest);
    lemma_line_parts("say"@, rest);
    lemma_line_parts("msg"@, rest);
}

/// `stop` and `quit` are the same command, whatever follows them: both shut the
/// server down at once.
pub proof fn law_stop_quit_synonyms(rest: Seq<char>)
    ensures
        command_action("stop "@ + rest) == ActionView::Dispatch(CmdView::ShutdownImmediate),
        command_action("quit "@ + rest) == ActionView::Dispatch(CmdView::ShutdownImmediate),
{
    reveal_strlit("say");
    reveal_strlit("msg");
    reveal_strlit("kick");
    reveal_strlit("stop");
    reveal_strlit("quit");
    reveal_strlit("shutdown");
    reveal_strlit("stop ");
    reveal_strlit("quit ");
    assert("stop "@ + rest =~= "stop"@ + seq![' '] + rest);
    assert("quit "@ + rest =~= "quit"@ + seq![' '] + rest);
    lemma_line_parts("stop"@, rest);
    lemma_line_parts("quit"@, rest);
}


/// Once the server has stopped it stays stopped: no sequence of events makes it run
/// again, and a running server is still running after `events` exactly when none of
/// them reports a stop.
pub proof fn law_stop_is_final(events: Seq<ServerEvent>)
    ensures
        !running_after_events(false, events),
        running_after_events(true, events) <==> !(exists|i: int|
            0 <= i < events.len() && #[trigger] events[i] is Stopped),
    decreases events.len(),
{
    if events.len() > 0 {
        let tail = events.drop_first();
        law_stop_is_final(tail);
        if !(events[0] is Stopped) {
            assert forall|i: int| 0 <= i < tail.len() && #[trigger] tail[i] is Stopped implies (
            events[i + 1] is Stopped) by {}
            assert forall|i: int| 0 <= i < events.len() && #[trigger] events[i] is Stopped implies (
            0 <= i - 1 < tail.len() && tail[i - 1] is Stopped) by {}
        }
    }
}

proof fn lemma_trim_start_head(s: Seq<char>)
    ensures
        trim_start(s).len() == 0 || !is_white_space(trim_start(s)[0]),
    decreases s.len(),
{
    if s.len() > 0 && is_white_space(s[0]) {
        lemma_trim_start_head(s.drop_first());
    }
}

proof fn lemma_trim_end_last(s: Seq<char>)
    ensures
        trim_end(s).len() == 0 || !is_white_space(trim_end(s).last()),
    decreases s.len(),
{
    if s.len() > 0 && is_white_space(s.last()) {
        lemma_trim_end_last(s.drop_last());
    }
}

/// Trimming is done once and for all: a trimmed text neither starts nor ends with white
/// space, and trimming it again leaves it as it is (so a message sent from the broadcast
/// dialog, typed in again, is sent unchanged).
pub proof fn law_trim_is_idempotent(s: Seq<char>)
    ensures
        trim(trim(s)) == trim(s),
        trim(s).len() > 0 ==> !is_white_space(trim(s)[0]) && !is_white_space(trim(s).last()),
{
    let a = trim_start(s);
    let t = trim_end(a);
    lemma_trim_start_head(s);
    lemma_trim_end_is_prefix(a);
    lemma_trim_end_last(a);
    if t.len() > 0 {
        assert(t[0] == a[0]);
        assert(trim_start(t) == t);
    } else {
        assert(trim_start(t) == t);
    }
}

/// The uptime shown splits the seconds into hours, minutes below 60 and seconds below
/// 60 that add up to them; below 100 hours it reads `HH:MM:SS`, eight characters wide.
pub proof fn law_uptime_parts(secs: nat)
    ensures
        uptime_parts(secs).1 < 60,
        uptime_parts(secs).2 < 60,
        uptime_parts(secs).0 * 3600 + uptime_parts(secs).1 * 60 + uptime_parts(secs).2 == secs,
        secs < 360000 ==> uptime_text(secs).len() == 8 && uptime_text(secs)[2] == ':'
            && uptime_text(secs)[5] == ':',
{
    let (h, m, s) = uptime_parts(secs);
    if secs < 360000 {
        lemma_pad2_width(h);
        lemma_pad2_width(m);
        lemma_pad2_width(s);
    }
}

proof fn lemma_pad2_width(n: nat)
    requires
        n < 100,
    ensures
        pad2(n).len() == 2,
{
    if n >= 10 {
        assert(decimal(n / 10).len() == 1);
    }
}

/// With an empty filter the console shows a line exactly when its level is shown; lines
/// that are neither TRACE nor DEBUG always pass the level check.
pub proof fn law_empty_filter_shows_by_level(
    app: ServerApp,
    level: LogLevel,
    text: Seq<char>,
)
    ensures
        app.line_visible(Seq::empty(), level, text) == app.shows_level(level),
        !(level is Trace) && !(level is Debug) ==> app.shows_level(level),
{
}

/// A single event moves the running flag as [`running_after_events`] does on a
/// one-event sequence.
pub proof fn law_one_event(running: bool, event: ServerEvent)
    ensures
        running_after_events(running, seq![event]) == next_running(running, event),
{
    assert(seq![event].drop_first() =~= Seq::<ServerEvent>::empty());
    assert(running_after_events(next_running(running, event), Seq::<ServerEvent>::empty())
        == next_running(running, event));
}


proof fn lemma_contains_trans(hay: Seq<char>, mid: Seq<char>, key: Seq<char>)
    requires
        contains(hay, mid),
        contains(mid, key),
    ensures
        contains(hay, key),
{
    let i = choose|i: int|
        0 <= i && i + mid.len() <= hay.len() && #[trigger] hay.subrange(i, i + mid.len()) == mid;
    let j = choose|j: int|
        0 <= j && j + key.len() <= mid.len() && #[trigger] mid.subrange(j, j + key.len()) == key;
    assert(hay.subrange(i + j, i + j + key.len()) =~= key) by {
        assert forall|k: int| 0 <= k < key.len() implies hay.subrange(
            i + j,
            i + j + key.len(),
        )[k] == key[k] by {
            assert(mid.subrange(j, j + key.len())[k] == mid[j + k]);
            assert(hay.subrange(i, i + mid.len())[j + k] == hay[i + j + k]);
        }
    }
}

proof fn lemma_filter_twice<A>(s: Seq<A>, p: spec_fn(A) -> bool, q: spec_fn(A) -> bool)
    requires
        forall|x: A| #[trigger] q(x) ==> p(x),
    ensures
        s.filter(q) == s.filter(p).filter(q),
    decreases s.len(),
{
    reveal(Seq::filter);
    if s.len() > 0 {
        lemma_filter_twice(s.drop_last(), p, q);
        let d = s.drop_last().filter(p);
        if p(s.last()) {
            assert(d.push(s.last()).drop_last() =~= d);
        }
    }
}

/// Narrowing the console never brings lines back: when the lowercased filter of `a`
/// occurs in that of `b` (an empty filter occurs in every one), and every level box
/// ticked in `b` is ticked in `a`, each line shown by `b` is shown by `a`, and the lines
/// `b` shows are those `a` shows, filtered once more, in the same order.
pub proof fn law_narrower_filter_only_removes(
    a: ServerApp,
    b: ServerApp,
    lines: Seq<(LogLevel, Seq<char>)>,
)
    requires
        contains(lowered(b.inputs().log_filter@), lowered(a.inputs().log_filter@)),
        b.inputs().show_trace ==> a.inputs().show_trace,
        b.inputs().show_debug ==> a.inputs().show_debug,
    ensures
        forall|level: LogLevel, text: Seq<char>| #[trigger] b.shown(level, text) ==> a.shown(level, text),
        lines.filter(|l: (LogLevel, Seq<char>)| b.shown(l.0, l.1)) == lines.filter(
            |l: (LogLevel, Seq<char>)| a.shown(l.0, l.1),
        ).filter(|l: (LogLevel, Seq<char>)| b.shown(l.0, l.1)),
{
    let ka = lowered(a.inputs().log_filter@);
    let kb = lowered(b.inputs().log_filter@);
    assert forall|level: LogLevel, text: Seq<char>| #[trigger] b.shown(level, text) implies a.shown(
        level,
        text,
    ) by {
        if ka.len() > 0 {
            if kb.len() == 0 {
                assert(!contains(kb, ka));
            } else {
                lemma_contains_trans(lowered(text), kb, ka);
            }
        }
    }
    let p = |l: (LogLevel, Seq<char>)| a.shown(l.0, l.1);
    let q = |l: (LogLevel, Seq<char>)| b.shown(l.0, l.1);
    assert forall|x: (LogLevel, Seq<char>)| #[trigger] q(x) implies p(x) by {}
    lemma_filter_twice(lines, p, q);
}

proof fn lemma_ascii_case_chars(c: char)
    requires
        (c as u32) < 128,
    ensures
        ascii_lower_char(ascii_upper_char(c)) == ascii_lower_char(c),
        (ascii_upper_char(c) as u32) < 128,
{
}

/// The console filter ignores case: for an ASCII filter, typing it in capitals shows
/// exactly the same lines, in the same order, all else being equal.
pub proof fn law_filter_ignores_ascii_case(
    a: ServerApp,
    b: ServerApp,
    lines: Seq<(LogLevel, Seq<char>)>,
)
    requires
        is_ascii_text(a.inputs().log_filter@),
        b.inputs().log_filter@ == ascii_uppercase(a.inputs().log_filter@),
        b.inputs().show_trace == a.inputs().show_trace,
        b.inputs().show_debug == a.inputs().show_debug,
    ensures
        forall|level: LogLevel, text: Seq<char>| #[trigger] b.shown(level, text) == a.shown(level, text),
        lines.filter(|l: (LogLevel, Seq<char>)| b.shown(l.0, l.1)) == lines.filter(
            |l: (LogLevel, Seq<char>)| a.shown(l.0, l.1),
        ),
{
    let f = a.inputs().log_filter@;
    let u = ascii_uppercase(f);
    assert forall|i: int| 0 <= i < u.len() implies (#[trigger] u[i] as u32) < 128 by {
        lemma_ascii_case_chars(f[i]);
    }
    assert(ascii_lowercase(u) =~= ascii_lowercase(f)) by {
        assert forall|i: int| 0 <= i < f.len() implies ascii_lowercase(u)[i] == ascii_lowercase(
            f,
        )[i] by {
            lemma_ascii_case_chars(f[i]);
        }
    }
    let p = |l: (LogLevel, Seq<char>)| a.shown(l.0, l.1);
    let q = |l: (LogLevel, Seq<char>)| b.shown(l.0, l.1);
    assert(p =~= q);
}


proof fn lemma_leading_zero(d: Seq<char>)
    ensures
        digits_value(seq!['0'] + d) == digits_value(d),
        all_digits(d) ==> all_digits(seq!['0'] + d),
    decreases d.len(),
{
    let z = seq!['0'] + d;
    if d.len() == 0 {
        assert(z.drop_last() =~= Seq::<char>::empty());
        assert(digits_value(Seq::<char>::empty()) == 0);
        assert(digits_value(z) == digits_value(z.drop_last()) * 10 + digit_value('0'));
    } else {
        assert(z.drop_last() =~= seq!['0'] + d.drop_last());
        lemma_leading_zero(d.drop_last());
        assert(z.last() == d.last());
        if all_digits(d) {
            assert forall|i: int| 0 <= i < d.drop_last().len() implies is_digit(
                #[trigger] d.drop_last()[i],
            ) by {
                assert(d.drop_last()[i] == d[i]);
            }
        }
    }
    if all_digits(d) {
        assert forall|i: int| 0 <= i < z.len() implies is_digit(#[trigger] z[i]) by {
            if i > 0 {
                assert(z[i] == d[i - 1]);
            }
        }
    }
}

proof fn lemma_pad2(n: nat)
    ensures
        all_digits(pad2(n)),
        digits_value(pad2(n)) == n,
        pad2(n).len() >= 2,
        n < 100 ==> pad2(n).len() == 2,
{
    lemma_decimal_digits(n);
    if n < 10 {
        lemma_leading_zero(decimal(n));
    } else {
        lemma_decimal_digits(n / 10);
        if n < 100 {
            assert(decimal(n / 10).len() == 1);
        }
    }
}

/// The uptime text reads back: for every number of seconds, it is at least two hour
/// digits, a colon, two minute digits, a colon and two second digits, whose hours,
/// minutes (below 60) and seconds (below 60) add up to that number.
pub proof fn law_uptime_reads_back(secs: nat)
    ensures
        reads_as_uptime(uptime_text(secs), secs),
{
    let (h, m, s) = uptime_parts(secs);
    lemma_pad2(h);
    lemma_pad2(m);
    lemma_pad2(s);
    let t = uptime_text(secs);
    let n = t.len();
    let ph = pad2(h);
    let pm = pad2(m);
    let ps = pad2(s);
    assert(t == ph + seq![':'] + pm + seq![':'] + ps);
    assert(n == ph.len() + 6);
    assert(t.take(n - 6) =~= ph);
    assert(t.subrange(n - 5, n - 3) =~= pm);
    assert(t.subrange(n - 2, n as int) =~= ps);
    assert(t[n - 6] == ':');
    assert(t[n - 3] == ':');
}


/// `say` sends what follows it as it stands: for every non-empty text `m` that does not
/// end in white space, the line `say <m>` broadcasts exactly `m`, and so does `msg <m>`.
pub proof fn law_say_sends_the_text(m: Seq<char>)
    requires
        m.len() > 0,
        !is_white_space(m.last()),
    ensures
        command_action("say "@ + m) == ActionView::Dispatch(CmdView::BroadcastMessage { msg: m }),
        command_action("msg "@ + m) == ActionView::Dispatch(CmdView::BroadcastMessage { msg: m }),
{
    reveal_strlit("say");
    reveal_strlit("msg");
    reveal_strlit("kick");
    reveal_strlit("stop");
    reveal_strlit("quit");
    reveal_strlit("shutdown");
    reveal_strlit("say ");
    reveal_strlit("msg ");
    assert("say "@ + m =~= "say"@ + seq![' '] + m);
    assert("msg "@ + m =~= "msg"@ + seq![' '] + m);
    lemma_line_parts("say"@, m);
    lemma_line_parts("msg"@, m);
}

/// Which console lines are shown: a TRACE line only with its box ticked, a DEBUG line
/// only with its box ticked, every other level always; and, when a filter key is typed,
/// exactly the lines whose lowercased text contains it — whatever their level.
pub proof fn law_console_shows(app: ServerApp, key: Seq<char>, level: LogLevel, text: Seq<char>)
    ensures
        app.shows_level(level) <==> ((level is Trace ==> app.inputs().show_trace) && (level is Debug
            ==> app.inputs().show_debug)),
        key.len() == 0 ==> (app.line_visible(key, level, text) <==> app.shows_level(level)),
        key.len() > 0 ==> (app.line_visible(key, level, text) <==> (app.shows_level(level)
            && contains(lowered(text), key))),
{
}

proof fn lemma_trim_start_spaces(pre: Seq<char>, x: Seq<char>)
    requires
        forall|i: int| 0 <= i < pre.len() ==> is_white_space(#[trigger] pre[i]),
    ensures
        trim_start(pre + x) == trim_start(x),
    decreases pre.len(),
{
    if pre.len() > 0 {
        assert((pre + x)[0] == pre[0]);
        assert((pre + x).drop_first() =~= pre.drop_first() + x);
        lemma_trim_start_spaces(pre.drop_first(), x);
    } else {
        assert(pre + x =~= x);
    }
}

proof fn lemma_trim_end_spaces(x: Seq<char>, post: Seq<char>)
    requires
        forall|i: int| 0 <= i < post.len() ==> is_white_space(#[trigger] post[i]),
    ensures
        trim_end(x + post) == trim_end(x),
    decreases post.len(),
{
    if post.len() > 0 {
        assert((x + post).last() == post.last());
        assert((x + post).drop_last() =~= x + post.drop_last());
        lemma_trim_end_spaces(x, post.drop_last());
    } else {
        assert(x + post =~= x);
    }
}

/// The shutdown dialog sends the countdown typed in it: for every `u64` `n`, typed in
/// decimal with any white space around it, Confirm shuts down after `n` seconds.
pub proof fn law_dialog_countdown_read_back(n: u64, pre: Seq<char>, post: Seq<char>)
    requires
        forall|i: int| 0 <= i < pre.len() ==> is_white_space(#[trigger] pre[i]),
        forall|i: int| 0 <= i < post.len() ==> is_white_space(#[trigger] post[i]),
    ensures
        dialog_countdown(pre + decimal(n as nat) + post) == n,
{
    let d = decimal(n as nat);
    lemma_decimal_digits(n as nat);
    assert(is_digit(d[0]));
    assert(is_digit(d[d.len() - 1]));
    assert(pre + d + post =~= pre + (d + post));
    lemma_trim_start_spaces(pre, d + post);
    assert((d + post)[0] == d[0]);
    assert(trim_start(d + post) == d + post);
    lemma_trim_end_spaces(d, post);
    assert(trim_end(d) == d);
    law_decimal_parses_back(n);
}

/// The role sent from the admin dialog is the one typed: administrator exactly when the
/// lowercased role text is `admin`; moderator for `mod`, `moderator` and anything else.
pub proof fn law_admin_role_typed(typed: Seq<char>)
    ensures
        (chosen_role(typed) == AdminRole::Admin) <==> (lowered(typed) == "admin"@),
        (chosen_role(typed) == AdminRole::Moderator) <==> (lowered(typed) != "admin"@),
        lowered(typed) == "moderator"@ ==> chosen_role(typed) == AdminRole::Moderator,
        lowered(typed) == "mod"@ ==> chosen_role(typed) == AdminRole::Moderator,
{
    reveal_strlit("admin");
    reveal_strlit("mod");
    reveal_strlit("moderator");
    let name = lowered(typed);
    assert("mod"@.len() == 3 && "moderator"@.len() == 9 && "admin"@.len() == 5);
    if name == "admin"@ {
        assert(name != "mod"@ && name != "moderator"@);
    }
}


/// Trimming removes white space at the ends only: any text that neither starts nor ends
/// in white space, with any white space before and after it, trims to that text.
pub proof fn law_trim_strips_only_white_space(pre: Seq<char>, x: Seq<char>, post: Seq<char>)
    requires
        forall|i: int| 0 <= i < pre.len() ==> is_white_space(#[trigger] pre[i]),
        forall|i: int| 0 <= i < post.len() ==> is_white_space(#[trigger] post[i]),
        x.len() > 0 ==> !is_white_space(x[0]) && !is_white_space(x.last()),
    ensures
        trim(pre + x + post) == x,
{
    assert(pre + x + post =~= pre + (x + post));
    lemma_trim_start_spaces(pre, x + post);
    if x.len() > 0 {
        assert((x + post)[0] == x[0]);
        assert(trim_start(x + post) == x + post);
        assert(trim_end(x) == x);
    } else {
        assert(x + post =~= post);
        assert(Seq::<char>::empty() + post =~= post);
        lemma_trim_start_all_space(post);
        assert(trim_end(Seq::<char>::empty()) == x);
    }
    lemma_trim_end_spaces(x, post);
}

proof fn lemma_trim_start_all_space(s: Seq<char>)
    requires
        forall|i: int| 0 <= i < s.len() ==> is_white_space(#[trigger] s[i]),
    ensures
        trim_start(s) == Seq::<char>::empty(),
    decreases s.len(),
{
    if s.len() > 0 {
        lemma_trim_start_all_space(s.drop_first());
    } else {
        assert(s =~= Seq::<char>::empty());
    }
}

/// A word that is no command is reported as unknown, alone or followed by anything:
/// for every non-empty word without spaces or white space other than `say`, `msg`,
/// `kick`, `stop`, `quit` and `shutdown`, the line is reported as that unknown word.
pub proof fn law_unknown_word_reported(w: Seq<char>, rest: Seq<char>)
    requires
        w.len() > 0,
        forall|i: int| 0 <= i < w.len() ==> w[i] != ' ' && !is_white_space(#[trigger] w[i]),
        w != "say"@ && w != "msg"@ && w != "kick"@,
        w != "stop"@ && w != "quit"@ && w != "shutdown"@,
    ensures
        command_action(w) == ActionView::Unknown(w),
        command_action(w + seq![' '] + rest) == ActionView::Unknown(w),
{
    lemma_line_parts(w, rest);
    assert(!is_white_space(w[0]));
    assert(!is_white_space(w[w.len() - 1]));
    assert(trim_start(w) == w);
    assert(trim_end(w) == w);
    lemma_split_concat(w, Seq::<char>::empty());
    assert(w + Seq::<char>::empty() =~= w);
}

/// `say` or `msg` with nothing after it but white space sends nothing.
pub proof fn law_say_without_text_sends_nothing(post: Seq<char>)
    requires
        forall|i: int| 0 <= i < post.len() ==> is_white_space(#[trigger] post[i]),
    ensures
        command_action("say"@ + post) == ActionView::Ignore,
        command_action("msg"@ + post) == ActionView::Ignore,
{
    reveal_strlit("say");
    reveal_strlit("msg");
    reveal_strlit("kick");
    reveal_strlit("stop");
    reveal_strlit("quit");
    reveal_strlit("shutdown");
    let e = Seq::<char>::empty();
    assert forall|i: int| 0 <= i < e.len() implies is_white_space(#[trigger] e[i]) by {}
    law_trim_strips_only_white_space(e, "say"@, post);
    law_trim_strips_only_white_space(e, "msg"@, post);
    assert(e + "say"@ + post =~= "say"@ + post);
    assert(e + "msg"@ + post =~= "msg"@ + post);
    lemma_split_concat("say"@, e);
    lemma_split_concat("msg"@, e);
    assert("say"@ + e =~= "say"@);
    assert("msg"@ + e =~= "msg"@);
}

/// `shutdown` without a countdown that parses waits the default 60 seconds: for any
/// argument that is not an unsigned decimal number, and for none at all.
pub proof fn law_shutdown_default_countdown(rest: Seq<char>)
    requires
        parse_u64(rest) is None,
        rest.len() > 0 ==> !is_white_space(rest.last()),
    ensures
        command_action("shutdown "@ + rest) == ActionView::Dispatch(
            CmdView::ShutdownGraceful { seconds: 60, reason: command_shutdown_reason() },
        ),
{
    reveal_strlit("say");
    reveal_strlit("msg");
    reveal_strlit("kick");
    reveal_strlit("stop");
    reveal_strlit("quit");
    reveal_strlit("shutdown");
    reveal_strlit("shutdown ");
    assert("shutdown "@ + rest =~= "shutdown"@ + seq![' '] + rest);
    lemma_line_parts("shutdown"@, rest);
    if rest.len() == 0 {
        assert(seq![' '] + rest =~= seq![' ']);
        assert(trim_end(seq![' ']).len() == 0) by {
            assert((' ' as u32) == 0x20);
            assert(is_white_space(seq![' '].last()));
            assert(seq![' '].drop_last() =~= Seq::<char>::empty());
            assert(trim_end(Seq::<char>::empty()).len() == 0);
        }
    }
}

} // verus!
