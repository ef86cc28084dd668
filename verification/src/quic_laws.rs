//! What holds of QUIC attempts over all modes, budgets and events.

use crate::net::SocketAddr;
use crate::quic_stream::{
    accept, budget_ms, check_sent, check_transmit, connect, create_framed, enabled,
    endpoint_config, is_documented, mode, parse_mode, received, require, transport_config, Attempt,
    AttemptEvent, AttemptView, Datagram, Mode, QuicError, QuicStep, SideView, Stage, StepView,
    TransmitError, TransportSettings, PROBE_TIMEOUT_MS,
};
use crate::stream::Stream;
use vstd::prelude::*;

verus! {

/// An attempt as a whole never gets more than the caller's budget. Where another
/// transport may follow, it gets no more than the probe, and where QUIC was asked
/// for, it gets all of it.
pub proof fn budget_keeps_to_the_mode(mode: Mode, timeout_ms: u64)
    ensures
        crate::quic_stream::budget(mode, timeout_ms) <= timeout_ms,
        mode == Mode::Auto ==> crate::quic_stream::budget(mode, timeout_ms) <= PROBE_TIMEOUT_MS,
        mode == Mode::Auto && timeout_ms >= PROBE_TIMEOUT_MS ==> crate::quic_stream::budget(
            mode,
            timeout_ms,
        ) == PROBE_TIMEOUT_MS,
        mode != Mode::Auto ==> crate::quic_stream::budget(mode, timeout_ms) == timeout_ms,
{
}

/// How long a step waits, if it waits.
pub open spec fn limit_of(step: StepView) -> Option<u64> {
    match step {
        StepView::AwaitPeer { limit_ms } => Some(limit_ms),
        StepView::Handshake { limit_ms } => Some(limit_ms),
        StepView::OpenStream { limit_ms } => Some(limit_ms),
        StepView::AcceptStream { limit_ms } => Some(limit_ms),
        _ => None,
    }
}

/// What every attempt satisfies: no more is left than there was, and a stage that
/// waits has something left to wait for.
pub open spec fn sound(a: AttemptView) -> bool {
    a.left_ms <= a.budget_ms && (a.timeout() is Some ==> a.left_ms > 0)
}

/// Every wait of an attempt is limited to what is left of its budget, which never
/// changes, while what is left never grows.
pub proof fn every_wait_is_bounded(a: AttemptView, event: AttemptEvent, spent_ms: u64)
    requires
        sound(a),
    ensures
        sound(a.next(event, spent_ms).0),
        a.next(event, spent_ms).0.budget_ms == a.budget_ms,
        a.next(event, spent_ms).0.side == a.side,
        a.next(event, spent_ms).0.left_ms <= a.left_ms,
        limit_of(a.next(event, spent_ms).1) matches Some(limit) ==> limit == a.next(
            event,
            spent_ms,
        ).0.left_ms && 0 < limit <= a.budget_ms,
{
}

/// How far a stage is along.
pub open spec fn rank(stage: Stage) -> int {
    match stage {
        Stage::Starting => 0,
        Stage::Arriving => 1,
        Stage::Handshaking => 2,
        Stage::Addressing => 3,
        Stage::Opening(_) => 4,
        Stage::Over => 5,
    }
}

/// An attempt never goes back a stage, and one that is over stays over and asks
/// for nothing.
pub proof fn attempt_only_advances(a: AttemptView, event: AttemptEvent, spent_ms: u64)
    ensures
        rank(a.next(event, spent_ms).0.stage) >= rank(a.stage),
        a.stage is Over ==> a.next(event, spent_ms) == (a, StepView::Over),
{
}

/// An attempt is over exactly when it has a connection or has failed.
pub proof fn attempt_ends_with_an_outcome(a: AttemptView, event: AttemptEvent, spent_ms: u64)
    requires
        !(a.stage is Over),
    ensures
        a.next(event, spent_ms).0.stage is Over <==> (a.next(event, spent_ms).1 is Done || a.next(
            event,
            spent_ms,
        ).1 is Failed),
{
}

/// Whatever is waited for, waiting too long ends the attempt with an error:
/// whether the wait was cut off, or its outcome came later than there was time.
pub proof fn no_wait_outlives_the_budget(a: AttemptView, event: AttemptEvent, spent_ms: u64)
    requires
        limit_of(a.todo()) is Some,
        event is TimedOut || spent_ms > a.left_ms,
    ensures
        a.next(event, spent_ms).1 is Failed,
        a.next(event, spent_ms).0.stage is Over,
{
}

/// Something that happened to an attempt, and how much time it took.
pub struct Timed {
    pub event: AttemptEvent,
    pub spent_ms: u64,
}

/// The attempt after a sequence of events, and what is to be done then.
pub open spec fn run(a: AttemptView, events: Seq<Timed>) -> (AttemptView, StepView)
    decreases events.len(),
{
    if events.len() == 0 {
        (a, a.todo())
    } else {
        run(a, events.drop_last()).0.next(events.last().event, events.last().spent_ms)
    }
}

/// How much time a sequence of events took.
pub open spec fn total_spent(events: Seq<Timed>) -> nat
    decreases events.len(),
{
    if events.len() == 0 {
        0
    } else {
        total_spent(events.drop_last()) + events.last().spent_ms as nat
    }
}

/// How much of a limit an event has used up. A wait is cut off at its limit.
pub open spec fn used_up(step: StepView, spent_ms: u64) -> nat {
    match limit_of(step) {
        Some(limit) => if spent_ms < limit {
            spent_ms as nat
        } else {
            limit as nat
        },
        None => 0,
    }
}

/// How much time an attempt has waited over a sequence of events.
pub open spec fn total_waited(a: AttemptView, events: Seq<Timed>) -> nat
    decreases events.len(),
{
    if events.len() == 0 {
        0
    } else {
        total_waited(a, events.drop_last()) + used_up(
            run(a, events.drop_last()).1,
            events.last().spent_ms,
        )
    }
}

/// An attempt that is about to start, with all of its budget.
pub open spec fn starting(side: SideView, budget_ms: u64) -> AttemptView {
    AttemptView { side, budget_ms, left_ms: budget_ms, stage: Stage::Starting }
}

proof fn run_keeps_account(side: SideView, budget_ms: u64, events: Seq<Timed>)
    ensures
        ({
            let (a, step) = run(starting(side, budget_ms), events);
            &&& sound(a)
            &&& a.budget_ms == budget_ms
            &&& !(a.stage is Over) ==> step == a.todo()
            &&& a.stage is Over ==> limit_of(step) is None
            &&& total_waited(starting(side, budget_ms), events) + a.left_ms <= budget_ms
            &&& !(a.stage is Over) ==> a.left_ms == 0 || total_spent(events) + a.left_ms
                == budget_ms
            &&& step is Done ==> total_spent(events) + a.left_ms == budget_ms
        }),
    decreases events.len(),
{
    if events.len() > 0 {
        run_keeps_account(side, budget_ms, events.drop_last());
    }
}

/// However an attempt goes, the time that it waits adds up to no more than its
/// budget, and so to no more than the caller's: what one wait uses up is gone for
/// the next.
pub proof fn waits_add_up_to_the_budget(
    side: SideView,
    mode: Mode,
    timeout_ms: u64,
    events: Seq<Timed>,
)
    ensures
        ({
            let budget_ms = crate::quic_stream::budget(mode, timeout_ms);
            &&& total_waited(starting(side, budget_ms), events) <= budget_ms
            &&& total_waited(starting(side, budget_ms), events) <= timeout_ms
        }),
{
    run_keeps_account(side, crate::quic_stream::budget(mode, timeout_ms), events);
}

/// An attempt that succeeds has taken no more than its budget from beginning to
/// end, what it did not wait for included, and so no more than the caller's.
pub proof fn success_comes_within_the_budget(
    side: SideView,
    mode: Mode,
    timeout_ms: u64,
    events: Seq<Timed>,
)
    requires
        run(starting(side, crate::quic_stream::budget(mode, timeout_ms)), events).1 is Done,
    ensures
        total_spent(events) <= crate::quic_stream::budget(mode, timeout_ms),
        total_spent(events) <= timeout_ms,
{
    run_keeps_account(side, crate::quic_stream::budget(mode, timeout_ms), events);
}

proof fn run_of_one_more(a: AttemptView, events: Seq<Timed>, next: Timed)
    ensures
        run(a, events.push(next)) == run(a, events).0.next(next.event, next.spent_ms),
        total_spent(events.push(next)) == total_spent(events) + next.spent_ms,
{
    assert(events.push(next).drop_last() == events);
}

/// What happens in an attempt in which nothing goes wrong, and when. The end that
/// dials has its handshake at once, the end that accepts waits for the peer first.
pub open spec fn undisturbed(
    side: SideView,
    local_addr: crate::net::SocketAddr,
    link: u64,
    times: Seq<u64>,
) -> Seq<Timed> {
    let started = seq![Timed { event: AttemptEvent::Started, spent_ms: times[0] }];
    let begin = match side {
        SideView::Dialing(_) => started,
        SideView::Accepting => started.push(
            Timed { event: AttemptEvent::Arrived, spent_ms: times[1] },
        ),
    };
    begin.push(Timed { event: AttemptEvent::Connected, spent_ms: times[2] }).push(
        Timed { event: AttemptEvent::LocalAddr(local_addr), spent_ms: times[3] },
    ).push(Timed { event: AttemptEvent::Opened(link), spent_ms: times[4] })
}

/// An attempt in which nothing goes wrong and that has time left for every wait
/// ends with the session stream, framed and not encrypted yet, at the endpoint's
/// address.
pub proof fn undisturbed_attempt_succeeds(
    side: SideView,
    budget_ms: u64,
    local_addr: crate::net::SocketAddr,
    link: u64,
    times: Seq<u64>,
)
    requires
        total_spent(undisturbed(side, local_addr, link, times).drop_last()) < budget_ms,
        total_spent(undisturbed(side, local_addr, link, times)) <= budget_ms,
    ensures
        run(starting(side, budget_ms), undisturbed(side, local_addr, link, times)).1
            == StepView::Done(crate::quic_stream::framed(link, local_addr)),
{
    let a = starting(side, budget_ms);
    let none = Seq::<Timed>::empty();
    let start = Timed { event: AttemptEvent::Started, spent_ms: times[0] };
    let arrive = Timed { event: AttemptEvent::Arrived, spent_ms: times[1] };
    let started = seq![start];
    assert(started == none.push(start));
    run_of_one_more(a, none, start);
    run_of_one_more(a, started, arrive);
    let begin = match side {
        SideView::Dialing(_) => started,
        SideView::Accepting => started.push(arrive),
    };
    let connect = Timed { event: AttemptEvent::Connected, spent_ms: times[2] };
    run_of_one_more(a, begin, connect);
    let connected = begin.push(connect);
    let addr = Timed { event: AttemptEvent::LocalAddr(local_addr), spent_ms: times[3] };
    run_of_one_more(a, connected, addr);
    let addressed = connected.push(addr);
    let open = Timed { event: AttemptEvent::Opened(link), spent_ms: times[4] };
    run_of_one_more(a, addressed, open);
    assert(undisturbed(side, local_addr, link, times).drop_last() == addressed);
    assert(run(a, begin).0.stage is Handshaking);
    assert(run(a, begin).0.left_ms + total_spent(begin) == budget_ms);
    assert(run(a, connected).0.stage is Addressing);
    assert(run(a, connected).0.left_ms + total_spent(connected) == budget_ms);
    assert(run(a, addressed).0.stage == Stage::Opening(local_addr));
}

/// Space around the option's text does not matter.
pub proof fn mode_ignores_space_around(before: Seq<char>, raw: Seq<char>, after: Seq<char>)
    requires
        crate::text_laws::all_whitespace(before),
        crate::text_laws::all_whitespace(after),
    ensures
        crate::quic_stream::mode_of(before + raw + after) == crate::quic_stream::mode_of(raw),
{
    crate::text_laws::trimming_drops_space_around(before, raw, after);
}

/// The case of ASCII letters in the option's text does not matter.
pub proof fn mode_ignores_case(raw: Seq<char>)
    ensures
        crate::quic_stream::mode_of(crate::text::ascii_lowercase(raw))
            == crate::quic_stream::mode_of(raw),
{
    crate::text_laws::lowercasing_commutes_with_trimming(raw);
    let t = crate::text::trimmed(raw);
    assert(crate::text::ascii_lowercase(crate::text::ascii_lowercase(t))
        == crate::text::ascii_lowercase(t)) by {
        assert forall|c: char| #[trigger] crate::text::ascii_lower(crate::text::ascii_lower(c))
            == crate::text::ascii_lower(c) by {
            crate::text_laws::lower_case_letter(c);
        }
    }
}

/// An option that is not set, or holds nothing but space, means the default.
pub proof fn blank_mode_is_auto(raw: Seq<char>)
    requires
        crate::text_laws::all_whitespace(raw),
    ensures
        crate::quic_stream::mode_of(raw) == Mode::Auto,
{
    reveal_strlit("quic");
    reveal_strlit("tcp");
    let empty = Seq::<char>::empty();
    assert(raw + empty + empty == raw);
    crate::text_laws::trimming_drops_space_around(raw, empty, empty);
    assert(crate::text::ascii_lowercase(crate::text::trimmed(raw)).len() == 0);
}

/// A text that is not documented means the default: no mistake in the option turns
/// QUIC off or makes it a must.
pub proof fn undocumented_mode_is_auto(raw: Seq<char>)
    requires
        !crate::quic_stream::documented(raw),
    ensures
        crate::quic_stream::mode_of(raw) == Mode::Auto,
{
}

/// A budget is the caller's own, but for one thing: where another transport may
/// follow it is no more than the probe. So a smaller one is given in full.
pub proof fn budget_is_the_smaller_of_the_two(mode: Mode, timeout_ms: u64, r: u64)
    requires
        call_ensures(budget_ms, (mode, timeout_ms), r),
    ensures
        mode != Mode::Auto ==> r == timeout_ms,
        mode == Mode::Auto ==> r <= timeout_ms && r <= 2000 && (r == timeout_ms || r == 2000),
        mode == Mode::Auto && timeout_ms < PROBE_TIMEOUT_MS ==> r == timeout_ms,
{
}

/// More time from the caller never means less for the attempt.
pub proof fn budget_grows_with_the_callers(mode: Mode, a: u64, b: u64, r: u64, q: u64)
    requires
        call_ensures(budget_ms, (mode, a), r),
        call_ensures(budget_ms, (mode, b), q),
        a <= b,
    ensures
        r <= q,
        q - r <= b - a,
{
}

/// A text is a word, in any case and with any space around.
pub open spec fn spells(raw: Seq<char>, word: Seq<char>) -> bool {
    exists|from: int, to: int|
        0 <= from <= to <= raw.len() && crate::text_laws::all_whitespace(raw.take(from))
            && crate::text_laws::all_whitespace(raw.skip(to)) && #[trigger] raw.subrange(
            from,
            to,
        ).len() == word.len() && forall|i: int|
            0 <= i < word.len() ==> crate::text::ascii_lower(#[trigger] raw[from + i]) == word[i]
}

/// A word without space in it.
pub open spec fn is_word(word: Seq<char>) -> bool {
    forall|i: int| 0 <= i < word.len() ==> !crate::text::is_whitespace(#[trigger] word[i])
}

proof fn spelling_by_view(raw: Seq<char>, word: Seq<char>)
    requires
        is_word(word),
    ensures
        spells(raw, word) <==> crate::text::ascii_lowercase(crate::text::trimmed(raw)) == word,
{
    let core = crate::text::trimmed(raw);
    let lower = crate::text::ascii_lowercase(core);
    let (from, to) = crate::text_laws::trimming_finds_the_core(raw);
    if lower == word {
        assert(raw.subrange(from, to).len() == word.len());
        assert forall|i: int| 0 <= i < word.len() implies crate::text::ascii_lower(
            #[trigger] raw[from + i],
        ) == word[i] by {
            assert(core[i] == raw[from + i]);
            assert(lower[i] == word[i]);
        }
        assert(spells(raw, word));
    }
    if spells(raw, word) {
        let (f, t) = choose|f: int, t: int|
            0 <= f <= t <= raw.len() && crate::text_laws::all_whitespace(raw.take(f))
                && crate::text_laws::all_whitespace(raw.skip(t)) && #[trigger] raw.subrange(
                f,
                t,
            ).len() == word.len() && forall|i: int|
                0 <= i < word.len() ==> crate::text::ascii_lower(#[trigger] raw[f + i])
                    == word[i];
        let mid = raw.subrange(f, t);
        assert(raw == raw.take(f) + mid + raw.skip(t));
        crate::text_laws::trimming_drops_space_around(raw.take(f), mid, raw.skip(t));
        assert forall|i: int| 0 <= i < mid.len() implies !crate::text::is_whitespace(
            #[trigger] mid[i],
        ) by {
            assert(mid[i] == raw[f + i]);
            crate::text_laws::lower_case_letter(raw[f + i]);
            assert(crate::text::ascii_lower(raw[f + i]) == word[i]);
        }
        crate::text_laws::word_is_its_own_core(mid);
        assert(lower =~= word) by {
            assert forall|i: int| 0 <= i < word.len() implies #[trigger] lower[i] == word[i] by {
                assert(mid[i] == raw[f + i]);
            }
        }
    }
}

/// The option's text picks QUIC or TCP exactly where it spells that word, and the
/// default otherwise; it is a documented one where it spells a mode or is blank.
pub proof fn mode_is_what_the_text_spells(
    raw: &str,
    parsed: Mode,
    in_force: Mode,
    enabled_at_all: bool,
    known: bool,
)
    requires
        call_ensures(parse_mode, (raw,), parsed),
        call_ensures(mode, (raw,), in_force),
        call_ensures(enabled, (raw,), enabled_at_all),
        call_ensures(is_documented, (raw,), known),
    ensures
        parsed == Mode::Quic <==> spells(raw@, "quic"@),
        parsed == Mode::Tcp <==> spells(raw@, "tcp"@),
        parsed == Mode::Auto <==> !spells(raw@, "quic"@) && !spells(raw@, "tcp"@),
        in_force == parsed,
        enabled_at_all <==> !spells(raw@, "tcp"@),
        known <==> spells(raw@, "quic"@) || spells(raw@, "tcp"@) || spells(raw@, "auto"@)
            || crate::text_laws::all_whitespace(raw@),
{
    reveal_strlit("quic");
    reveal_strlit("tcp");
    reveal_strlit("auto");
    spelling_by_view(raw@, "quic"@);
    spelling_by_view(raw@, "tcp"@);
    spelling_by_view(raw@, "auto"@);
    let core = crate::text::trimmed(raw@);
    let (from, to) = crate::text_laws::trimming_finds_the_core(raw@);
    assert(crate::text::ascii_lowercase(core).len() == core.len());
    if core.len() == 0 {
        assert(raw@ == raw@.take(from) + raw@.skip(to));
    }
    if crate::text_laws::all_whitespace(raw@) && core.len() > 0 {
        assert(core[0] == raw@[from]);
    }
    assert("quic"@[0] != "tcp"@[0]);
}

/// A transport other than QUIC is refused exactly where QUIC was asked for and the
/// attempt has not failed already, and its name is told.
pub proof fn only_quic_will_do_where_it_was_asked_for(
    option: &str,
    typ: &str,
    r: Result<(), QuicError>,
)
    requires
        call_ensures(require, (option, typ), r),
    ensures
        r is Err <==> spells(option@, "quic"@) && typ@.len() > 0 && typ@ != "QUIC"@,
        r matches Err(e) ==> e.words()
            == "transport-mode is \"quic\" but the connection fell back to "@
            + crate::text::quoted(typ@),
{
    reveal_strlit("quic");
    spelling_by_view(option@, "quic"@);
}

/// The words for an error with a cause are those without one, and then the cause as
/// it is.
pub proof fn causes_are_told_in_full(cause: String, none: String)
    requires
        none@.len() == 0,
    ensures
        QuicError::PayloadSize(cause).words() == QuicError::PayloadSize(none).words() + cause@,
        QuicError::IdleTimeout(cause).words() == QuicError::IdleTimeout(none).words() + cause@,
        QuicError::EndpointStart(cause).words() == QuicError::EndpointStart(none).words() + cause@,
        QuicError::ClientTls(cause).words() == QuicError::ClientTls(none).words() + cause@,
        QuicError::ClientCrypto(cause).words() == QuicError::ClientCrypto(none).words() + cause@,
        QuicError::Certificate(cause).words() == QuicError::Certificate(none).words() + cause@,
        QuicError::ServerTls(cause).words() == QuicError::ServerTls(none).words() + cause@,
        QuicError::ServerCertificate(cause).words() == QuicError::ServerCertificate(none).words()
            + cause@,
        QuicError::ServerCrypto(cause).words() == QuicError::ServerCrypto(none).words() + cause@,
        QuicError::HandshakeStart(cause).words() == QuicError::HandshakeStart(none).words()
            + cause@,
        QuicError::OpenFailed(cause).words() == "failed to open the QUIC session stream: "@
            + cause@,
        QuicError::AcceptFailed(cause).words() == "failed to accept the QUIC session stream: "@
            + cause@,
        QuicError::PeerHandshakeFailed(cause).words()
            == "the QUIC handshake with the controller failed: "@ + cause@,
{
    assert(none@ == Seq::<char>::empty());
}

/// Errors with a peer or a budget tell both as they are.
pub proof fn peers_and_budgets_are_told(peer: String, cause: String, ms: u64)
    ensures
        (QuicError::HandshakeFailed { peer, cause }).words() == "QUIC handshake with "@ + peer@
            + " failed: "@ + cause@,
        (QuicError::HandshakeTimedOut { peer, budget_ms: ms }).words() == "QUIC handshake with "@
            + peer@ + " timed out after "@ + crate::text::decimal_text(ms as nat) + " ms"@,
        QuicError::OpenTimedOut(ms).words() == "the QUIC session stream did not open within "@
            + crate::text::decimal_text(ms as nat) + " ms"@,
        QuicError::NoPeer(ms).words() == "no QUIC connection arrived within "@
            + crate::text::decimal_text(ms as nat) + " ms"@,
        QuicError::PeerHandshakeTimedOut(ms).words()
            == "the QUIC handshake did not complete within "@ + crate::text::decimal_text(
            ms as nat,
        ) + " ms"@,
        QuicError::AcceptTimedOut(ms).words()
            == "the controller did not open a QUIC session stream within "@
            + crate::text::decimal_text(ms as nat) + " ms"@,
        QuicError::FellBack(peer).words()
            == "transport-mode is \"quic\" but the connection fell back to "@
            + crate::text::quoted(peer@),
{
}

/// A message is the error's words.
pub proof fn quic_errors_speak(e: &QuicError, r: String)
    requires
        call_ensures(QuicError::message, (e,), r),
    ensures
        r@ == e.words(),
{
}

/// A step is seen as what it is, an error by its words.
pub proof fn quic_step_is_seen_as_it_is(step: QuicStep)
    ensures
        match step {
            QuicStep::Start => step@ == StepView::Start,
            QuicStep::AwaitPeer { limit_ms } => step@ == (StepView::AwaitPeer { limit_ms }),
            QuicStep::Handshake { limit_ms } => step@ == (StepView::Handshake { limit_ms }),
            QuicStep::ReadLocalAddr => step@ == StepView::ReadLocalAddr,
            QuicStep::OpenStream { limit_ms } => step@ == (StepView::OpenStream { limit_ms }),
            QuicStep::AcceptStream { limit_ms } => step@ == (StepView::AcceptStream { limit_ms }),
            QuicStep::Done(stream) => step@ == StepView::Done(stream@),
            QuicStep::Failed(e) => step@ == StepView::Failed(e.words()),
            QuicStep::Over => step@ == StepView::Over,
        },
{
}

/// Dialling takes a peer, gets the budget that the mode gives it, all of it still
/// there, and begins with setting the endpoint up.
pub proof fn beginning_to_dial(
    option: &str,
    timeout_ms: u64,
    peer: Option<String>,
    r: Result<Attempt, QuicError>,
)
    requires
        call_ensures(connect, (option, timeout_ms, peer), r),
    ensures
        match peer {
            Some(peer) => r matches Ok(a) && {
                &&& a@.side == SideView::Dialing(peer@)
                &&& a@.stage is Starting
                &&& a@.left_ms == a@.budget_ms
                &&& a@.budget_ms == if !spells(option@, "quic"@) && !spells(option@, "tcp"@)
                    && timeout_ms > 2000 {
                    2000
                } else {
                    timeout_ms
                }
            },
            None => r == Err::<Attempt, QuicError>(QuicError::NotPunched),
        },
{
    reveal_strlit("quic");
    reveal_strlit("tcp");
    spelling_by_view(option@, "quic"@);
    spelling_by_view(option@, "tcp"@);
}

/// Waiting for the peer gets the budget that the mode gives it, all of it still
/// there, and begins with setting the endpoint up.
pub proof fn beginning_to_accept(option: &str, timeout_ms: u64, r: Attempt)
    requires
        call_ensures(accept, (option, timeout_ms), r),
    ensures
        r@.side == SideView::Accepting,
        r@.stage is Starting,
        r@.left_ms == r@.budget_ms,
        r@.budget_ms == if !spells(option@, "quic"@) && !spells(option@, "tcp"@) && timeout_ms
            > 2000 {
            2000
        } else {
            timeout_ms
        },
{
    reveal_strlit("quic");
    reveal_strlit("tcp");
    spelling_by_view(option@, "quic"@);
    spelling_by_view(option@, "tcp"@);
}

/// What is to be done goes by the stage, and a wait gets what is left.
pub proof fn what_is_to_be_done(a: &Attempt, r: QuicStep)
    requires
        call_ensures(Attempt::todo, (a,), r),
    ensures
        r@ == match (a@.stage, a@.side) {
            (Stage::Starting, _) => StepView::Start,
            (Stage::Arriving, _) => StepView::AwaitPeer { limit_ms: a@.left_ms },
            (Stage::Handshaking, _) => StepView::Handshake { limit_ms: a@.left_ms },
            (Stage::Addressing, _) => StepView::ReadLocalAddr,
            (Stage::Opening(_), SideView::Dialing(_)) => StepView::OpenStream {
                limit_ms: a@.left_ms,
            },
            (Stage::Opening(_), SideView::Accepting) => StepView::AcceptStream {
                limit_ms: a@.left_ms,
            },
            (Stage::Over, _) => StepView::Over,
        },
{
}

/// What a stage that waits is reported as when the time is up, which names the
/// whole budget. The others do not wait.
pub open spec fn time_is_up(stage: Stage, side: SideView, budget_ms: u64) -> Option<Seq<char>> {
    let ms = crate::text::decimal_text(budget_ms as nat) + " ms"@;
    match stage {
        Stage::Arriving => Some("no QUIC connection arrived within "@ + ms),
        Stage::Handshaking => Some(
            match side {
                SideView::Dialing(peer) => "QUIC handshake with "@ + peer + " timed out after "@
                    + ms,
                SideView::Accepting => "the QUIC handshake did not complete within "@ + ms,
            },
        ),
        Stage::Opening(_) => Some(
            match side {
                SideView::Dialing(_) => "the QUIC session stream did not open within "@ + ms,
                SideView::Accepting =>
                    "the controller did not open a QUIC session stream within "@ + ms,
            },
        ),
        _ => None,
    }
}

/// The time was taken off the budget, and nothing else of the attempt changed but
/// the stage.
pub open spec fn time_was_taken(before: AttemptView, after: AttemptView, spent_ms: u64) -> bool {
    &&& after.side == before.side
    &&& after.budget_ms == before.budget_ms
    &&& after.left_ms == if spent_ms > before.left_ms {
        0
    } else {
        before.left_ms - spent_ms
    }
}

/// The attempt failed with these words.
pub open spec fn failed_with(after: AttemptView, r: QuicStep, words: Seq<char>) -> bool {
    after.stage is Over && (r matches QuicStep::Failed(e) && e.words() == words)
}

/// The attempt is in a stage, with what is left for its wait; where nothing is left
/// for one, it failed for that.
pub open spec fn is_in(after: AttemptView, r: QuicStep, stage: Stage) -> bool {
    match time_is_up(stage, after.side, after.budget_ms) {
        Some(words) => if after.left_ms == 0 {
            failed_with(after, r, words)
        } else {
            after.stage == stage && match (stage, after.side) {
                (Stage::Arriving, _) => r matches QuicStep::AwaitPeer { limit_ms } && limit_ms
                    == after.left_ms,
                (Stage::Handshaking, _) => r matches QuicStep::Handshake { limit_ms } && limit_ms
                    == after.left_ms,
                (_, SideView::Dialing(_)) => r matches QuicStep::OpenStream { limit_ms }
                    && limit_ms == after.left_ms,
                (_, SideView::Accepting) => r matches QuicStep::AcceptStream { limit_ms }
                    && limit_ms == after.left_ms,
            }
        },
        None => after.stage == stage && match stage {
            Stage::Starting => r is Start,
            _ => r is ReadLocalAddr,
        },
    }
}

/// An attempt that is over takes no event, and no time.
pub proof fn nothing_happens_to_an_attempt_that_is_over(
    a: &mut Attempt,
    event: AttemptEvent,
    spent_ms: u64,
    r: QuicStep,
)
    requires
        call_ensures(Attempt::step, (a, event, spent_ms), r),
        old(a)@.stage is Over,
    ensures
        final(a)@ == old(a)@,
        r is Over,
{
}

/// While the endpoint is set up: once it is, the dialling end waits for the
/// handshake and the other for the peer; an error of the set-up is handed on.
pub proof fn setting_up(a: &mut Attempt, event: AttemptEvent, spent_ms: u64, r: QuicStep)
    requires
        call_ensures(Attempt::step, (a, event, spent_ms), r),
        old(a)@.stage is Starting,
    ensures
        time_was_taken(old(a)@, final(a)@, spent_ms),
        match event {
            AttemptEvent::Started => is_in(
                final(a)@,
                r,
                if old(a)@.side is Dialing {
                    Stage::Handshaking
                } else {
                    Stage::Arriving
                },
            ),
            AttemptEvent::SetupFailed(e) => failed_with(final(a)@, r, e.words()),
            _ => is_in(final(a)@, r, Stage::Starting),
        },
{
}

/// While the peer is waited for: once it is there the handshake follows, if it came
/// in time; an endpoint that is closed ends it.
pub proof fn waiting_for_the_peer(a: &mut Attempt, event: AttemptEvent, spent_ms: u64, r: QuicStep)
    requires
        call_ensures(Attempt::step, (a, event, spent_ms), r),
        old(a)@.stage is Arriving,
    ensures
        time_was_taken(old(a)@, final(a)@, spent_ms),
        ({
            let up = time_is_up(Stage::Arriving, old(a)@.side, old(a)@.budget_ms);
            match event {
                AttemptEvent::Closed => failed_with(
                    final(a)@,
                    r,
                    "the QUIC endpoint closed before a peer connected"@,
                ),
                _ if event is TimedOut || spent_ms > old(a)@.left_ms => up matches Some(words)
                    && failed_with(final(a)@, r, words),
                AttemptEvent::Arrived => is_in(final(a)@, r, Stage::Handshaking),
                _ => is_in(final(a)@, r, Stage::Arriving),
            }
        }),
{
}

/// While the handshake is waited for: once it is done the endpoint's address is
/// read, if it was in time; a failure is told with its cause.
pub proof fn waiting_for_the_handshake(
    a: &mut Attempt,
    event: AttemptEvent,
    spent_ms: u64,
    r: QuicStep,
)
    requires
        call_ensures(Attempt::step, (a, event, spent_ms), r),
        old(a)@.stage is Handshaking,
    ensures
        time_was_taken(old(a)@, final(a)@, spent_ms),
        ({
            let up = time_is_up(Stage::Handshaking, old(a)@.side, old(a)@.budget_ms);
            match event {
                AttemptEvent::Failed(cause) => failed_with(
                    final(a)@,
                    r,
                    match old(a)@.side {
                        SideView::Dialing(peer) => "QUIC handshake with "@ + peer + " failed: "@
                            + cause@,
                        SideView::Accepting => "the QUIC handshake with the controller failed: "@
                            + cause@,
                    },
                ),
                _ if event is TimedOut || spent_ms > old(a)@.left_ms => up matches Some(words)
                    && failed_with(final(a)@, r, words),
                AttemptEvent::Connected => is_in(final(a)@, r, Stage::Addressing),
                _ => is_in(final(a)@, r, Stage::Handshaking),
            }
        }),
{
}

/// While the endpoint's address is read, which is no wait: once it is there the
/// session stream is opened on it.
pub proof fn reading_the_address(a: &mut Attempt, event: AttemptEvent, spent_ms: u64, r: QuicStep)
    requires
        call_ensures(Attempt::step, (a, event, spent_ms), r),
        old(a)@.stage is Addressing,
    ensures
        time_was_taken(old(a)@, final(a)@, spent_ms),
        match event {
            AttemptEvent::LocalAddr(addr) => is_in(final(a)@, r, Stage::Opening(addr)),
            AttemptEvent::Failed(_) => failed_with(
                final(a)@,
                r,
                "failed to read the QUIC endpoint's address"@,
            ),
            _ => is_in(final(a)@, r, Stage::Addressing),
        },
{
}

/// While the session stream is waited for: once it is open, in time, it is the
/// session, framed, at the endpoint's address, with neither a state nor a timeout;
/// a failure is told with its cause.
pub proof fn waiting_for_the_stream(
    a: &mut Attempt,
    event: AttemptEvent,
    spent_ms: u64,
    r: QuicStep,
    addr: SocketAddr,
)
    requires
        call_ensures(Attempt::step, (a, event, spent_ms), r),
        old(a)@.stage == Stage::Opening(addr),
    ensures
        time_was_taken(old(a)@, final(a)@, spent_ms),
        ({
            let up = time_is_up(Stage::Opening(addr), old(a)@.side, old(a)@.budget_ms);
            match event {
                AttemptEvent::Failed(cause) => failed_with(
                    final(a)@,
                    r,
                    match old(a)@.side {
                        SideView::Dialing(_) => "failed to open the QUIC session stream: "@
                            + cause@,
                        SideView::Accepting => "failed to accept the QUIC session stream: "@
                            + cause@,
                    },
                ),
                _ if event is TimedOut || spent_ms > old(a)@.left_ms => up matches Some(words)
                    && failed_with(final(a)@, r, words),
                AttemptEvent::Opened(link) => final(a)@.stage is Over && (r matches QuicStep::Done(
                    Stream::Tcp(f),
                ) && f.0.id == link && !f.0.raw && f.1 == addr && f.2 is None && f.3 == 0),
                _ => is_in(final(a)@, r, Stage::Opening(addr)),
            }
        }),
{
}

/// A session over a byte stream goes by the number and the address given.
pub proof fn new_session_stream(link: u64, addr: SocketAddr, r: Stream)
    requires
        call_ensures(create_framed, (link, addr), r),
    ensures
        r matches Stream::Tcp(f) && f.0.id == link && !f.0.raw && f.1 == addr && f.2 is None && f.3
            == 0,
{
}

/// The settings are those that the path was measured for: packets that are sent and
/// accepted fit it, nothing larger is tried, and the connection is kept alive well
/// within the time after which it is given up.
pub proof fn settings_fit_the_path(
    r: Result<TransportSettings, QuicError>,
    q: Result<quinn::EndpointConfig, QuicError>,
)
    requires
        call_ensures(transport_config, (), r),
        call_ensures(endpoint_config, (), q),
    ensures
        r matches Ok(t) && t.initial_mtu == 1447 && !t.mtu_discovery && t.keep_alive_secs == 5
            && t.idle_timeout_secs == 30,
        q matches Ok(config) && crate::quic_stream::payload_size_of(config) == 1447,
{
}

/// A datagram goes out alone: whole, and with no other in it.
pub proof fn datagrams_go_out_alone(
    segment_size: Option<usize>,
    len: usize,
    r: Result<(), TransmitError>,
    sent: usize,
    q: Result<(), TransmitError>,
)
    requires
        call_ensures(check_transmit, (segment_size, len), r),
        call_ensures(check_sent, (sent, len), q),
    ensures
        r is Ok <==> (segment_size matches Some(size) ==> size == len),
        r matches Err(e) ==> e == TransmitError::Coalesced,
        q is Ok <==> sent == len,
        q matches Err(e) ==> e == (TransmitError::Short { sent, len }),
{
}

/// A datagram that came in is reported with its length and the peer, if there is
/// one and room for the report.
pub proof fn datagrams_are_reported<E>(
    has_room: bool,
    len: usize,
    peer: Result<SocketAddr, E>,
    r: Result<Option<Datagram>, E>,
)
    requires
        call_ensures(received::<E>, (has_room, len, peer), r),
    ensures
        if has_room && len > 0 {
            match peer {
                Ok(addr) => r matches Ok(Some(d)) && d.addr == addr && d.len == len && d.stride
                    == len,
                Err(e) => r == Err::<Option<Datagram>, E>(e),
            }
        } else {
            r matches Ok(None)
        },
{
}

/// Errors of sending tell how much went out of how much.
pub proof fn transmit_errors_speak(e: &TransmitError, r: String)
    requires
        call_ensures(TransmitError::message, (e,), r),
    ensures
        *e matches TransmitError::Short { sent, len } ==> r@ == "short UDP send: "@
            + crate::text::decimal_text(sent as nat) + " of "@ + crate::text::decimal_text(
            len as nat,
        ),
        *e is Coalesced ==> r@ == "coalesced UDP transmits are not supported"@,
{
}

} // verus!
