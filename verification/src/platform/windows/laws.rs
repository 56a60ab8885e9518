//! What holds of every exchange between a procedure and the windowing system.
//!
//! An exchange is the sequence of replies that a procedure was given. The laws
//! quantify over all of them: nothing is assumed of how the windowing system
//! answers.

use vstd::prelude::*;
use crate::platform::windows::{
    IntegrationError, Outcome, Reply, Request, WindowHandle, HWND_TOPMOST, MAX_ATTEMPTS,
    RETRY_DELAY_MS, WS_EX_NOACTIVATE, WS_EX_TOOLWINDOW,
};
use crate::platform::windows::procedure::{
    begin, desktop_style, has_succeeded, next, outcome_of, placement_flags, request_of, Goal,
    Procedure, Stage,
};

verus! {

/// The procedure `p` after it was given `replies`, one after the other.
pub open spec fn run(p: Procedure, replies: Seq<Reply>) -> Procedure
    decreases replies.len(),
{
    if replies.len() == 0 {
        p
    } else {
        next(run(p, replies.drop_last()), replies.last())
    }
}

/// How often `p` stood at `stage` while it was given `replies`, the start and
/// the end included: that is how often it made the request of that stage.
pub open spec fn visits(p: Procedure, replies: Seq<Reply>, stage: Stage) -> nat
    decreases replies.len(),
{
    let here = if run(p, replies).stage == stage {
        1nat
    } else {
        0nat
    };
    if replies.len() == 0 {
        here
    } else {
        visits(p, replies.drop_last(), stage) + here
    }
}

/// What a procedure's fields say of each other at every stage that it can
/// reach from its start.
pub open spec fn consistent(p: Procedure) -> bool {
    let searching = p.shell.raw != 0 && p.host.raw == 0 && !p.parented;
    let styled = p.goal == Goal::Widget && p.style_after == desktop_style(p.style_before);
    let scanning = if p.goal == Goal::Wallpaper {
        p.attempts == 0
    } else {
        p.attempts >= 1
    };
    &&& p.attempts <= MAX_ATTEMPTS
    &&& p.parented ==> p.host.raw != 0
    &&& match p.stage {
        Stage::ShellLookup => p.attempts == 0 && p.shell.raw == 0 && p.host.raw == 0,
        Stage::WorkerRequest => searching && p.attempts == 0,
        Stage::Settle => searching && p.attempts == 0 && p.goal == Goal::Wallpaper,
        Stage::FirstWorker => searching && scanning,
        Stage::NextWorker => searching && scanning && p.candidate.raw != 0,
        Stage::IconProbe => searching && scanning && p.candidate.raw != 0,
        Stage::Backoff => searching && p.attempts >= 2,
        Stage::ShellProbe => searching && (if p.goal == Goal::Wallpaper {
            p.attempts >= 1
        } else {
            p.attempts == MAX_ATTEMPTS
        }),
        Stage::Reparent => p.goal != Goal::Locate && p.host.raw != 0 && !p.parented,
        Stage::StyleRead => p.goal == Goal::Widget,
        Stage::StyleWrite => styled,
        Stage::Position => styled,
        Stage::Finished(Outcome::Located) => p.goal == Goal::Locate && p.host.raw != 0
            && !p.parented,
        Stage::Finished(Outcome::Reparented) => p.goal != Goal::Locate && p.parented && (p.goal
            == Goal::Widget ==> styled),
        Stage::Finished(Outcome::StyleOnly) => styled && !p.parented,
        Stage::Finished(Outcome::Failed(IntegrationError::ShellNotFound)) => p.goal
            != Goal::Widget && p.shell.raw == 0 && p.host.raw == 0 && p.attempts == 0,
        Stage::Finished(Outcome::Failed(IntegrationError::WorkerNotFound)) => p.goal
            != Goal::Widget && p.host.raw == 0 && p.attempts == MAX_ATTEMPTS,
        Stage::Finished(Outcome::Failed(IntegrationError::ReparentRejected)) => p.goal
            == Goal::Wallpaper && p.host.raw != 0 && !p.parented,
        Stage::Finished(Outcome::Failed(IntegrationError::StyleOrPositionRejected)) => styled,
    }
}

proof fn lemma_step_consistent(p: Procedure, reply: Reply)
    requires
        consistent(p),
    ensures
        consistent(next(p, reply)),
        next(p, reply).goal == p.goal,
        next(p, reply).window == p.window,
{
}

/// Every state that a procedure reaches is consistent, and it keeps its goal
/// and its window.
pub proof fn law_every_state_consistent(goal: Goal, window: WindowHandle, replies: Seq<Reply>)
    ensures
        consistent(run(begin(goal, window), replies)),
        run(begin(goal, window), replies).goal == goal,
        run(begin(goal, window), replies).window == window,
    decreases replies.len(),
{
    if replies.len() > 0 {
        law_every_state_consistent(goal, window, replies.drop_last());
        lemma_step_consistent(run(begin(goal, window), replies.drop_last()), replies.last());
    }
}

/// The stage at which a procedure makes an attempt of its polled search: a
/// probe under the shell window for a wallpaper, the start of a scan of the
/// top-level workers for the other goals.
pub open spec fn polled_stage(goal: Goal) -> Stage {
    match goal {
        Goal::Wallpaper => Stage::ShellProbe,
        _ => Stage::FirstWorker,
    }
}

/// Whether a procedure has not yet come past its polled search.
spec fn is_polling(p: Procedure) -> bool {
    p.stage == Stage::ShellLookup || p.stage == Stage::WorkerRequest || p.stage == Stage::Settle
        || p.stage == Stage::FirstWorker || p.stage == Stage::NextWorker || p.stage
        == Stage::IconProbe || p.stage == Stage::Backoff
}

/// The attempt budget. However the windowing system answers, a procedure
/// makes at most `MAX_ATTEMPTS` attempts of its polled search, the first one
/// counted: its counter tells how many were made, one of them still due while
/// it pauses. It reports that no worker was found only after it has made all
/// of them. Between two attempts it pauses once, for `RETRY_DELAY_MS`.
pub proof fn law_probe_budget(goal: Goal, window: WindowHandle, replies: Seq<Reply>)
    ensures
        visits(begin(goal, window), replies, polled_stage(goal)) == (if run(
            begin(goal, window),
            replies,
        ).stage == Stage::Backoff {
            run(begin(goal, window), replies).attempts - 1
        } else {
            run(begin(goal, window), replies).attempts as int
        }),
        visits(begin(goal, window), replies, polled_stage(goal)) <= MAX_ATTEMPTS,
        outcome_of(run(begin(goal, window), replies)) == Some(
            Outcome::Failed(IntegrationError::WorkerNotFound),
        ) ==> visits(begin(goal, window), replies, polled_stage(goal)) == MAX_ATTEMPTS,
        visits(begin(goal, window), replies, Stage::Backoff) == (if run(
            begin(goal, window),
            replies,
        ).attempts == 0 {
            0
        } else {
            run(begin(goal, window), replies).attempts - 1
        }),
        visits(begin(goal, window), replies, Stage::Backoff) < MAX_ATTEMPTS,
        run(begin(goal, window), replies).stage == Stage::Backoff ==> request_of(
            run(begin(goal, window), replies),
        ) == Some(Request::Sleep { millis: RETRY_DELAY_MS }),
    decreases replies.len(),
{
    law_every_state_consistent(goal, window, replies);
    if replies.len() > 0 {
        law_probe_budget(goal, window, replies.drop_last());
        law_every_state_consistent(goal, window, replies.drop_last());
    }
}

proof fn lemma_single_fallback(goal: Goal, window: WindowHandle, replies: Seq<Reply>)
    ensures
        goal == Goal::Wallpaper ==> visits(begin(goal, window), replies, Stage::FirstWorker) <= 1,
        goal != Goal::Wallpaper ==> visits(begin(goal, window), replies, Stage::ShellProbe) <= 1,
        goal != Goal::Wallpaper && is_polling(run(begin(goal, window), replies)) ==> visits(
            begin(goal, window),
            replies,
            Stage::ShellProbe,
        ) == 0,
        goal == Goal::Wallpaper && (run(begin(goal, window), replies).stage == Stage::ShellLookup
            || run(begin(goal, window), replies).stage == Stage::WorkerRequest || run(
            begin(goal, window),
            replies,
        ).stage == Stage::Settle) ==> visits(begin(goal, window), replies, Stage::FirstWorker)
            == 0,
    decreases replies.len(),
{
    law_every_state_consistent(goal, window, replies);
    if replies.len() > 0 {
        lemma_single_fallback(goal, window, replies.drop_last());
        law_every_state_consistent(goal, window, replies.drop_last());
    }
}

/// What is not polled is asked once at most. A wallpaper scans the top-level
/// workers once, before it polls under the shell window; the other goals ask
/// for the worker under the shell window once, after their scans.
pub proof fn law_single_fallback(goal: Goal, window: WindowHandle, replies: Seq<Reply>)
    ensures
        goal == Goal::Wallpaper ==> visits(begin(goal, window), replies, Stage::FirstWorker) <= 1,
        goal != Goal::Wallpaper ==> visits(begin(goal, window), replies, Stage::ShellProbe) <= 1,
{
    lemma_single_fallback(goal, window, replies);
}

/// The windowing system was asked, as request number `k` of the exchange, to
/// make a worker the parent of the procedure's window, and accepted.
pub open spec fn reparent_accepted_at(start: Procedure, replies: Seq<Reply>, k: int) -> bool {
    let asking = run(start, replies.take(k));
    &&& 0 <= k < replies.len()
    &&& asking.host.raw != 0
    &&& request_of(asking) == Some(Request::SetParent { child: start.window, parent: asking.host })
    &&& replies[k].window_of().raw != 0
}

/// The windowing system reported `before` as the extended style of the
/// procedure's window, was asked next, as request number `k`, to replace it by
/// `after`, and accepted.
pub open spec fn style_written_at(
    start: Procedure,
    replies: Seq<Reply>,
    k: int,
    before: u32,
    after: u32,
) -> bool {
    &&& 1 <= k < replies.len()
    &&& request_of(run(start, replies.take(k - 1))) == Some(
        Request::GetExStyle { window: start.window },
    )
    &&& replies[k - 1].style_of() == before
    &&& request_of(run(start, replies.take(k))) == Some(
        Request::SetExStyle { window: start.window, style: after },
    )
    &&& replies[k].accepted_of()
}

/// The windowing system was asked, as request number `k`, to raise the
/// procedure's window to the topmost band without moving, resizing or
/// activating it, and accepted.
pub open spec fn raised_at(start: Procedure, replies: Seq<Reply>, k: int) -> bool {
    &&& 0 <= k < replies.len()
    &&& request_of(run(start, replies.take(k))) == Some(
        Request::SetPosition {
            window: start.window,
            insert_after: HWND_TOPMOST,
            flags: placement_flags(),
        },
    )
    &&& replies[k].accepted_of()
}

proof fn lemma_shorter_prefix(replies: Seq<Reply>, k: int)
    requires
        0 <= k < replies.len(),
    ensures
        replies.drop_last().take(k) == replies.take(k),
        replies.take(replies.len() - 1) == replies.drop_last(),
        k < replies.len() - 1 ==> replies.drop_last()[k] == replies[k],
{
    assert(replies.drop_last().take(k) =~= replies.take(k));
    assert(replies.take(replies.len() - 1) =~= replies.drop_last());
}

proof fn lemma_parented_was_accepted(goal: Goal, window: WindowHandle, replies: Seq<Reply>)
    ensures
        run(begin(goal, window), replies).parented ==> exists|k: int|
            reparent_accepted_at(begin(goal, window), replies, k),
    decreases replies.len(),
{
    let start = begin(goal, window);
    if replies.len() > 0 && run(start, replies).parented {
        let shorter = replies.drop_last();
        let last = replies.len() - 1;
        law_every_state_consistent(goal, window, shorter);
        if run(start, shorter).parented {
            lemma_parented_was_accepted(goal, window, shorter);
            let k = choose|k: int| reparent_accepted_at(start, shorter, k);
            lemma_shorter_prefix(replies, k);
            assert(reparent_accepted_at(start, replies, k));
        } else {
            lemma_shorter_prefix(replies, last);
            assert(reparent_accepted_at(start, replies, last));
        }
    }
}

proof fn lemma_accepted_is_parented(
    goal: Goal,
    window: WindowHandle,
    replies: Seq<Reply>,
    k: int,
)
    requires
        reparent_accepted_at(begin(goal, window), replies, k),
    ensures
        run(begin(goal, window), replies).parented,
    decreases replies.len(),
{
    let start = begin(goal, window);
    let shorter = replies.drop_last();
    law_every_state_consistent(goal, window, shorter);
    lemma_shorter_prefix(replies, k);
    if k < replies.len() - 1 {
        assert(reparent_accepted_at(start, shorter, k));
        lemma_accepted_is_parented(goal, window, shorter, k);
    }
}

/// Whether the style of a widget has been written and accepted.
spec fn style_is_written(p: Procedure) -> bool {
    p.goal == Goal::Widget && (p.stage == Stage::Position || p.stage == Stage::Finished(
        Outcome::Reparented,
    ) || p.stage == Stage::Finished(Outcome::StyleOnly))
}

proof fn lemma_written_style(window: WindowHandle, replies: Seq<Reply>)
    ensures
        style_is_written(run(begin(Goal::Widget, window), replies)) ==> exists|k: int|
            style_written_at(
                begin(Goal::Widget, window),
                replies,
                k,
                run(begin(Goal::Widget, window), replies).style_before,
                run(begin(Goal::Widget, window), replies).style_after,
            ),
    decreases replies.len(),
{
    let start = begin(Goal::Widget, window);
    let end = run(start, replies);
    if replies.len() > 0 && style_is_written(end) {
        let shorter = replies.drop_last();
        let last = replies.len() - 1;
        law_every_state_consistent(Goal::Widget, window, shorter);
        if style_is_written(run(start, shorter)) {
            lemma_written_style(window, shorter);
            let k = choose|k: int|
                style_written_at(start, shorter, k, end.style_before, end.style_after);
            lemma_shorter_prefix(replies, k);
            lemma_shorter_prefix(replies, k - 1);
            assert(style_written_at(start, replies, k, end.style_before, end.style_after));
        } else {
            // The write was accepted just now; the read came right before it.
            assert(run(start, shorter).stage == Stage::StyleWrite);
            assert(shorter.len() > 0);
            law_every_state_consistent(Goal::Widget, window, shorter.drop_last());
            lemma_shorter_prefix(replies, last);
            lemma_shorter_prefix(replies, last - 1);
            lemma_shorter_prefix(shorter, last - 1);
            assert(run(start, shorter.drop_last()).stage == Stage::StyleRead);
            assert(style_written_at(start, replies, last, end.style_before, end.style_after));
        }
    }
}

proof fn lemma_success_was_raised(window: WindowHandle, replies: Seq<Reply>)
    ensures
        has_succeeded(run(begin(Goal::Widget, window), replies)) ==> exists|k: int|
            raised_at(begin(Goal::Widget, window), replies, k),
    decreases replies.len(),
{
    let start = begin(Goal::Widget, window);
    let end = run(start, replies);
    law_every_state_consistent(Goal::Widget, window, replies);
    if replies.len() > 0 && has_succeeded(end) {
        let shorter = replies.drop_last();
        let last = replies.len() - 1;
        law_every_state_consistent(Goal::Widget, window, shorter);
        if outcome_of(run(start, shorter)) is Some {
            lemma_success_was_raised(window, shorter);
            let k = choose|k: int| raised_at(start, shorter, k);
            lemma_shorter_prefix(replies, k);
            assert(raised_at(start, replies, k));
        } else {
            lemma_shorter_prefix(replies, last);
            assert(raised_at(start, replies, last));
        }
    }
}

/// A window gets a new parent at most once, and not at all where the
/// procedure fails for want of a shell window or of a worker: the request is
/// made once if a desktop host was found for a window, and never otherwise.
pub proof fn law_reparent_at_most_once(goal: Goal, window: WindowHandle, replies: Seq<Reply>)
    ensures
        visits(begin(goal, window), replies, Stage::Reparent) == (if goal != Goal::Locate && run(
            begin(goal, window),
            replies,
        ).host.raw != 0 {
            1nat
        } else {
            0nat
        }),
        outcome_of(run(begin(goal, window), replies)) == Some(
            Outcome::Failed(IntegrationError::ShellNotFound),
        ) || outcome_of(run(begin(goal, window), replies)) == Some(
            Outcome::Failed(IntegrationError::WorkerNotFound),
        ) ==> visits(begin(goal, window), replies, Stage::Reparent) == 0,
    decreases replies.len(),
{
    law_every_state_consistent(goal, window, replies);
    if replies.len() > 0 {
        law_reparent_at_most_once(goal, window, replies.drop_last());
        law_every_state_consistent(goal, window, replies.drop_last());
    }
}

/// Success means an accepted request for a new parent. Putting a window
/// behind the desktop icons succeeds only as `Reparented`, and whenever a
/// procedure ends as `Reparented`, the windowing system was asked to make a
/// worker the parent of the window and accepted. Where no widget is styled,
/// no procedure that ends otherwise had such a request accepted.
pub proof fn law_reparented_means_accepted(goal: Goal, window: WindowHandle, replies: Seq<Reply>)
    ensures
        goal == Goal::Wallpaper && has_succeeded(run(begin(goal, window), replies)) ==> outcome_of(
            run(begin(goal, window), replies),
        ) == Some(Outcome::Reparented),
        outcome_of(run(begin(goal, window), replies)) == Some(Outcome::Reparented)
            ==> exists|k: int| reparent_accepted_at(begin(goal, window), replies, k),
        goal != Goal::Widget && outcome_of(run(begin(goal, window), replies)) is Some
            && outcome_of(run(begin(goal, window), replies)) != Some(Outcome::Reparented)
            ==> forall|k: int| !reparent_accepted_at(begin(goal, window), replies, k),
{
    let end = run(begin(goal, window), replies);
    law_every_state_consistent(goal, window, replies);
    lemma_parented_was_accepted(goal, window, replies);
    if goal != Goal::Widget && outcome_of(end) is Some && outcome_of(end) != Some(
        Outcome::Reparented,
    ) {
        assert forall|k: int| !reparent_accepted_at(begin(goal, window), replies, k) by {
            if reparent_accepted_at(begin(goal, window), replies, k) {
                lemma_accepted_is_parented(goal, window, replies, k);
            }
        }
    }
}

/// Only a widget is styled and raised. Locating the desktop host and putting
/// a window behind the icons never ask for a change of style or of Z order.
pub proof fn law_only_widgets_are_styled(goal: Goal, window: WindowHandle, replies: Seq<Reply>)
    requires
        goal != Goal::Widget,
    ensures
        visits(begin(goal, window), replies, Stage::StyleWrite) == 0,
        visits(begin(goal, window), replies, Stage::Position) == 0,
    decreases replies.len(),
{
    law_every_state_consistent(goal, window, replies);
    if replies.len() > 0 {
        law_only_widgets_are_styled(goal, window, replies.drop_last());
    }
}

/// The extended style that a widget is given holds every bit that was set
/// before, and the two bits that keep it off the taskbar and away from the
/// focus. Applying it to its own result changes nothing.
pub proof fn law_desktop_style_bits(current: u32)
    ensures
        desktop_style(current) & current == current,
        desktop_style(current) & WS_EX_NOACTIVATE == WS_EX_NOACTIVATE,
        desktop_style(current) & WS_EX_TOOLWINDOW == WS_EX_TOOLWINDOW,
        desktop_style(desktop_style(current)) == desktop_style(current),
{
    assert((current | 0x0800_0000u32 | 0x80u32) & current == current) by (bit_vector);
    assert((current | 0x0800_0000u32 | 0x80u32) & 0x0800_0000u32 == 0x0800_0000u32)
        by (bit_vector);
    assert((current | 0x0800_0000u32 | 0x80u32) & 0x80u32 == 0x80u32) by (bit_vector);
    assert((current | 0x0800_0000u32 | 0x80u32) | 0x0800_0000u32 | 0x80u32 == (current
        | 0x0800_0000u32 | 0x80u32)) by (bit_vector);
}

/// A widget's style only grows. Whenever pinning a widget succeeds, the
/// windowing system reported a style, accepted the style that the procedure
/// wrote in its place, and accepted the raise to the topmost band; the style
/// written holds every bit of the style reported.
pub proof fn law_widget_style_only_grows(window: WindowHandle, replies: Seq<Reply>)
    ensures
        has_succeeded(run(begin(Goal::Widget, window), replies)) ==> {
            let end = run(begin(Goal::Widget, window), replies);
            &&& exists|k: int|
                style_written_at(
                    begin(Goal::Widget, window),
                    replies,
                    k,
                    end.style_before,
                    end.style_after,
                )
            &&& exists|k: int| raised_at(begin(Goal::Widget, window), replies, k)
            &&& end.style_after == desktop_style(end.style_before)
            &&& end.style_after & end.style_before == end.style_before
        },
{
    let end = run(begin(Goal::Widget, window), replies);
    law_every_state_consistent(Goal::Widget, window, replies);
    lemma_written_style(window, replies);
    lemma_success_was_raised(window, replies);
    law_desktop_style_bits(end.style_before);
}

/// Pinning a widget twice leaves it as pinning it once. If the second
/// exchange is told the style that the first one wrote, it writes that same
/// style again: no bits pile up.
pub proof fn law_widget_twice_same_style(
    window: WindowHandle,
    first: Seq<Reply>,
    second: Seq<Reply>,
)
    requires
        has_succeeded(run(begin(Goal::Widget, window), first)),
        has_succeeded(run(begin(Goal::Widget, window), second)),
        run(begin(Goal::Widget, window), second).style_before == run(
            begin(Goal::Widget, window),
            first,
        ).style_after,
    ensures
        run(begin(Goal::Widget, window), second).style_after == run(
            begin(Goal::Widget, window),
            first,
        ).style_after,
{
    law_every_state_consistent(Goal::Widget, window, first);
    law_every_state_consistent(Goal::Widget, window, second);
    law_desktop_style_bits(run(begin(Goal::Widget, window), first).style_before);
}

} // verus!
