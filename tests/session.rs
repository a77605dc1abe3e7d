use timeadair::cycle::{
    accepts_answer, advance, is_affirmative, prompt_label, session_plan, Phase, PhaseEvent,
    Transition,
};
use timeadair::session::{
    closing_of, decode_key, run_step, Closing, KeyCommand, SessionOutcome, TickAction,
    BREAK_TIME, WORK_TIME,
};
use timeadair::timer::Timer;

#[test]
fn keys_decode_to_commands() {
    assert_eq!(decode_key('q'), Some(KeyCommand::Quit));
    assert_eq!(decode_key('Q'), Some(KeyCommand::Quit));
    assert_eq!(decode_key('r'), Some(KeyCommand::Reset));
    assert_eq!(decode_key('R'), Some(KeyCommand::Reset));
    assert_eq!(decode_key('x'), None);
    assert_eq!(decode_key(' '), None);
}

#[test]
fn quit_before_any_tick_leaves_nothing_elapsed() {
    for c in ['q', 'Q'] {
        let mut t = Timer::new(WORK_TIME);
        assert_eq!(run_step(&mut t, Some(c)), TickAction::Finish(SessionOutcome::Quit));
        assert_eq!(t.elapsed(), 0);
    }
}

#[test]
fn reset_ends_without_a_tick() {
    let mut t = Timer::new(BREAK_TIME);
    assert_eq!(run_step(&mut t, None), TickAction::Redraw);
    assert_eq!(run_step(&mut t, Some('R')), TickAction::Finish(SessionOutcome::Reset));
    assert_eq!(t.elapsed(), 1);
}

#[test]
fn other_keys_tick_like_a_timeout() {
    let mut t = Timer::new(10);
    assert_eq!(run_step(&mut t, Some('x')), TickAction::Redraw);
    assert_eq!(run_step(&mut t, None), TickAction::Redraw);
    assert_eq!(t.elapsed(), 2);
}

#[test]
fn break_completes_on_its_last_second() {
    let mut t = Timer::new(BREAK_TIME);
    for _ in 0..299 {
        assert_eq!(run_step(&mut t, None), TickAction::Redraw);
    }
    assert_eq!(t.format_time(), "00:01");
    assert_eq!(run_step(&mut t, None), TickAction::Finish(SessionOutcome::Completed));
    assert_eq!(t.format_time(), "00:00");
    assert_eq!(t.elapsed(), 300);
}

#[test]
fn idle_work_session_completes_after_exactly_its_duration() {
    let mut t = Timer::new(WORK_TIME);
    let mut cycles = 0u64;
    loop {
        cycles += 1;
        if let TickAction::Finish(o) = run_step(&mut t, None) {
            assert_eq!(o, SessionOutcome::Completed);
            break;
        }
    }
    assert_eq!(cycles, 1500);
    assert_eq!(t.percent(), 100);
    assert_eq!(t.format_time(), "00:00");
}

#[test]
fn zero_length_session_completes_at_once() {
    let mut t = Timer::new(0);
    assert_eq!(run_step(&mut t, None), TickAction::Finish(SessionOutcome::Completed));
    assert_eq!(t.elapsed(), 0);
}

#[test]
fn closing_follows_the_outcome() {
    assert_eq!(closing_of(SessionOutcome::Quit), Closing::Farewell);
    assert_eq!(closing_of(SessionOutcome::Reset), Closing::ResetNotice);
    assert_eq!(closing_of(SessionOutcome::Completed), Closing::Bell);
}

#[test]
fn declining_work_says_goodbye_and_exits() {
    let t = advance(Phase::PromptWork, PhaseEvent::Answered(false));
    assert_eq!(t, Transition { next: Phase::Exit, farewell: true });
    assert!(session_plan(t.next).is_none());
    assert!(prompt_label(t.next).is_none());
}

#[test]
fn declined_break_returns_to_work_prompt() {
    let t = advance(Phase::RunWork, PhaseEvent::Finished(SessionOutcome::Completed));
    assert_eq!(t, Transition { next: Phase::PromptBreak, farewell: false });
    assert_eq!(prompt_label(t.next), Some("break"));
    assert!(session_plan(t.next).is_none());
    let t = advance(t.next, PhaseEvent::Answered(false));
    assert_eq!(t, Transition { next: Phase::PromptWork, farewell: false });
    assert!(session_plan(t.next).is_none());
}

#[test]
fn reset_goes_back_to_work_prompt_with_a_fresh_timer() {
    for p in [Phase::RunWork, Phase::RunBreak] {
        let t = advance(p, PhaseEvent::Finished(SessionOutcome::Reset));
        assert_eq!(t.next, Phase::PromptWork);
        assert!(!t.farewell);
    }
    let t = advance(Phase::PromptWork, PhaseEvent::Answered(true));
    assert_eq!(t.next, Phase::RunWork);
    let plan = session_plan(t.next).unwrap();
    let timer = Timer::new(plan.duration);
    assert_eq!(timer.elapsed(), 0);
}

#[test]
fn full_cycle_of_phases() {
    let mut p = Phase::PromptWork;
    assert_eq!(prompt_label(p), Some("work"));
    p = advance(p, PhaseEvent::Answered(true)).next;
    assert_eq!(p, Phase::RunWork);
    let plan = session_plan(p).unwrap();
    assert_eq!((plan.duration, plan.label), (1500, "Work"));
    p = advance(p, PhaseEvent::Finished(SessionOutcome::Completed)).next;
    p = advance(p, PhaseEvent::Answered(true)).next;
    assert_eq!(p, Phase::RunBreak);
    let plan = session_plan(p).unwrap();
    assert_eq!((plan.duration, plan.label), (300, "Break"));
    p = advance(p, PhaseEvent::Finished(SessionOutcome::Completed)).next;
    assert_eq!(p, Phase::PromptWork);
}

#[test]
fn quit_in_either_session_exits_without_second_goodbye() {
    for p in [Phase::RunWork, Phase::RunBreak] {
        let t = advance(p, PhaseEvent::Finished(SessionOutcome::Quit));
        assert_eq!(t, Transition { next: Phase::Exit, farewell: false });
    }
}

#[test]
fn mismatched_events_leave_the_phase() {
    assert_eq!(
        advance(Phase::RunWork, PhaseEvent::Answered(true)),
        Transition { next: Phase::RunWork, farewell: false }
    );
    assert_eq!(
        advance(Phase::PromptBreak, PhaseEvent::Finished(SessionOutcome::Quit)),
        Transition { next: Phase::PromptBreak, farewell: false }
    );
    assert_eq!(
        advance(Phase::Exit, PhaseEvent::Answered(true)),
        Transition { next: Phase::Exit, farewell: false }
    );
}

#[test]
fn prompt_answers() {
    assert!(accepts_answer(""));
    assert!(accepts_answer("\n"));
    assert!(accepts_answer("   \t\n"));
    assert!(accepts_answer("y\n"));
    assert!(accepts_answer("yes"));
    assert!(accepts_answer("  Y  \n"));
    assert!(accepts_answer("YES\n"));
    assert!(!accepts_answer("n\n"));
    assert!(!accepts_answer("no"));
    assert!(!accepts_answer("  x y"));
    assert!(!accepts_answer("ok"));
}

#[test]
fn affirmative_from_trimmed_and_lowered_text() {
    assert!(is_affirmative("", ""));
    assert!(is_affirmative("Yes", "yes"));
    assert!(!is_affirmative("Yes", "Yes"));
    assert!(!is_affirmative("no", "no"));
    assert!(!is_affirmative("x", ""));
}
