//! tests for the layer stack, the loop command, the dispatch loop and the
//! observer storage, driven through deterministic scripted contexts

use std::cell::RefCell;
use std::rc::Rc;

use timberwolf::context::{ScriptedContext, Story};
use timberwolf::dispatch::Loop;
use timberwolf::event::{MultipleObserverStorage, ObserverSlot, ObserverStorage, VecObserverStorage};
use timberwolf::lifecycle::Command;
use timberwolf::timing::TimingError;

fn opaque_continue() -> ScriptedContext {
    ScriptedContext::new(false, false, Command::Continue, Command::Continue)
}

fn transparent_continue() -> ScriptedContext {
    ScriptedContext::new(true, true, Command::Continue, Command::Continue)
}

/// drain the story from the top down, returning the layers in push order
fn drain(story: &mut Story<ScriptedContext>) -> Vec<ScriptedContext> {
    let mut layers = Vec::new();
    while let Some(layer) = story.pop_context() {
        layers.insert(0, layer);
    }
    layers
}

#[test]
fn command_join_lets_any_stop_win() {
    assert_eq!(Command::Continue.join(Command::Continue), Command::Continue);
    assert_eq!(Command::Continue.join(Command::Stop), Command::Stop);
    assert_eq!(Command::Stop.join(Command::Continue), Command::Stop);
    assert_eq!(Command::Stop.join(Command::Stop), Command::Stop);
}

#[test]
fn sweep_visits_both_under_a_transparent_top() {
    // a fully transparent layer over an opaque one: both take part
    let mut story = Story::new();
    story.push_context(opaque_continue());
    story.push_context(transparent_continue());
    assert_eq!(story.render(7), Command::Continue);
    assert_eq!(story.update(7), Command::Continue);
    let layers = drain(&mut story);
    assert_eq!(layers[0].render_count, 1);
    assert_eq!(layers[0].update_count, 1);
    assert_eq!(layers[1].render_count, 1);
    assert_eq!(layers[1].update_count, 1);
}

#[test]
fn sweep_stops_at_an_opaque_top() {
    // an opaque top layer occludes everything beneath it
    let mut story = Story::new();
    story.push_context(opaque_continue());
    story.push_context(transparent_continue());
    story.push_context(opaque_continue());
    assert_eq!(story.render(7), Command::Continue);
    assert_eq!(story.update(7), Command::Continue);
    let layers = drain(&mut story);
    assert_eq!(layers[0].render_count, 0);
    assert_eq!(layers[0].update_count, 0);
    assert_eq!(layers[1].render_count, 0);
    assert_eq!(layers[1].update_count, 0);
    assert_eq!(layers[2].render_count, 1);
    assert_eq!(layers[2].update_count, 1);
}

#[test]
fn any_visited_stop_forces_the_sweep_to_stop() {
    // the bottom layer of the run asks to stop; the top one continues
    let mut story = Story::new();
    story.push_context(ScriptedContext::new(false, false, Command::Stop, Command::Stop));
    story.push_context(transparent_continue());
    assert_eq!(story.render(7), Command::Stop);
    assert_eq!(story.update(7), Command::Stop);
}

#[test]
fn an_unvisited_stop_is_never_heard() {
    // a stop request below an opaque layer is out of the run, so it cannot
    // stop the sweep
    let mut story = Story::new();
    story.push_context(ScriptedContext::new(false, false, Command::Stop, Command::Stop));
    story.push_context(opaque_continue());
    assert_eq!(story.render(7), Command::Continue);
    assert_eq!(story.update(7), Command::Continue);
}

#[test]
fn pop_right_after_push_restores_the_stack() {
    let mut story = Story::new();
    story.push_context(opaque_continue());
    assert_eq!(story.depth(), 1);
    story.push_context(transparent_continue());
    let returned = story.pop_context().expect("the pushed layer comes back");
    // the stack is back in its pre-push state, and each hook fired once
    assert_eq!(story.depth(), 1);
    assert_eq!(returned.push_count, 1);
    assert_eq!(returned.pop_count, 1);
    assert_eq!(returned.render_count, 0);
    assert_eq!(returned.update_count, 0);
}

#[test]
fn pop_of_an_empty_story_returns_nothing() {
    let mut story: Story<ScriptedContext> = Story::new();
    assert!(story.pop_context().is_none());
    assert_eq!(story.depth(), 0);
}

#[test]
fn swap_replaces_the_top_layer() {
    let mut story = Story::new();
    story.push_context(opaque_continue());
    story.push_context(transparent_continue());
    let previous = story.swap_context(opaque_continue()).expect("the old top comes back");
    assert_eq!(story.depth(), 2);
    assert!(previous.render_transparent);
    assert_eq!(previous.push_count, 1);
    assert_eq!(previous.pop_count, 1);
    let layers = drain(&mut story);
    assert!(!layers[1].render_transparent);
}

#[test]
fn swap_on_an_empty_story_only_pushes() {
    let mut story = Story::new();
    assert!(story.swap_context(opaque_continue()).is_none());
    assert_eq!(story.depth(), 1);
}

#[test]
fn loop_rejects_a_zero_interval() {
    let result = Loop::new(|_delta: u64| {}, false, false, 0);
    assert!(matches!(result, Err(TimingError::InvalidConfiguration)));
}

#[test]
fn loop_rejects_a_zero_frequency() {
    let result = Loop::new_from_frequency(|_delta: u64| {}, false, false, 0);
    assert!(matches!(result, Err(TimingError::InvalidConfiguration)));
}

#[test]
fn loop_call_hands_the_delta_to_the_callback() {
    let deltas: Rc<RefCell<Vec<u64>>> = Rc::new(RefCell::new(Vec::new()));
    let recorder = {
        let deltas = deltas.clone();
        move |delta: u64| {
            deltas.borrow_mut().push(delta);
        }
    };
    let mut lp = Loop::new(recorder, false, false, 15_000_000).unwrap();
    lp.call(5_000_000);
    assert_eq!(*deltas.borrow(), vec![5_000_000]);
}

#[test]
fn loop_lockstep_reports_the_interval() {
    let deltas: Rc<RefCell<Vec<u64>>> = Rc::new(RefCell::new(Vec::new()));
    let recorder = {
        let deltas = deltas.clone();
        move |delta: u64| {
            deltas.borrow_mut().push(delta);
        }
    };
    let mut lp = Loop::new_from_frequency(recorder, true, false, 20).unwrap();
    lp.call_now();
    lp.call_now();
    assert_eq!(*deltas.borrow(), vec![50_000_000, 50_000_000]);
}

#[test]
fn loop_wait_accounts_for_lag() {
    let mut lp = Loop::new(|_delta: u64| {}, false, true, 15_000_000).unwrap();
    // an iteration that finished early leaves the rest of the interval
    assert_eq!(lp.wait_for_elapsed(1_000_000), 14_000_000);
    // one that overran sleeps not at all and records the shortfall
    assert_eq!(lp.wait_for_elapsed(20_000_000), 0);
    // the owed five milliseconds are paid out of the next idle time
    assert_eq!(lp.wait_for_elapsed(1_000_000), 9_000_000);
    // and afterwards the debt is settled
    assert_eq!(lp.wait_for_elapsed(1_000_000), 14_000_000);
}

#[test]
fn loop_without_catchup_just_fills_the_interval() {
    let mut lp = Loop::new(|_delta: u64| {}, false, false, 15_000_000).unwrap();
    assert_eq!(lp.wait_for_elapsed(1_000_000), 14_000_000);
    assert_eq!(lp.wait_for_elapsed(20_000_000), 0);
    // no lag was recorded, so nothing is deducted later
    assert_eq!(lp.wait_for_elapsed(1_000_000), 14_000_000);
}

#[test]
fn observer_storage_grows_and_clears() {
    let mut storage: VecObserverStorage<String> = Default::default();
    assert_eq!(storage.slot_count(), 0);
    storage.add_observer_owned("first".to_string());
    storage.add_observer_owned("second".to_string());
    assert_eq!(storage.slot_count(), 2);
    assert!(!storage.slot(0).is_vacant());
    match storage.slot(1) {
        ObserverSlot::Owned(observer) => assert_eq!(observer, "second"),
        ObserverSlot::Empty => panic!("the second slot should be occupied"),
    }
    storage.clear_observers();
    assert_eq!(storage.slot_count(), 0);
}
