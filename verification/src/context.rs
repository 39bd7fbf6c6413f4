//! subsystem for the layered contexts of the game: an ordered stack of
//! contexts and the sweeps that decide, through each layer's transparency,
//! which contexts take part in rendering and updating
//!
//! The stack is ordered bottom (pushed first) to top (pushed last). A sweep
//! walks from the top down and visits every transparent layer plus the first
//! opaque one it meets; layers below the nearest opaque layer are never
//! visited. The sweep's result is `Stop` exactly when some visited layer
//! asked to stop.

use vstd::prelude::*;

use crate::lifecycle::Command;

verus! {

/// An object that represents a set of subroutines defining how to run the
/// game: a unit of behavior with render and update entry points, lifecycle
/// hooks, and transparency flags that decide whether a sweep passes through
/// it to the layers beneath.
///
/// Each executable method is pinned to a specification-level function of the
/// same shape, so that the stack's sweeps can state exactly which layers were
/// visited, what each became, and what the aggregate outcome was.
pub trait Context: Sized {
    /// the command this context answers to a render call for a given delta
    spec fn spec_render_outcome(&self, delta: u64) -> Command;

    /// the state of this context after a render call for a given delta
    spec fn spec_rendered(&self, delta: u64) -> Self;

    /// the command this context answers to an update call for a given delta
    spec fn spec_update_outcome(&self, delta: u64) -> Command;

    /// the state of this context after an update call for a given delta
    spec fn spec_updated(&self, delta: u64) -> Self;

    /// whether a render sweep passes through this context to the ones below
    spec fn spec_render_transparent(&self) -> bool;

    /// whether an update sweep passes through this context to the ones below
    spec fn spec_update_transparent(&self) -> bool;

    /// whether input handling passes through this context to the ones below
    spec fn spec_input_transparent(&self) -> bool;

    /// the state of this context after its on-push hook has fired
    spec fn spec_pushed(&self) -> Self;

    /// the state of this context after its on-pop hook has fired
    spec fn spec_popped(&self) -> Self;

    /// the state of this context after its on-focus hook has fired
    spec fn spec_focused(&self) -> Self;

    /// the state of this context after its on-unfocus hook has fired
    spec fn spec_unfocused(&self) -> Self;

    /// render the context, advancing by `delta` nanoseconds of presented
    /// time, and answer whether the loops should continue or stop
    fn render(&mut self, delta: u64) -> (r: Command)
        ensures
            *final(self) == old(self).spec_rendered(delta),
            r == old(self).spec_render_outcome(delta),
    ;

    /// update the context, advancing by `delta` nanoseconds of simulated
    /// time, and answer whether the loops should continue or stop
    fn update(&mut self, delta: u64) -> (r: Command)
        ensures
            *final(self) == old(self).spec_updated(delta),
            r == old(self).spec_update_outcome(delta),
    ;

    /// whether a render sweep passes through this context
    fn is_render_transparent(&self) -> (r: bool)
        ensures
            r == self.spec_render_transparent(),
    ;

    /// whether an update sweep passes through this context
    fn is_update_transparent(&self) -> (r: bool)
        ensures
            r == self.spec_update_transparent(),
    ;

    /// whether input handling passes through this context
    fn is_input_transparent(&self) -> (r: bool)
        ensures
            r == self.spec_input_transparent(),
    ;

    /// lifecycle hook fired once when the context is pushed onto a stack
    fn on_push(&mut self)
        ensures
            *final(self) == old(self).spec_pushed(),
    ;

    /// lifecycle hook fired once when the context is popped off a stack
    fn on_pop(&mut self)
        ensures
            *final(self) == old(self).spec_popped(),
    ;

    /// lifecycle hook for the context gaining focus; the stack itself never
    /// fires it (pushing and popping touch no other layer, so that a pop
    /// right after a push restores the stack exactly) — the consumer that
    /// orchestrates the stack decides when focus changes hands
    fn on_focus(&mut self)
        ensures
            *final(self) == old(self).spec_focused(),
    ;

    /// lifecycle hook for the context losing focus; fired by the consumer
    /// that orchestrates the stack, never by the stack itself
    fn on_unfocus(&mut self)
        ensures
            *final(self) == old(self).spec_unfocused(),
    ;
}

/// the number of layers a render sweep visits, counted from the top of the
/// stack: every render-transparent layer of the top run, plus the first
/// opaque layer underneath it (the stack is ordered bottom to top)
pub open spec fn render_run_len<C: Context>(stack: Seq<C>) -> nat
    decreases stack.len(),
{
    if stack.len() == 0 {
        0
    } else if stack.last().spec_render_transparent() {
        (1 + render_run_len(stack.drop_last())) as nat
    } else {
        1
    }
}

/// the number of layers an update sweep visits, counted from the top of the
/// stack: every update-transparent layer of the top run, plus the first
/// opaque layer underneath it
pub open spec fn update_run_len<C: Context>(stack: Seq<C>) -> nat
    decreases stack.len(),
{
    if stack.len() == 0 {
        0
    } else if stack.last().spec_update_transparent() {
        (1 + update_run_len(stack.drop_last())) as nat
    } else {
        1
    }
}

/// whether the layer at index `i` is visited by a render sweep of `stack`
pub open spec fn render_visited<C: Context>(stack: Seq<C>, i: int) -> bool {
    stack.len() - render_run_len(stack) <= i < stack.len()
}

/// whether the layer at index `i` is visited by an update sweep of `stack`
pub open spec fn update_visited<C: Context>(stack: Seq<C>, i: int) -> bool {
    stack.len() - update_run_len(stack) <= i < stack.len()
}

/// whether some layer visited by a render sweep of `stack` answers `Stop`
pub open spec fn render_stops<C: Context>(stack: Seq<C>, delta: u64) -> bool {
    exists|i: int|
        render_visited(stack, i) && (#[trigger] stack[i].spec_render_outcome(delta))
            == Command::Stop
}

/// whether some layer visited by an update sweep of `stack` answers `Stop`
pub open spec fn update_stops<C: Context>(stack: Seq<C>, delta: u64) -> bool {
    exists|i: int|
        update_visited(stack, i) && (#[trigger] stack[i].spec_update_outcome(delta))
            == Command::Stop
}

/// the stack after a render sweep: every visited layer has rendered, every
/// layer below the run is untouched
pub open spec fn spec_after_render<C: Context>(stack: Seq<C>, delta: u64) -> Seq<C> {
    Seq::new(
        stack.len(),
        |i: int|
            if render_visited(stack, i) {
                stack[i].spec_rendered(delta)
            } else {
                stack[i]
            },
    )
}

/// the stack after an update sweep: every visited layer has updated, every
/// layer below the run is untouched
pub open spec fn spec_after_update<C: Context>(stack: Seq<C>, delta: u64) -> Seq<C> {
    Seq::new(
        stack.len(),
        |i: int|
            if update_visited(stack, i) {
                stack[i].spec_updated(delta)
            } else {
                stack[i]
            },
    )
}

/// the render run never exceeds the stack, and a non-empty stack always has
/// its top layer visited
pub proof fn lemma_render_run_len_bounds<C: Context>(stack: Seq<C>)
    ensures
        render_run_len(stack) <= stack.len(),
        stack.len() > 0 ==> render_run_len(stack) >= 1,
    decreases stack.len(),
{
    if stack.len() > 0 && stack.last().spec_render_transparent() {
        lemma_render_run_len_bounds(stack.drop_last());
    }
}

/// the update run never exceeds the stack, and a non-empty stack always has
/// its top layer visited
pub proof fn lemma_update_run_len_bounds<C: Context>(stack: Seq<C>)
    ensures
        update_run_len(stack) <= stack.len(),
        stack.len() > 0 ==> update_run_len(stack) >= 1,
    decreases stack.len(),
{
    if stack.len() > 0 && stack.last().spec_update_transparent() {
        lemma_update_run_len_bounds(stack.drop_last());
    }
}

/// the render run of a stack whose layers from `lo` upward are all
/// transparent, with an opaque layer right below `lo` (or the bottom of the
/// stack at `lo == 0`), reaches down exactly to that opaque layer
proof fn lemma_render_run_boundary<C: Context>(stack: Seq<C>, lo: int)
    requires
        0 <= lo <= stack.len(),
        forall|k: int| lo <= k < stack.len() ==> (#[trigger] stack[k]).spec_render_transparent(),
        lo > 0 ==> !stack[lo - 1].spec_render_transparent(),
    ensures
        lo > 0 ==> render_run_len(stack) == stack.len() - lo + 1,
        lo == 0 ==> render_run_len(stack) == stack.len(),
    decreases stack.len(),
{
    if stack.len() == 0 {
    } else if stack.last().spec_render_transparent() {
        lemma_render_run_boundary(stack.drop_last(), lo);
    } else {
    }
}

/// the update run of a stack whose layers from `lo` upward are all
/// transparent, with an opaque layer right below `lo` (or the bottom of the
/// stack at `lo == 0`), reaches down exactly to that opaque layer
proof fn lemma_update_run_boundary<C: Context>(stack: Seq<C>, lo: int)
    requires
        0 <= lo <= stack.len(),
        forall|k: int| lo <= k < stack.len() ==> (#[trigger] stack[k]).spec_update_transparent(),
        lo > 0 ==> !stack[lo - 1].spec_update_transparent(),
    ensures
        lo > 0 ==> update_run_len(stack) == stack.len() - lo + 1,
        lo == 0 ==> update_run_len(stack) == stack.len(),
    decreases stack.len(),
{
    if stack.len() == 0 {
    } else if stack.last().spec_update_transparent() {
        lemma_update_run_boundary(stack.drop_last(), lo);
    } else {
    }
}

/// pushing a fully transparent layer on top extends the run: the sweep
/// visits the new top layer and everything the remaining stack would visit
pub proof fn lemma_transparent_top_extends_render_run<C: Context>(stack: Seq<C>)
    requires
        stack.len() > 0,
        stack.last().spec_render_transparent(),
    ensures
        render_run_len(stack) == 1 + render_run_len(stack.drop_last()),
        forall|i: int|
            #[trigger] render_visited(stack, i) <==> (i == stack.len() - 1 || render_visited(
                stack.drop_last(),
                i,
            )),
{
    lemma_render_run_len_bounds(stack.drop_last());
}

/// pushing a fully transparent layer on top extends the run: the sweep
/// visits the new top layer and everything the remaining stack would visit
pub proof fn lemma_transparent_top_extends_update_run<C: Context>(stack: Seq<C>)
    requires
        stack.len() > 0,
        stack.last().spec_update_transparent(),
    ensures
        update_run_len(stack) == 1 + update_run_len(stack.drop_last()),
        forall|i: int|
            #[trigger] update_visited(stack, i) <==> (i == stack.len() - 1 || update_visited(
                stack.drop_last(),
                i,
            )),
{
    lemma_update_run_len_bounds(stack.drop_last());
}

/// an opaque top layer occludes the whole stack beneath it: the sweep visits
/// only that layer, and no layer below is ever invoked
pub proof fn lemma_opaque_top_occludes_render<C: Context>(stack: Seq<C>)
    requires
        stack.len() > 0,
        !stack.last().spec_render_transparent(),
    ensures
        render_run_len(stack) == 1,
        forall|i: int| render_visited(stack, i) <==> i == stack.len() - 1,
{
}

/// an opaque top layer occludes the whole stack beneath it: the sweep visits
/// only that layer, and no layer below is ever invoked
pub proof fn lemma_opaque_top_occludes_update<C: Context>(stack: Seq<C>)
    requires
        stack.len() > 0,
        !stack.last().spec_update_transparent(),
    ensures
        update_run_len(stack) == 1,
        forall|i: int| update_visited(stack, i) <==> i == stack.len() - 1,
{
}

/// popping immediately after pushing a layer returns that layer, with its
/// on-push and then its on-pop hook each fired exactly once, and leaves the
/// stack exactly as it was before the push
pub proof fn lemma_push_then_pop<C: Context>(stack: Seq<C>, layer: C)
    ensures
        stack.push(layer.spec_pushed()).drop_last() =~= stack,
        stack.push(layer.spec_pushed()).last() == layer.spec_pushed(),
{
}

/// a counter one below its saturation point still counts the next event
pub open spec fn spec_saturating_inc(count: u64) -> u64 {
    if count == u64::MAX {
        count
    } else {
        (count + 1) as u64
    }
}

/// a context whose behavior is fixed by its configuration — transparency
/// flags and the commands it answers — and which counts the render, update
/// and lifecycle calls it receives (saturating, so that no call ever panics)
#[derive(PartialEq, Eq, Structural, Clone, Copy, Debug)]
pub struct ScriptedContext {
    /// whether a render sweep passes through this context
    pub render_transparent: bool,
    /// whether an update sweep passes through this context
    pub update_transparent: bool,
    /// whether input handling passes through this context
    pub input_transparent: bool,
    /// the command every render call answers
    pub render_command: Command,
    /// the command every update call answers
    pub update_command: Command,
    /// how many times this context has been rendered
    pub render_count: u64,
    /// how many times this context has been updated
    pub update_count: u64,
    /// how many times this context has been pushed onto a stack
    pub push_count: u64,
    /// how many times this context has been popped off a stack
    pub pop_count: u64,
}

impl ScriptedContext {
    /// create a new scripted context, opaque to input, with all counters at
    /// zero
    pub fn new(
        render_transparent: bool,
        update_transparent: bool,
        render_command: Command,
        update_command: Command,
    ) -> (c: Self)
        ensures
            c == (ScriptedContext {
                render_transparent,
                update_transparent,
                input_transparent: false,
                render_command,
                update_command,
                render_count: 0,
                update_count: 0,
                push_count: 0,
                pop_count: 0,
            }),
    {
        ScriptedContext {
            render_transparent,
            update_transparent,
            input_transparent: false,
            render_command,
            update_command,
            render_count: 0,
            update_count: 0,
            push_count: 0,
            pop_count: 0,
        }
    }
}

impl Context for ScriptedContext {
    open spec fn spec_render_outcome(&self, delta: u64) -> Command {
        self.render_command
    }

    open spec fn spec_rendered(&self, delta: u64) -> Self {
        ScriptedContext { render_count: spec_saturating_inc(self.render_count), ..*self }
    }

    open spec fn spec_update_outcome(&self, delta: u64) -> Command {
        self.update_command
    }

    open spec fn spec_updated(&self, delta: u64) -> Self {
        ScriptedContext { update_count: spec_saturating_inc(self.update_count), ..*self }
    }

    open spec fn spec_render_transparent(&self) -> bool {
        self.render_transparent
    }

    open spec fn spec_update_transparent(&self) -> bool {
        self.update_transparent
    }

    open spec fn spec_input_transparent(&self) -> bool {
        self.input_transparent
    }

    open spec fn spec_pushed(&self) -> Self {
        ScriptedContext { push_count: spec_saturating_inc(self.push_count), ..*self }
    }

    open spec fn spec_popped(&self) -> Self {
        ScriptedContext { pop_count: spec_saturating_inc(self.pop_count), ..*self }
    }

    open spec fn spec_focused(&self) -> Self {
        *self
    }

    open spec fn spec_unfocused(&self) -> Self {
        *self
    }

    fn render(&mut self, delta: u64) -> (r: Command) {
        if self.render_count < u64::MAX {
            self.render_count = self.render_count + 1;
        }
        self.render_command
    }

    fn update(&mut self, delta: u64) -> (r: Command) {
        if self.update_count < u64::MAX {
            self.update_count = self.update_count + 1;
        }
        self.update_command
    }

    fn is_render_transparent(&self) -> (r: bool) {
        self.render_transparent
    }

    fn is_update_transparent(&self) -> (r: bool) {
        self.update_transparent
    }

    fn is_input_transparent(&self) -> (r: bool) {
        self.input_transparent
    }

    fn on_push(&mut self) {
        if self.push_count < u64::MAX {
            self.push_count = self.push_count + 1;
        }
    }

    fn on_pop(&mut self) {
        if self.pop_count < u64::MAX {
            self.pop_count = self.pop_count + 1;
        }
    }

    fn on_focus(&mut self) {
    }

    fn on_unfocus(&mut self) {
    }
}

/// an ordered, growable stack of contexts, bottom (pushed first) to top
/// (pushed last), which dispatches render and update sweeps to the layers
/// that the transparency flags make visible
pub struct Story<C: Context> {
    contexts: Vec<C>,
}

impl<C: Context> View for Story<C> {
    type V = Seq<C>;

    closed spec fn view(&self) -> Seq<C> {
        self.contexts@
    }
}

impl<C: Context> Story<C> {
    /// create a new story with no contexts
    pub fn new() -> (story: Self)
        ensures
            story@ == Seq::<C>::empty(),
    {
        Story { contexts: Vec::new() }
    }

    /// the number of contexts on the stack
    pub fn depth(&self) -> (n: usize)
        ensures
            n == self@.len(),
    {
        self.contexts.len()
    }

    /// push a context onto the top of the stack; its on-push hook fires
    /// before the insertion becomes visible
    pub fn push_context(&mut self, context: C)
        ensures
            final(self)@ == old(self)@.push(context.spec_pushed()),
    {
        let mut c = context;
        c.on_push();
        self.contexts.push(c);
    }

    /// remove and return the top context, firing its on-pop hook after the
    /// removal; returns nothing if the stack is empty
    pub fn pop_context(&mut self) -> (popped: Option<C>)
        ensures
            old(self)@.len() == 0 ==> popped is None && final(self)@ == old(self)@,
            old(self)@.len() > 0 ==> final(self)@ == old(self)@.drop_last() && popped == Some(
                old(self)@.last().spec_popped(),
            ),
    {
        match self.contexts.pop() {
            None => None,
            Some(mut c) => {
                c.on_pop();
                Some(c)
            },
        }
    }

    /// replace the top context: pop it (firing on-pop) and push the given
    /// one (firing on-push); returns the previously topmost context
    pub fn swap_context(&mut self, context: C) -> (previous: Option<C>)
        ensures
            old(self)@.len() == 0 ==> previous is None && final(self)@ == old(self)@.push(
                context.spec_pushed(),
            ),
            old(self)@.len() > 0 ==> previous == Some(old(self)@.last().spec_popped())
                && final(self)@ == old(self)@.drop_last().push(context.spec_pushed()),
    {
        let previous = self.pop_context();
        self.push_context(context);
        previous
    }

    /// run a render sweep: walk from the top of the stack down through every
    /// render-transparent layer plus the first opaque one, invoke render on
    /// each in that top-to-bottom order, and answer `Stop` exactly when some
    /// visited layer did
    pub fn render(&mut self, delta: u64) -> (r: Command)
        ensures
            final(self)@ == spec_after_render(old(self)@, delta),
            r == Command::Stop <==> render_stops(old(self)@, delta),
    {
        let ghost s0 = self.contexts@;
        let n = self.contexts.len();
        let mut j: usize = n;
        let mut cont = true;
        let mut stop = false;
        while j > 0 && cont
            invariant
                j <= n,
                n == self.contexts@.len(),
                s0.len() == n,
                forall|k: int| 0 <= k < j ==> self.contexts@[k] == s0[k],
                forall|k: int|
                    j <= k < n ==> self.contexts@[k] == (#[trigger] s0[k]).spec_rendered(delta),
                cont ==> forall|k: int|
                    j <= k < n ==> (#[trigger] s0[k]).spec_render_transparent(),
                !cont ==> j < n && !s0[j as int].spec_render_transparent() && forall|k: int|
                    j < k < n ==> (#[trigger] s0[k]).spec_render_transparent(),
                stop <==> exists|k: int|
                    j <= k < n && (#[trigger] s0[k].spec_render_outcome(delta)) == Command::Stop,
            decreases j,
        {
            let transparent = self.contexts[j - 1].is_render_transparent();
            let cmd = self.contexts[j - 1].render(delta);
            proof {
                assert(cmd == s0[j as int - 1].spec_render_outcome(delta));
            }
            if cmd == Command::Stop {
                stop = true;
            }
            j = j - 1;
            proof {
                if cmd == Command::Stop {
                    assert(j <= j < n && s0[j as int].spec_render_outcome(delta) == Command::Stop);
                }
            }
            if !transparent {
                cont = false;
            }
        }
        proof {
            if cont {
                lemma_render_run_boundary(s0, 0);
            } else {
                lemma_render_run_boundary(s0, j as int + 1);
            }
            assert(self.contexts@ =~= spec_after_render(s0, delta));
        }
        if stop {
            Command::Stop
        } else {
            Command::Continue
        }
    }

    /// run an update sweep: walk from the top of the stack down through every
    /// update-transparent layer plus the first opaque one, invoke update on
    /// each in that top-to-bottom order, and answer `Stop` exactly when some
    /// visited layer did
    pub fn update(&mut self, delta: u64) -> (r: Command)
        ensures
            final(self)@ == spec_after_update(old(self)@, delta),
            r == Command::Stop <==> update_stops(old(self)@, delta),
    {
        let ghost s0 = self.contexts@;
        let n = self.contexts.len();
        let mut j: usize = n;
        let mut cont = true;
        let mut stop = false;
        while j > 0 && cont
            invariant
                j <= n,
                n == self.contexts@.len(),
                s0.len() == n,
                forall|k: int| 0 <= k < j ==> self.contexts@[k] == s0[k],
                forall|k: int|
                    j <= k < n ==> self.contexts@[k] == (#[trigger] s0[k]).spec_updated(delta),
                cont ==> forall|k: int|
                    j <= k < n ==> (#[trigger] s0[k]).spec_update_transparent(),
                !cont ==> j < n && !s0[j as int].spec_update_transparent() && forall|k: int|
                    j < k < n ==> (#[trigger] s0[k]).spec_update_transparent(),
                stop <==> exists|k: int|
                    j <= k < n && (#[trigger] s0[k].spec_update_outcome(delta)) == Command::Stop,
            decreases j,
        {
            let transparent = self.contexts[j - 1].is_update_transparent();
            let cmd = self.contexts[j - 1].update(delta);
            proof {
                assert(cmd == s0[j as int - 1].spec_update_outcome(delta));
            }
            if cmd == Command::Stop {
                stop = true;
            }
            j = j - 1;
            proof {
                if cmd == Command::Stop {
                    assert(j <= j < n && s0[j as int].spec_update_outcome(delta) == Command::Stop);
                }
            }
            if !transparent {
                cont = false;
            }
        }
        proof {
            if cont {
                lemma_update_run_boundary(s0, 0);
            } else {
                lemma_update_run_boundary(s0, j as int + 1);
            }
            assert(self.contexts@ =~= spec_after_update(s0, delta));
        }
        if stop {
            Command::Stop
        } else {
            Command::Continue
        }
    }
}

} // verus!
