use vstd::prelude::*;
use vstd::string::StringExecFns;
use crate::window::{HostAction, HostResponse, WindowState, apply_action_spec};

verus! {

/// The fixed prefix a command puts before the host's error text when the
/// given mutation request fails.
pub open spec fn failure_prefix_spec(a: HostAction) -> Seq<char> {
    match a {
        HostAction::SetIgnoreCursorEvents(_) => "Failed to set cursor events: "@,
        HostAction::SetDecorations(_) => "Failed to set decorations: "@,
        HostAction::SetAlwaysOnTop(_) => "Failed to set always on top: "@,
    }
}

/// The full error string a command reports when mutation request `a` failed
/// with the host's error text `host_error`.
pub open spec fn failure_message_spec(a: HostAction, host_error: Seq<char>) -> Seq<char> {
    failure_prefix_spec(a) + host_error
}

/// Builds the error string for a failed mutation request.
pub fn failure_message(a: HostAction, host_error: &String) -> (r: String)
    ensures
        r@ == failure_message_spec(a, host_error@),
{
    let mut m = match a {
        HostAction::SetIgnoreCursorEvents(_) => "Failed to set cursor events: ".to_owned(),
        HostAction::SetDecorations(_) => "Failed to set decorations: ".to_owned(),
        HostAction::SetAlwaysOnTop(_) => "Failed to set always on top: ".to_owned(),
    };
    m.append(host_error.as_str());
    m
}

/// The mutation requests the set_opacity command performs, given the raw bits
/// of the caller's opacity argument. The argument is never read: the plan is
/// the same two requests — re-enable cursor events, then remove decorations —
/// whatever the bits hold.
pub open spec fn set_opacity_plan_spec(opacity_bits: u64) -> Seq<HostAction> {
    seq![HostAction::SetIgnoreCursorEvents(false), HostAction::SetDecorations(false)]
}

/// The single mutation request the set_always_on_top command performs.
pub open spec fn set_always_on_top_plan_spec(always_on_top: bool) -> Seq<HostAction> {
    seq![HostAction::SetAlwaysOnTop(always_on_top)]
}

/// The window state after a command drives `plan` against the host and the
/// host answers the i-th request it receives with `resp[i]`. The first
/// failure ends the run; a failed request leaves the attributes unchanged,
/// and requests after it are never made.
pub open spec fn plan_state(s: WindowState, plan: Seq<HostAction>, resp: Seq<HostResponse>) -> WindowState
    decreases plan.len(),
{
    if plan.len() == 0 || resp.len() == 0 {
        s
    } else {
        match resp[0] {
            HostResponse::Succeeded => plan_state(
                apply_action_spec(s, plan[0]),
                plan.drop_first(),
                resp.drop_first(),
            ),
            HostResponse::Failed(_) => s,
        }
    }
}

/// The result a command reports after driving `plan` with the host answering
/// as `resp` says: the first failure, wrapped in that request's fixed message
/// prefix, or success when every request went through.
pub open spec fn plan_result(plan: Seq<HostAction>, resp: Seq<HostResponse>) -> Result<(), Seq<char>>
    decreases plan.len(),
{
    if plan.len() == 0 || resp.len() == 0 {
        Ok(())
    } else {
        match resp[0] {
            HostResponse::Succeeded => plan_result(plan.drop_first(), resp.drop_first()),
            HostResponse::Failed(e) => Err(failure_message_spec(plan[0], e@)),
        }
    }
}

/// The mathematical value of a command result: the error text as a character
/// sequence.
pub open spec fn result_view(r: Result<(), String>) -> Result<(), Seq<char>> {
    match r {
        Ok(_) => Ok(()),
        Err(m) => Err(m@),
    }
}

/// One command invocation in flight. The shell's host driver asks for the
/// next mutation request with `next_action`, performs it against the live
/// window, hands the host's answer back through `on_response`, and reads the
/// command's result from `outcome` once no request is pending.
pub struct CommandSession {
    plan: Vec<HostAction>,
    next: usize,
    failure: Option<String>,
    responses: Ghost<Seq<HostResponse>>,
}

impl CommandSession {
    /// The full sequence of mutation requests this command performs.
    pub closed spec fn plan(self) -> Seq<HostAction> {
        self.plan@
    }

    /// The host answers fed back so far, in order.
    pub closed spec fn responses(self) -> Seq<HostResponse> {
        self.responses@
    }

    /// The session's invariant: every request before the last answered one
    /// succeeded, and a recorded failure is the last answer's error text
    /// behind the failed request's fixed prefix.
    pub closed spec fn wf(self) -> bool {
        &&& self.next == self.responses@.len()
        &&& self.next <= self.plan@.len()
        &&& match self.failure {
            None => forall|i: int|
                0 <= i < self.responses@.len() ==> self.responses@[i] is Succeeded,
            Some(m) => {
                &&& self.responses@.len() >= 1
                &&& forall|i: int|
                    0 <= i < self.responses@.len() - 1 ==> self.responses@[i] is Succeeded
                &&& self.responses@.last() is Failed
                &&& m@ == failure_message_spec(
                    self.plan@[self.responses@.len() - 1],
                    self.responses@.last()->Failed_0@,
                )
            },
        }
    }

    /// Whether the command is done: a request failed, or every request was
    /// answered.
    pub closed spec fn finished(self) -> bool {
        self.failure is Some || self.responses@.len() == self.plan@.len()
    }

    /// Starts the set_opacity command. The caller's opacity argument arrives
    /// as its raw bits and is forwarded nowhere: the plan never depends on it.
    pub fn set_opacity(opacity_bits: u64) -> (s: CommandSession)
        ensures
            s.wf(),
            s.plan() == set_opacity_plan_spec(opacity_bits),
            s.responses() == Seq::<HostResponse>::empty(),
            !s.finished(),
    {
        let mut plan: Vec<HostAction> = Vec::new();
        plan.push(HostAction::SetIgnoreCursorEvents(false));
        plan.push(HostAction::SetDecorations(false));
        proof {
            assert(plan@ =~= set_opacity_plan_spec(opacity_bits));
        }
        CommandSession { plan, next: 0, failure: None, responses: Ghost(Seq::empty()) }
    }

    /// Starts the set_always_on_top command for the given flag.
    pub fn set_always_on_top(always_on_top: bool) -> (s: CommandSession)
        ensures
            s.wf(),
            s.plan() == set_always_on_top_plan_spec(always_on_top),
            s.responses() == Seq::<HostResponse>::empty(),
            !s.finished(),
    {
        let mut plan: Vec<HostAction> = Vec::new();
        plan.push(HostAction::SetAlwaysOnTop(always_on_top));
        proof {
            assert(plan@ =~= set_always_on_top_plan_spec(always_on_top));
        }
        CommandSession { plan, next: 0, failure: None, responses: Ghost(Seq::empty()) }
    }

    /// The next mutation request to perform, or None when the command is done.
    pub fn next_action(&self) -> (r: Option<HostAction>)
        requires
            self.wf(),
        ensures
            (r is Some) == !self.finished(),
            r matches Some(a) ==> a == self.plan()[self.responses().len() as int],
    {
        if self.failure.is_some() || self.next >= self.plan.len() {
            None
        } else {
            Some(self.plan[self.next])
        }
    }

    /// Feeds back the host's answer to the request `next_action` returned. A
    /// success moves the command to its next request; a failure records the
    /// wrapped error message and ends the command.
    pub fn on_response(&mut self, r: HostResponse)
        requires
            old(self).wf(),
            !old(self).finished(),
        ensures
            final(self).wf(),
            final(self).plan() == old(self).plan(),
            final(self).responses() == old(self).responses().push(r),
            final(self).finished() <==> (r is Failed
                || old(self).responses().len() + 1 == old(self).plan().len()),
    {
        let ghost fed = r;
        proof {
            self.responses@ = self.responses@.push(fed);
        }
        let plan_len = self.plan.len();
        proof {
            assert(self.next < plan_len);
        }
        let idx = self.next;
        self.next = self.next + 1;
        match r {
            HostResponse::Succeeded => {},
            HostResponse::Failed(e) => {
                let msg = failure_message(self.plan[idx], &e);
                self.failure = Some(msg);
            },
        }
    }

    /// The command's result once no request is pending: success, or the first
    /// failure wrapped in its fixed message prefix.
    pub fn outcome(&self) -> (r: Option<Result<(), String>>)
        requires
            self.wf(),
        ensures
            (r is Some) == self.finished(),
            r matches Some(res) ==> result_view(res) == plan_result(self.plan(), self.responses()),
    {
        match &self.failure {
            Some(m) => {
                proof {
                    lemma_plan_result_failure(self.plan@, self.responses@);
                }
                Some(Err(m.clone()))
            },
            None => {
                if self.next == self.plan.len() {
                    proof {
                        lemma_plan_result_success(self.plan@, self.responses@);
                    }
                    Some(Ok(()))
                } else {
                    None
                }
            },
        }
    }
}

/// The set_opacity command never reads its opacity argument: for any two
/// argument bit patterns it performs the same two mutation requests —
/// re-enable cursor events, then remove decorations — so its outcome cannot
/// depend on the value.
pub proof fn lemma_set_opacity_ignores_value(bits1: u64, bits2: u64)
    ensures
        set_opacity_plan_spec(bits1) == set_opacity_plan_spec(bits2),
        set_opacity_plan_spec(bits1) == seq![
            HostAction::SetIgnoreCursorEvents(false),
            HostAction::SetDecorations(false),
        ],
{
}

/// A successful set_always_on_top(flag) leaves the window's topmost attribute
/// equal to flag, whatever state the window was in; the other attributes keep
/// their values.
pub proof fn lemma_always_on_top_round_trip(s: WindowState, flag: bool)
    ensures
        plan_state(s, set_always_on_top_plan_spec(flag), seq![HostResponse::Succeeded])
            == (WindowState { always_on_top: flag, ..s }),
{
    reveal_with_fuel(plan_state, 3);
}

/// Driving the set_opacity command twice, with the host answering the same
/// way both times, leaves the modelled window exactly as driving it once
/// does.
pub proof fn lemma_set_opacity_idempotent(s: WindowState, bits: u64, resp: Seq<HostResponse>)
    ensures
        plan_state(
            plan_state(s, set_opacity_plan_spec(bits), resp),
            set_opacity_plan_spec(bits),
            resp,
        ) == plan_state(s, set_opacity_plan_spec(bits), resp),
{
    reveal_with_fuel(plan_state, 4);
    let p = set_opacity_plan_spec(bits);
    if resp.len() == 0 {
    } else if resp[0] is Failed {
    } else if resp.len() == 1 {
        assert(plan_state(s, p, resp) == apply_action_spec(s, p[0]));
    } else if resp[1] is Failed {
        assert(plan_state(s, p, resp) == apply_action_spec(s, p[0]));
    } else {
        assert(plan_state(s, p, resp)
            == apply_action_spec(apply_action_spec(s, p[0]), p[1]));
    }
}

/// Driving the set_always_on_top command twice, with the host answering the
/// same way both times, leaves the modelled window exactly as driving it once
/// does.
pub proof fn lemma_set_always_on_top_idempotent(s: WindowState, flag: bool, resp: Seq<HostResponse>)
    ensures
        plan_state(
            plan_state(s, set_always_on_top_plan_spec(flag), resp),
            set_always_on_top_plan_spec(flag),
            resp,
        ) == plan_state(s, set_always_on_top_plan_spec(flag), resp),
{
    reveal_with_fuel(plan_state, 3);
    let p = set_always_on_top_plan_spec(flag);
    if resp.len() == 0 {
    } else if resp[0] is Failed {
    } else {
        assert(plan_state(s, p, resp) == apply_action_spec(s, p[0]));
    }
}

/// If removing decorations fails after cursor events were re-enabled, the
/// set_opacity command reports the decorations failure, and the cursor-ignore
/// flag stays disabled: the first step is not rolled back.
pub proof fn lemma_set_opacity_partial_failure(s: WindowState, bits: u64, e: String)
    ensures
        plan_result(
            set_opacity_plan_spec(bits),
            seq![HostResponse::Succeeded, HostResponse::Failed(e)],
        ) == Err::<(), Seq<char>>("Failed to set decorations: "@ + e@),
        plan_state(
            s,
            set_opacity_plan_spec(bits),
            seq![HostResponse::Succeeded, HostResponse::Failed(e)],
        ) == (WindowState { ignore_cursor_events: false, ..s }),
{
    reveal_with_fuel(plan_state, 3);
    reveal_with_fuel(plan_result, 3);
}

proof fn lemma_plan_result_success(plan: Seq<HostAction>, resp: Seq<HostResponse>)
    requires
        resp.len() == plan.len(),
        forall|i: int| 0 <= i < resp.len() ==> resp[i] is Succeeded,
    ensures
        plan_result(plan, resp) == Ok::<(), Seq<char>>(()),
    decreases plan.len(),
{
    if plan.len() != 0 {
        assert(resp[0] is Succeeded);
        assert(forall|i: int|
            0 <= i < resp.drop_first().len() ==> resp.drop_first()[i] == resp[i + 1]);
        lemma_plan_result_success(plan.drop_first(), resp.drop_first());
    }
}

proof fn lemma_plan_result_failure(plan: Seq<HostAction>, resp: Seq<HostResponse>)
    requires
        1 <= resp.len() <= plan.len(),
        forall|i: int| 0 <= i < resp.len() - 1 ==> resp[i] is Succeeded,
        resp.last() is Failed,
    ensures
        plan_result(plan, resp) == Err::<(), Seq<char>>(failure_message_spec(
            plan[resp.len() - 1],
            resp.last()->Failed_0@,
        )),
    decreases resp.len(),
{
    if resp.len() > 1 {
        assert(resp[0] is Succeeded);
        assert(forall|i: int|
            0 <= i < resp.drop_first().len() ==> resp.drop_first()[i] == resp[i + 1]);
        assert(resp.drop_first().last() == resp.last());
        lemma_plan_result_failure(plan.drop_first(), resp.drop_first());
    }
}

} // verus!
