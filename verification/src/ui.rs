//! The UI state machine.
//!
//! The machine owns the run state (`Idle`, `Running`, `Exit`), the active
//! field cursor and the two fields' cursor styling, and the last response. It
//! never touches a terminal: each key event arrives decoded as a `Command`
//! together with the current field contents, and each decision comes back as
//! a `UiAction` for the surrounding loop to carry out. The transition table
//! is the spec function `key_transition`; polling the response channel is
//! `poll_transition`.

use vstd::prelude::*;
use crate::errors::body_parse_message;
use crate::json::{error_object_of, json_parse_of, json_parses};
use crate::request::{build_request, built_request, has_body, joined_lines, Method, RequestSpec};
use crate::worker::DispatchResult;

verus! {

/// The run state of the UI: accepting edits, waiting on a request, or done.
#[derive(Debug, Clone, Copy, PartialEq, Eq, Structural)]
pub enum RunState {
    /// Accepting edits and dispatch triggers.
    Idle,
    /// A request is in flight; edits and triggers are ignored.
    Running,
    /// Terminal state: the render loop ends.
    Exit,
}

/// The closed set of logical commands a key press decodes to.
#[derive(Debug, Clone, Copy, PartialEq, Eq, Structural)]
pub enum Command {
    Quit,
    SwitchField,
    DispatchGet,
    DispatchPost,
    Paste,
    SelectAll,
    Edit,
}

/// What the surrounding loop must do after one key event.
#[derive(Debug)]
pub enum UiAction {
    /// Nothing to carry out.
    DoNothing,
    /// Fire the cancellation latch, then end the loop.
    FireCancel,
    /// Put this request on the request channel.
    Enqueue(RequestSpec),
    /// Insert the clipboard text into this field; a clipboard failure is
    /// absorbed and the field stays unchanged.
    PasteInto(usize),
    /// Select all text in this field.
    SelectAllIn(usize),
    /// Forward the raw key event as an edit to this field.
    EditIn(usize),
}

/// The UI-owned state: the active field index, the two fields' cursor
/// styling, the last response shown, and the run state.
#[derive(Debug)]
pub struct AppState {
    pub active_field: usize,
    pub url_style_active: bool,
    pub body_style_active: bool,
    pub last_response: Option<serde_json::Value>,
    pub run_state: RunState,
}

/// The two fields' cursor styling is untouched between `pre` and `post`, as
/// is which field is active.
pub open spec fn same_focus(pre: AppState, post: AppState) -> bool {
    &&& post.active_field == pre.active_field
    &&& post.url_style_active == pre.url_style_active
    &&& post.body_style_active == pre.body_style_active
}

/// The method a dispatch command triggers.
pub open spec fn dispatch_method(cmd: Command) -> Method {
    if cmd is DispatchGet {
        Method::Get
    } else {
        Method::Post
    }
}

/// One dispatch trigger while idle: on a body the parser rejects, stay
/// `Idle`, dispatch nothing and show the error object at once; otherwise
/// enqueue the built request and go `Running`.
pub open spec fn dispatch_transition(
    pre: AppState,
    method: Method,
    url_line: Seq<char>,
    body_lines: Seq<Seq<char>>,
    post: AppState,
    act: UiAction,
) -> bool {
    if has_body(body_lines) && !json_parses(joined_lines(body_lines)) {
        &&& post.run_state is Idle
        &&& same_focus(pre, post)
        &&& post.last_response == Some(
            error_object_of(body_parse_message(json_parse_of(joined_lines(body_lines))->Err_0)),
        )
        &&& act is DoNothing
    } else {
        &&& post.run_state is Running
        &&& same_focus(pre, post)
        &&& post.last_response == pre.last_response
        &&& act matches UiAction::Enqueue(r) && built_request(method, url_line, body_lines, Ok(r))
    }
}

/// The transition table for one key event: quit is honored in every state and
/// fires cancellation; every other command is ignored while `Running`; while
/// `Idle`, the command switches the field, dispatches, or is handed to the
/// surrounding loop as a paste, a select-all or an edit of the active field.
pub open spec fn key_transition(
    pre: AppState,
    cmd: Command,
    url_line: Seq<char>,
    body_lines: Seq<Seq<char>>,
    post: AppState,
    act: UiAction,
) -> bool {
    if cmd is Quit {
        &&& post.run_state is Exit
        &&& same_focus(pre, post)
        &&& post.last_response == pre.last_response
        &&& act is FireCancel
    } else if pre.run_state is Running {
        &&& post == pre
        &&& act is DoNothing
    } else {
        match cmd {
            Command::SwitchField => {
                &&& post.active_field == 1 - pre.active_field
                &&& post.url_style_active == (post.active_field == 0)
                &&& post.body_style_active == (post.active_field == 1)
                &&& post.run_state == pre.run_state
                &&& post.last_response == pre.last_response
                &&& act is DoNothing
            },
            Command::DispatchGet | Command::DispatchPost => dispatch_transition(
                pre,
                dispatch_method(cmd),
                url_line,
                body_lines,
                post,
                act,
            ),
            Command::Paste => {
                &&& post == pre
                &&& act matches UiAction::PasteInto(f) && f == pre.active_field
            },
            Command::SelectAll => {
                &&& post == pre
                &&& act matches UiAction::SelectAllIn(f) && f == pre.active_field
            },
            Command::Edit => {
                &&& post == pre
                &&& act matches UiAction::EditIn(f) && f == pre.active_field
            },
            Command::Quit => false,
        }
    }
}

/// What one poll of the response channel does: nothing arrived, nothing
/// changes; a result arrived, it is shown (an error as the error object) and
/// the machine is `Idle` again within this very tick.
pub open spec fn poll_transition(
    pre: AppState,
    polled: Option<DispatchResult>,
    post: AppState,
) -> bool {
    match polled {
        Option::None => post == pre,
        Option::Some(res) => {
            &&& post.run_state is Idle
            &&& same_focus(pre, post)
            &&& post.last_response == Some(response_value(res))
        },
    }
}

/// The value the response pane shows for one dispatch result.
pub open spec fn response_value(res: DispatchResult) -> serde_json::Value {
    match res {
        Result::Ok(v) => v,
        Result::Err(e) => error_object_of(e.ui_message()),
    }
}

impl AppState {
    /// The state's internal invariant: the active field is one of the two,
    /// and exactly the active field's cursor styling is on.
    pub open spec fn wf(self) -> bool {
        &&& self.active_field < 2
        &&& self.url_style_active == (self.active_field == 0)
        &&& self.body_style_active == (self.active_field == 1)
    }

    /// The startup state: idle, URL field active, nothing to show.
    pub fn new() -> (s: AppState)
        ensures
            s.wf(),
            s.run_state is Idle,
            s.active_field == 0,
            s.url_style_active,
            !s.body_style_active,
            s.last_response is None,
    {
        AppState {
            active_field: 0,
            url_style_active: true,
            body_style_active: false,
            last_response: None,
            run_state: RunState::Idle,
        }
    }

    /// Process one decoded key event against the current field contents and
    /// decide what the surrounding loop must do.
    pub fn on_key(
        &mut self,
        cmd: Command,
        url_lines: &Vec<String>,
        body_lines: &Vec<String>,
    ) -> (act: UiAction)
        requires
            old(self).wf(),
            old(self).run_state !is Exit,
            url_lines@.len() >= 1,
            body_lines@.len() >= 1,
        ensures
            final(self).wf(),
            key_transition(
                *old(self),
                cmd,
                url_lines@[0]@,
                body_lines@.map_values(|l: String| l@),
                *final(self),
                act,
            ),
    {
        if cmd == Command::Quit {
            self.run_state = RunState::Exit;
            return UiAction::FireCancel;
        }
        if self.run_state == RunState::Running {
            return UiAction::DoNothing;
        }
        match cmd {
            Command::SwitchField => {
                if self.active_field == 0 {
                    self.active_field = 1;
                    self.url_style_active = false;
                    self.body_style_active = true;
                } else {
                    self.active_field = 0;
                    self.url_style_active = true;
                    self.body_style_active = false;
                }
                UiAction::DoNothing
            },
            Command::DispatchGet | Command::DispatchPost => {
                let method = if cmd == Command::DispatchGet {
                    Method::Get
                } else {
                    Method::Post
                };
                match build_request(method, url_lines, body_lines) {
                    Result::Ok(req) => {
                        self.run_state = RunState::Running;
                        UiAction::Enqueue(req)
                    },
                    Result::Err(e) => {
                        let msg = e.render_message();
                        let obj = crate::json::error_object(msg.as_str());
                        self.last_response = Some(obj);
                        UiAction::DoNothing
                    },
                }
            },
            Command::Paste => UiAction::PasteInto(self.active_field),
            Command::SelectAll => UiAction::SelectAllIn(self.active_field),
            Command::Edit => UiAction::EditIn(self.active_field),
            Command::Quit => UiAction::DoNothing,
        }
    }

    /// Take one non-blocking look at the response channel's output and show
    /// what arrived, if anything.
    pub fn on_poll(&mut self, polled: Option<DispatchResult>)
        requires
            old(self).wf(),
        ensures
            final(self).wf(),
            poll_transition(*old(self), polled, *final(self)),
    {
        match polled {
            Option::None => {},
            Option::Some(Result::Ok(v)) => {
                self.last_response = Some(v);
                self.run_state = RunState::Idle;
            },
            Option::Some(Result::Err(e)) => {
                let msg = e.render_message();
                let obj = crate::json::error_object(msg.as_str());
                self.last_response = Some(obj);
                self.run_state = RunState::Idle;
            },
        }
    }
}

/// A dispatch trigger whose body text the parser rejects starts nothing: the
/// machine stays `Idle`, no request is enqueued, and the error object is
/// shown at once, so the worker sees no activity at all for it.
pub proof fn lemma_rejected_body_never_dispatches(
    pre: AppState,
    cmd: Command,
    url_line: Seq<char>,
    body_lines: Seq<Seq<char>>,
    post: AppState,
    act: UiAction,
)
    requires
        pre.run_state is Idle,
        cmd is DispatchGet || cmd is DispatchPost,
        has_body(body_lines),
        !json_parses(joined_lines(body_lines)),
        key_transition(pre, cmd, url_line, body_lines, post, act),
    ensures
        post.run_state is Idle,
        act is DoNothing,
        post.last_response == Some(
            error_object_of(body_parse_message(json_parse_of(joined_lines(body_lines))->Err_0)),
        ),
{
}

/// Cancellation is fired exactly once: only quit fires it, and quitting makes
/// the machine exit. An exited machine accepts no further input, so a second
/// fire can never follow the first.
pub proof fn lemma_cancel_fired_exactly_once(
    pre: AppState,
    cmd: Command,
    url_line: Seq<char>,
    body_lines: Seq<Seq<char>>,
    post: AppState,
    act: UiAction,
)
    requires
        key_transition(pre, cmd, url_line, body_lines, post, act),
    ensures
        act is FireCancel <==> cmd is Quit,
        act is FireCancel ==> post.run_state is Exit,
{
}

/// While a request is in flight no second one is enqueued: every key but
/// quit leaves the machine untouched, and quit only fires cancellation. With
/// at most one request outstanding, delivery order over the FIFO channels is
/// trivially the dispatch order.
pub proof fn lemma_single_flight(
    pre: AppState,
    cmd: Command,
    url_line: Seq<char>,
    body_lines: Seq<Seq<char>>,
    post: AppState,
    act: UiAction,
)
    requires
        pre.run_state is Running,
        key_transition(pre, cmd, url_line, body_lines, post, act),
    ensures
        act !is Enqueue,
        cmd !is Quit ==> post == pre && act is DoNothing,
        cmd is Quit ==> post.run_state is Exit && act is FireCancel,
{
}

} // verus!
