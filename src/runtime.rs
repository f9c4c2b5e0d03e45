//! The mounted component tree: the application and, while its dialog mode is
//! `InputName`, the one dialog instance that it owns. Dispatch runs one
//! message at a time: the component's `update`, then, for an outcome of the
//! dialog, the mapped message on the application.
use vstd::prelude::*;
use crate::application::{self, Dialog, Msg, MsgView, StateView, mapped, update_spec, render_view};
use crate::html::Html;
use crate::input_name_dialog::{self, Component, next_draft, outcome, outcome_view};

verus! {

/// The tree as plain values: the application's state and, when the dialog is
/// mounted, its draft.
pub struct RuntimeView {
    pub app: StateView,
    pub draft: Option<Seq<char>>,
}

impl RuntimeView {
    /// The dialog is mounted exactly while the dialog mode is `InputName`.
    pub open spec fn wf(self) -> bool {
        (self.app.dialog == Dialog::InputName) <==> (self.draft is Some)
    }
}

/// The draft after the application has moved to `app`: a dialog that stays
/// open keeps its draft, one that opens starts empty, one that closes is gone.
pub open spec fn remount(app: StateView, draft: Option<Seq<char>>) -> Option<Seq<char>> {
    if app.dialog == Dialog::InputName {
        match draft {
            Some(d) => Some(d),
            None => Some(Seq::empty()),
        }
    } else {
        None
    }
}

/// The tree after the application message `msg`.
pub open spec fn dispatch_spec(v: RuntimeView, msg: MsgView) -> RuntimeView {
    let app = update_spec(v.app, msg);
    RuntimeView { app, draft: remount(app, v.draft) }
}

/// The tree after the dialog message `msg`: nothing happens while no dialog is
/// mounted; else the draft moves on, and an outcome goes to the application
/// through the mapping.
pub open spec fn dispatch_dialog_spec(v: RuntimeView, msg: input_name_dialog::Msg) -> RuntimeView {
    match v.draft {
        None => v,
        Some(d) => {
            let after = RuntimeView { app: v.app, draft: Some(next_draft(d, msg)) };
            match outcome(d, msg) {
                None => after,
                Some(o) => dispatch_spec(after, mapped(o)),
            }
        },
    }
}

/// Closing the dialog, from any state of the tree, leaves the dialog mode
/// `Closed` and no dialog mounted; closing it a second time changes nothing.
pub proof fn lemma_close_dialog(v: RuntimeView)
    requires
        v.wf(),
    ensures
        dispatch_spec(v, MsgView::CloseDialog).app.dialog == Dialog::Closed,
        dispatch_spec(v, MsgView::CloseDialog).draft is None,
        dispatch_spec(dispatch_spec(v, MsgView::CloseDialog), MsgView::CloseDialog)
            == dispatch_spec(v, MsgView::CloseDialog),
{
}

/// Confirming the mounted dialog, whatever its draft, leaves the dialog mode
/// `Closed` and no dialog mounted.
pub proof fn lemma_confirm_unmounts(v: RuntimeView)
    requires
        v.wf(),
        v.draft is Some,
    ensures
        dispatch_dialog_spec(v, input_name_dialog::Msg::Confirm).app.dialog == Dialog::Closed,
        dispatch_dialog_spec(v, input_name_dialog::Msg::Confirm).draft is None,
{
}

/// Opening the dialog, typing `t` and confirming sets the name to `t` and
/// closes the dialog.
pub proof fn lemma_input_then_confirm(v: RuntimeView, t: String)
    requires
        v.wf(),
    ensures
        ({
            let opened = dispatch_spec(v, MsgView::ShowInputNameDialog);
            let typed = dispatch_dialog_spec(opened, input_name_dialog::Msg::InputName(t));
            let done = dispatch_dialog_spec(typed, input_name_dialog::Msg::Confirm);
            &&& done.app.name == t@
            &&& done.app.dialog == Dialog::Closed
            &&& done.draft is None
        }),
{
}

/// Opening the dialog, typing `t` and cancelling keeps the name and closes
/// the dialog.
pub proof fn lemma_input_then_cancel(v: RuntimeView, t: String)
    requires
        v.wf(),
    ensures
        ({
            let opened = dispatch_spec(v, MsgView::ShowInputNameDialog);
            let typed = dispatch_dialog_spec(opened, input_name_dialog::Msg::InputName(t));
            let done = dispatch_dialog_spec(typed, input_name_dialog::Msg::Cancel);
            &&& done.app.name == v.app.name
            &&& done.app.dialog == Dialog::Closed
            &&& done.draft is None
        }),
{
}

/// A dialog mounted again after one was cancelled starts from an empty
/// draft: nothing typed into the first one survives.
pub proof fn lemma_remount_starts_empty(v: RuntimeView, t: String)
    requires
        v.wf(),
    ensures
        ({
            let opened = dispatch_spec(v, MsgView::ShowInputNameDialog);
            let typed = dispatch_dialog_spec(opened, input_name_dialog::Msg::InputName(t));
            let cancelled = dispatch_dialog_spec(typed, input_name_dialog::Msg::Cancel);
            let reopened = dispatch_spec(cancelled, MsgView::ShowInputNameDialog);
            reopened.draft == Some(Seq::<char>::empty())
        }),
{
}

pub struct Runtime {
    state: application::State,
    dialog: Option<Component>,
}

impl View for Runtime {
    type V = RuntimeView;

    closed spec fn view(&self) -> RuntimeView {
        RuntimeView {
            app: self.state@,
            draft: match self.dialog {
                Some(c) => Some(c@),
                None => None,
            },
        }
    }
}

impl Runtime {
    /// Mounts the application in its initial state.
    pub fn start() -> (r: Runtime)
        ensures
            r@ == (RuntimeView {
                app: StateView { name: Seq::empty(), dialog: Dialog::Closed },
                draft: None,
            }),
            r@.wf(),
    {
        Runtime { state: application::init(), dialog: None }
    }

    /// The application's state.
    pub fn state(&self) -> (r: &application::State)
        ensures
            r@ == self@.app,
    {
        &self.state
    }

    /// The mounted dialog, if any.
    pub fn dialog(&self) -> (r: Option<&Component>)
        ensures
            match r {
                Some(c) => self@.draft == Some(c@),
                None => self@.draft is None,
            },
    {
        match &self.dialog {
            Some(c) => Some(c),
            None => None,
        }
    }

    /// Mounts or unmounts the dialog to follow the dialog mode.
    fn sync_mount(&mut self)
        ensures
            final(self)@ == (RuntimeView {
                app: old(self)@.app,
                draft: remount(old(self)@.app, old(self)@.draft),
            }),
    {
        match self.state.dialog {
            Dialog::InputName => {
                if self.dialog.is_none() {
                    self.dialog = Some(input_name_dialog::new());
                }
            },
            Dialog::Closed => {
                self.dialog = None;
            },
        }
    }

    /// Dispatches a message to the application.
    pub fn dispatch(&mut self, msg: &Msg)
        requires
            old(self)@.wf(),
        ensures
            final(self)@ == dispatch_spec(old(self)@, msg@),
            final(self)@.wf(),
    {
        application::update(&mut self.state, msg);
        self.sync_mount();
    }

    /// Dispatches a message to the mounted dialog, and its outcome, mapped, to
    /// the application. Without a mounted dialog nothing happens.
    pub fn dispatch_dialog(&mut self, msg: &input_name_dialog::Msg)
        requires
            old(self)@.wf(),
        ensures
            final(self)@ == dispatch_dialog_spec(old(self)@, *msg),
            final(self)@.wf(),
    {
        let sub = match &mut self.dialog {
            Some(c) => c.update(msg),
            None => {
                return;
            },
        };
        match sub {
            Some(s) => {
                assert(outcome_view(Some(s)) == Some(s@));
                let m = application::map_sub(s);
                self.dispatch(&m);
            },
            None => {},
        }
    }

    /// Draws the application; the dialog, when mounted, draws itself at the
    /// mount point.
    pub fn render(&self) -> (r: Html<Msg>)
        ensures
            r.view() == render_view(self@.app),
    {
        application::render(&self.state)
    }
}

} // verus!
