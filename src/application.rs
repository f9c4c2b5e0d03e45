//! The root component: the greeting, and the dialog mode that decides whether
//! the name-input dialog is mounted.
use vstd::prelude::*;
use vstd::string::StringExecFns;
use crate::html::{Attributes, Events, Html, Node, Tag, AttributeView, el, no_events, click, views};
use crate::input_name_dialog::{Outcome, Sub as DialogSub};

verus! {

broadcast use crate::html::group_views;

/// Which overlay, if any, is shown over the greeting.
#[derive(PartialEq, Eq, Structural, Clone, Copy, Debug)]
pub enum Dialog {
    Closed,
    InputName,
}

#[derive(Clone, Debug, PartialEq, Eq)]
pub struct State {
    pub name: String,
    pub dialog: Dialog,
}

/// The application state as plain values.
pub struct StateView {
    pub name: Seq<char>,
    pub dialog: Dialog,
}

impl View for State {
    type V = StateView;

    open spec fn view(&self) -> StateView {
        StateView { name: self.name@, dialog: self.dialog }
    }
}

#[derive(Clone, Debug, PartialEq, Eq)]
pub enum Msg {
    /// Sets the greeting and closes the dialog; sent when the dialog confirms.
    SetName(String),
    ShowInputNameDialog,
    CloseDialog,
}

/// A message as plain values.
pub enum MsgView {
    SetName(Seq<char>),
    ShowInputNameDialog,
    CloseDialog,
}

impl View for Msg {
    type V = MsgView;

    open spec fn view(&self) -> MsgView {
        match self {
            Msg::SetName(t) => MsgView::SetName(t@),
            Msg::ShowInputNameDialog => MsgView::ShowInputNameDialog,
            Msg::CloseDialog => MsgView::CloseDialog,
        }
    }
}

/// The root has no parent, so it never reports anything.
#[derive(Debug, PartialEq, Eq)]
pub struct Sub {}

/// The state after `msg`.
pub open spec fn update_spec(s: StateView, msg: MsgView) -> StateView {
    match msg {
        MsgView::SetName(t) => StateView { name: t, dialog: Dialog::Closed },
        MsgView::ShowInputNameDialog => StateView { name: s.name, dialog: Dialog::InputName },
        MsgView::CloseDialog => StateView { name: s.name, dialog: Dialog::Closed },
    }
}

/// The parent message that each outcome of the dialog becomes.
pub open spec fn mapped(o: Outcome) -> MsgView {
    match o {
        Outcome::Confirmed(t) => MsgView::SetName(t),
        Outcome::Cancelled => MsgView::CloseDialog,
    }
}

/// The initial state: an empty name, no dialog.
pub fn init() -> (r: State)
    ensures
        r@ == (StateView { name: Seq::empty(), dialog: Dialog::Closed }),
{
    State { name: String::new(), dialog: Dialog::Closed }
}

/// Applies one message to the state.
pub fn update(state: &mut State, msg: &Msg) -> (r: Option<Sub>)
    ensures
        final(state)@ == update_spec(old(state)@, msg@),
        r is None,
{
    match msg {
        Msg::SetName(name) => {
            state.name = name.clone();
            if let Dialog::InputName = state.dialog {
                state.dialog = Dialog::Closed
            }
        },
        Msg::ShowInputNameDialog => state.dialog = Dialog::InputName,
        Msg::CloseDialog => state.dialog = Dialog::Closed,
    }
    None
}

/// The subscription under which the dialog is mounted: confirming sets the
/// name, cancelling closes the dialog.
pub fn map_sub(sub: DialogSub) -> (r: Msg)
    ensures
        r@ == mapped(sub@),
{
    match sub {
        DialogSub::Confirmed(name) => Msg::SetName(name),
        DialogSub::Cancelled => Msg::CloseDialog,
    }
}

/// The greeting line for `name`.
pub open spec fn greeting(name: Seq<char>) -> Seq<char> {
    "Hello "@ + name + " !"@
}

/// The greeting and the button that opens the dialog.
pub open spec fn content_view(name: Seq<char>) -> Node<Msg> {
    el(
        Tag::Div,
        seq![AttributeView::Class("jumbotron"@)],
        no_events(),
        seq![
            el(
                Tag::H1,
                seq![AttributeView::Class("display-4"@)],
                no_events(),
                seq![Node::Text(greeting(name))],
            ),
            el(
                Tag::Button,
                seq![
                    AttributeView::Class("btn"@),
                    AttributeView::Class("btn-primary"@),
                    AttributeView::Class("btn-lg"@),
                    AttributeView::Type("button"@),
                ],
                click(Msg::ShowInputNameDialog),
                seq![Node::Text("Input name"@)],
            ),
        ],
    )
}

/// The page with no overlay.
pub open spec fn no_dialog_view(name: Seq<char>) -> Node<Msg> {
    el(Tag::Div, seq![AttributeView::Id("app"@)], no_events(), seq![content_view(name)])
}

/// The backdrop that dims the page under the dialog.
pub open spec fn backdrop_view() -> Node<Msg> {
    el(
        Tag::Div,
        seq![
            AttributeView::Class("modal-backdrop"@),
            AttributeView::Class("fade"@),
            AttributeView::Class("show"@),
        ],
        no_events(),
        Seq::empty(),
    )
}

/// The centred frame that holds the mount point of the dialog.
pub open spec fn frame_view() -> Node<Msg> {
    el(
        Tag::Div,
        seq![
            AttributeView::Class("modal-dialog"@),
            AttributeView::Class("modal-dialog-centered"@),
        ],
        no_events(),
        seq![Node::Component],
    )
}

/// The modal overlay around the frame.
pub open spec fn modal_view() -> Node<Msg> {
    el(
        Tag::Div,
        seq![
            AttributeView::Class("modal"@),
            AttributeView::Class("fade"@),
            AttributeView::Class("show"@),
            AttributeView::Style("display"@, "block"@),
        ],
        no_events(),
        seq![frame_view()],
    )
}

/// The page with the dialog over it.
pub open spec fn dialog_view(name: Seq<char>) -> Node<Msg> {
    el(
        Tag::Div,
        seq![AttributeView::Id("app"@)],
        no_events(),
        seq![content_view(name), backdrop_view(), modal_view()],
    )
}

/// What `render` draws for the state `s`.
pub open spec fn render_view(s: StateView) -> Node<Msg> {
    match s.dialog {
        Dialog::Closed => no_dialog_view(s.name),
        Dialog::InputName => dialog_view(s.name),
    }
}

/// Rendering depends on the state alone: two renders of one state give the
/// same tree.
pub proof fn lemma_render_deterministic(state: State, first: Html<Msg>, second: Html<Msg>)
    requires
        first.view() == render_view(state@),
        second.view() == render_view(state@),
    ensures
        first.view() == second.view(),
{
}

/// Draws the page: the content alone, or the content under the dialog.
pub fn render(state: &State) -> (r: Html<Msg>)
    ensures
        r.view() == render_view(state@),
{
    match state.dialog {
        Dialog::Closed => render_no_dialog(state),
        Dialog::InputName => render_dialog(state),
    }
}

fn render_no_dialog(state: &State) -> (r: Html<Msg>)
    ensures
        r.view() == no_dialog_view(state.name@),
{
    let mut children = Vec::new();
    children.push(render_content(state));
    assert(views(children@) == no_dialog_view(state.name@)->children);
    Html::div(Attributes::new().id("app"), Events::new(), children)
}

fn render_backdrop() -> (r: Html<Msg>)
    ensures
        r.view() == backdrop_view(),
{
    let a = Attributes::new().class("modal-backdrop").class("fade").class("show");
    assert(a@ == backdrop_view()->attributes);
    let c = Vec::new();
    assert(views(c@) == backdrop_view()->children);
    Html::div(a, Events::new(), c)
}

fn render_modal() -> (r: Html<Msg>)
    ensures
        r.view() == modal_view(),
{
    let mut mount = Vec::new();
    mount.push(Html::component());
    assert(views(mount@) == frame_view()->children);
    let fa = Attributes::new().class("modal-dialog").class("modal-dialog-centered");
    assert(fa@ == frame_view()->attributes);
    let frame = Html::div(fa, Events::new(), mount);
    assert(frame.view() == frame_view());
    let mut inner = Vec::new();
    inner.push(frame);
    assert(views(inner@) == modal_view()->children);
    let a = Attributes::new().class("modal").class("fade").class("show").style("display", "block");
    assert(a@ == modal_view()->attributes);
    Html::div(a, Events::new(), inner)
}

fn render_dialog(state: &State) -> (r: Html<Msg>)
    ensures
        r.view() == dialog_view(state.name@),
{
    let mut children = Vec::new();
    children.push(render_content(state));
    children.push(render_backdrop());
    children.push(render_modal());
    assert(views(children@) == dialog_view(state.name@)->children);
    Html::div(Attributes::new().id("app"), Events::new(), children)
}

fn render_content(state: &State) -> (r: Html<Msg>)
    ensures
        r.view() == content_view(state.name@),
{
    let mut text = "Hello ".to_owned();
    text.append(state.name.as_str());
    text.append(" !");
    let mut line = Vec::new();
    line.push(Html::text(text));
    assert(views(line@) == content_view(state.name@)->children[0]->children);
    let heading = Html::h1(Attributes::new().class("display-4"), Events::new(), line);
    let mut label = Vec::new();
    label.push(Html::text("Input name".to_owned()));
    assert(views(label@) == content_view(state.name@)->children[1]->children);
    let a = Attributes::new().class("btn").class("btn-primary").class("btn-lg").type_("button");
    assert(a@ == content_view(state.name@)->children[1]->attributes);
    let button = Html::button(a, Events::new().on_click(Msg::ShowInputNameDialog), label);
    let mut children = Vec::new();
    children.push(heading);
    children.push(button);
    assert(views(children@) == content_view(state.name@)->children);
    Html::div(Attributes::new().class("jumbotron"), Events::new(), children)
}

} // verus!
