//! The name-input dialog: a form that owns one draft string and reports to its
//! parent only by its outcomes.
use vstd::prelude::*;
use crate::html::{views, Attributes, Events, Html, Node, Tag, AttributeView, el, no_events, click};

verus! {

broadcast use crate::html::group_views;

/// The draft name being edited.
pub type State = String;

/// What the dialog's own controls ask of it.
#[derive(Clone, Debug, PartialEq, Eq)]
pub enum Msg {
    /// The input control now holds this text.
    InputName(String),
    /// The Ok button.
    Confirm,
    /// The Cancel button.
    Cancel,
}

/// What the dialog reports to its parent.
#[derive(Clone, Debug, PartialEq, Eq)]
pub enum Sub {
    Confirmed(String),
    Cancelled,
}

/// An outcome as plain values.
pub enum Outcome {
    Confirmed(Seq<char>),
    Cancelled,
}

impl View for Sub {
    type V = Outcome;

    open spec fn view(&self) -> Outcome {
        match self {
            Sub::Confirmed(s) => Outcome::Confirmed(s@),
            Sub::Cancelled => Outcome::Cancelled,
        }
    }
}

/// The outcome of an `update`, as plain values.
pub open spec fn outcome_view(r: Option<Sub>) -> Option<Outcome> {
    match r {
        Some(s) => Some(s@),
        None => None,
    }
}

/// The draft after `msg`: an edit replaces it verbatim, the buttons keep it.
pub open spec fn next_draft(draft: Seq<char>, msg: Msg) -> Seq<char> {
    match msg {
        Msg::InputName(t) => t@,
        Msg::Confirm => draft,
        Msg::Cancel => draft,
    }
}

/// What `msg` reports to the parent: Ok hands out the draft as it stands,
/// Cancel reports only that the dialog was cancelled, an edit reports nothing.
pub open spec fn outcome(draft: Seq<char>, msg: Msg) -> Option<Outcome> {
    match msg {
        Msg::InputName(_) => None,
        Msg::Confirm => Some(Outcome::Confirmed(draft)),
        Msg::Cancel => Some(Outcome::Cancelled),
    }
}

/// The state of a freshly mounted dialog: an empty draft.
pub fn init() -> (r: State)
    ensures
        r@ == Seq::<char>::empty(),
{
    String::new()
}

/// Applies one message to the draft and returns what the parent is to hear.
pub fn update(state: &mut State, msg: &Msg) -> (r: Option<Sub>)
    ensures
        final(state)@ == next_draft(old(state)@, *msg),
        outcome_view(r) == outcome(old(state)@, *msg),
{
    match msg {
        Msg::InputName(name) => {
            *state = name.clone();
            None
        },
        Msg::Confirm => Some(Sub::Confirmed(state.clone())),
        Msg::Cancel => Some(Sub::Cancelled),
    }
}

/// The dialog's title bar.
pub open spec fn header_view() -> Node<Msg> {
    el(
        Tag::Div,
        seq![AttributeView::Class("modal-header"@)],
        no_events(),
        seq![
            el(
                Tag::H5,
                seq![AttributeView::Class("modal-title"@)],
                no_events(),
                seq![Node::Text("名前を入力してください"@)],
            ),
        ],
    )
}

/// The input control, which shows the draft and reports every edit.
pub open spec fn input_view(draft: Seq<char>) -> Node<Msg> {
    el(
        Tag::Input,
        seq![AttributeView::Class("form-control"@), AttributeView::Value(draft)],
        Events { on_click: None, on_input: true },
        Seq::empty(),
    )
}

/// A button of the footer.
pub open spec fn button_view(kind: Seq<char>, msg: Msg, label: Seq<char>) -> Node<Msg> {
    el(
        Tag::Button,
        seq![
            AttributeView::Class("btn"@),
            AttributeView::Class(kind),
            AttributeView::Type("button"@),
        ],
        click(msg),
        seq![Node::Text(label)],
    )
}

/// The footer: Cancel, then Ok.
pub open spec fn footer_view() -> Node<Msg> {
    el(
        Tag::Div,
        seq![AttributeView::Class("modal-footer"@)],
        no_events(),
        seq![
            button_view("btn-secondary"@, Msg::Cancel, "Cancel"@),
            button_view("btn-primary"@, Msg::Confirm, "Ok"@),
        ],
    )
}

/// The dialog's layout: a title, an input control that shows the draft, and
/// the Cancel and Ok buttons.
pub open spec fn render_view(draft: Seq<char>) -> Node<Msg> {
    el(
        Tag::Div,
        seq![AttributeView::Class("modal-content"@)],
        no_events(),
        seq![
            header_view(),
            el(
                Tag::Div,
                seq![AttributeView::Class("modal-body"@)],
                no_events(),
                seq![input_view(draft)],
            ),
            footer_view(),
        ],
    )
}

fn render_header() -> (r: Html<Msg>)
    ensures
        r.view() == header_view(),
{
    let mut title_text = Vec::new();
    title_text.push(Html::text("名前を入力してください".to_owned()));
    let mut title = Vec::new();
    title.push(Html::h5(Attributes::new().class("modal-title"), Events::new(), title_text));
    Html::div(Attributes::new().class("modal-header"), Events::new(), title)
}

fn render_input(state: &State) -> (r: Html<Msg>)
    ensures
        r.view() == input_view(state@),
{
    let a = Attributes::new().class("form-control").value(state.as_str());
    assert(a@ == input_view(state@)->attributes);
    let e = Events::new().on_input();
    assert(e == input_view(state@)->events);
    let c = Vec::new();
    assert(views(c@) == input_view(state@)->children);
    Html::input(a, e, c)
}

fn render_button(kind: &str, msg: Msg, label: &str) -> (r: Html<Msg>)
    ensures
        r.view() == button_view(kind@, msg, label@),
{
    let mut text = Vec::new();
    text.push(Html::text(label.to_owned()));
    let a = Attributes::new().class("btn").class(kind).type_("button");
    assert(a@ == button_view(kind@, msg, label@)->attributes);
    let e = Events::new().on_click(msg);
    assert(e == button_view(kind@, msg, label@)->events);
    assert(views(text@) == button_view(kind@, msg, label@)->children);
    Html::button(a, e, text)
}

fn render_footer() -> (r: Html<Msg>)
    ensures
        r.view() == footer_view(),
{
    let mut buttons = Vec::new();
    buttons.push(render_button("btn-secondary", Msg::Cancel, "Cancel"));
    buttons.push(render_button("btn-primary", Msg::Confirm, "Ok"));
    assert(views(buttons@) == footer_view()->children);
    Html::div(Attributes::new().class("modal-footer"), Events::new(), buttons)
}

/// Rendering depends on the draft alone: two renders of one draft give the
/// same tree.
pub proof fn lemma_render_deterministic(state: State, first: Html<Msg>, second: Html<Msg>)
    requires
        first.view() == render_view(state@),
        second.view() == render_view(state@),
    ensures
        first.view() == second.view(),
{
}

/// Renders the dialog for the draft `state`.
pub fn render(state: &State) -> (r: Html<Msg>)
    ensures
        r.view() == render_view(state@),
{
    let mut input = Vec::new();
    input.push(render_input(state));
    let mut parts = Vec::new();
    parts.push(render_header());
    parts.push(Html::div(Attributes::new().class("modal-body"), Events::new(), input));
    parts.push(render_footer());
    assert(views(input@) == render_view(state@)->children[1]->children);
    assert(views(parts@) == render_view(state@)->children);
    Html::div(Attributes::new().class("modal-content"), Events::new(), parts)
}

/// A mounted instance of the dialog: the component together with the state
/// that it owns for as long as it is mounted.
pub struct Component {
    state: State,
}

impl View for Component {
    type V = Seq<char>;

    closed spec fn view(&self) -> Seq<char> {
        self.state@
    }
}

/// Mounts a fresh dialog, with an empty draft.
pub fn new() -> (r: Component)
    ensures
        r@ == Seq::<char>::empty(),
{
    Component { state: init() }
}

impl Component {
    /// The draft as it stands.
    pub fn state(&self) -> (r: &State)
        ensures
            r@ == self@,
    {
        &self.state
    }

    /// Dispatches one message to the mounted dialog.
    pub fn update(&mut self, msg: &Msg) -> (r: Option<Sub>)
        ensures
            final(self)@ == next_draft(old(self)@, *msg),
            outcome_view(r) == outcome(old(self)@, *msg),
    {
        update(&mut self.state, msg)
    }

    pub fn render(&self) -> (r: Html<Msg>)
        ensures
            r.view() == render_view(self@),
    {
        render(&self.state)
    }
}

} // verus!
