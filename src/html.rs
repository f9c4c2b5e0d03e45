//! A declarative UI tree: what a component's `render` produces and a render
//! engine reconciles against the live surface.
use vstd::prelude::*;

verus! {

broadcast use vstd::std_specs::vec::group_vec_axioms;

/// The element kinds that the components use.
#[derive(PartialEq, Eq, Structural, Clone, Copy, Debug)]
pub enum Tag {
    Div,
    H1,
    H5,
    Button,
    Input,
}

/// One annotation on an element.
#[derive(Clone, Debug, PartialEq, Eq)]
pub enum Attribute {
    Id(String),
    Class(String),
    Style(String, String),
    Value(String),
    Type(String),
}

/// An annotation as plain text.
pub enum AttributeView {
    Id(Seq<char>),
    Class(Seq<char>),
    Style(Seq<char>, Seq<char>),
    Value(Seq<char>),
    Type(Seq<char>),
}

impl View for Attribute {
    type V = AttributeView;

    open spec fn view(&self) -> AttributeView {
        match self {
            Attribute::Id(s) => AttributeView::Id(s@),
            Attribute::Class(s) => AttributeView::Class(s@),
            Attribute::Style(k, v) => AttributeView::Style(k@, v@),
            Attribute::Value(s) => AttributeView::Value(s@),
            Attribute::Type(s) => AttributeView::Type(s@),
        }
    }
}

/// The annotations of an element, in the order they were added.
#[derive(Clone, Debug, PartialEq, Eq)]
pub struct Attributes {
    pub items: Vec<Attribute>,
}

impl View for Attributes {
    type V = Seq<AttributeView>;

    open spec fn view(&self) -> Seq<AttributeView> {
        self.items@.map_values(|a: Attribute| a@)
    }
}

impl Attributes {
    pub fn new() -> (r: Attributes)
        ensures
            r@ == Seq::<AttributeView>::empty(),
    {
        let r = Attributes { items: Vec::new() };
        assert(r@ =~= Seq::<AttributeView>::empty());
        r
    }

    fn with(self, a: Attribute) -> (r: Attributes)
        ensures
            r@ == self@.push(a@),
    {
        let mut items = self.items;
        items.push(a);
        let r = Attributes { items };
        assert(r@ =~= self@.push(a@));
        r
    }

    pub fn id(self, s: &str) -> (r: Attributes)
        ensures
            r@ == self@.push(AttributeView::Id(s@)),
    {
        self.with(Attribute::Id(s.to_owned()))
    }

    pub fn class(self, s: &str) -> (r: Attributes)
        ensures
            r@ == self@.push(AttributeView::Class(s@)),
    {
        self.with(Attribute::Class(s.to_owned()))
    }

    pub fn style(self, key: &str, value: &str) -> (r: Attributes)
        ensures
            r@ == self@.push(AttributeView::Style(key@, value@)),
    {
        self.with(Attribute::Style(key.to_owned(), value.to_owned()))
    }

    pub fn value(self, s: &str) -> (r: Attributes)
        ensures
            r@ == self@.push(AttributeView::Value(s@)),
    {
        self.with(Attribute::Value(s.to_owned()))
    }

    pub fn type_(self, s: &str) -> (r: Attributes)
        ensures
            r@ == self@.push(AttributeView::Type(s@)),
    {
        self.with(Attribute::Type(s.to_owned()))
    }
}

/// The handlers of an element. A handler is the message that the event
/// dispatches, not code: `on_input` marks a control whose every edit is
/// dispatched as the component's input message carrying the new text.
#[derive(Clone, Debug, PartialEq, Eq)]
pub struct Events<M> {
    pub on_click: Option<M>,
    pub on_input: bool,
}

impl<M> Events<M> {
    pub fn new() -> (r: Events<M>)
        ensures
            r == (Events::<M> { on_click: None, on_input: false }),
    {
        Events { on_click: None, on_input: false }
    }

    pub fn on_click(self, msg: M) -> (r: Events<M>)
        ensures
            r == (Events::<M> { on_click: Some(msg), on_input: self.on_input }),
    {
        Events { on_click: Some(msg), on_input: self.on_input }
    }

    pub fn on_input(self) -> (r: Events<M>)
        ensures
            r == (Events::<M> { on_click: self.on_click, on_input: true }),
    {
        Events { on_click: self.on_click, on_input: true }
    }
}

/// A tree of markup whose handlers dispatch messages of type `M`.
#[derive(Debug, PartialEq, Eq)]
pub enum Html<M> {
    Element { tag: Tag, attributes: Attributes, events: Events<M>, children: Vec<Html<M>> },
    Text(String),
    /// The place where the component's one child component is mounted.
    Component,
}

/// The tree as plain values.
pub enum Node<M> {
    Element {
        tag: Tag,
        attributes: Seq<AttributeView>,
        events: Events<M>,
        children: Seq<Node<M>>,
    },
    Text(Seq<char>),
    Component,
}

/// An element as plain values.
pub open spec fn el<M>(
    tag: Tag,
    attributes: Seq<AttributeView>,
    events: Events<M>,
    children: Seq<Node<M>>,
) -> Node<M> {
    Node::Element { tag, attributes, events, children }
}

/// Handlers that dispatch nothing.
pub open spec fn no_events<M>() -> Events<M> {
    Events { on_click: None, on_input: false }
}

/// A click handler that dispatches `msg`.
pub open spec fn click<M>(msg: M) -> Events<M> {
    Events { on_click: Some(msg), on_input: false }
}

/// The views of a list of trees, one for one.
pub open spec fn views<M>(s: Seq<Html<M>>) -> Seq<Node<M>> {
    s.map_values(|h: Html<M>| h.view())
}

/// The views of no trees are no nodes.
pub broadcast proof fn lemma_views_empty<M>()
    ensures
        #[trigger] views(Seq::<Html<M>>::empty()) == Seq::<Node<M>>::empty(),
{
    assert(views(Seq::<Html<M>>::empty()) =~= Seq::<Node<M>>::empty());
}

/// Taking views commutes with appending a tree.
pub broadcast proof fn lemma_views_push<M>(s: Seq<Html<M>>, h: Html<M>)
    ensures
        #[trigger] views(s.push(h)) == views(s).push(h.view()),
{
    assert(views(s.push(h)) =~= views(s).push(h.view()));
}

pub broadcast group group_views {
    lemma_views_empty,
    lemma_views_push,
}

impl<M> Html<M> {
    pub open spec fn view(self) -> Node<M>
        decreases self,
    {
        match self {
            Html::Element { tag, attributes, events, children } => Node::Element {
                tag,
                attributes: attributes@,
                events,
                children: Seq::new(
                    children@.len(),
                    |i: int|
                        if 0 <= i < children@.len() {
                            children[i].view()
                        } else {
                            Node::Component
                        },
                ),
            },
            Html::Text(s) => Node::Text(s@),
            Html::Component => Node::Component,
        }
    }

    pub fn element(tag: Tag, attributes: Attributes, events: Events<M>, children: Vec<Html<M>>) -> (r:
        Html<M>)
        ensures
            r.view() == (Node::Element {
                tag,
                attributes: attributes@,
                events,
                children: views(children@),
            }),
    {
        let ghost c = children@;
        let r = Html::Element { tag, attributes, events, children };
        assert(r.view()->children =~= views(c));
        r
    }

    pub fn div(attributes: Attributes, events: Events<M>, children: Vec<Html<M>>) -> (r: Html<M>)
        ensures
            r.view() == (Node::Element {
                tag: Tag::Div,
                attributes: attributes@,
                events,
                children: views(children@),
            }),
    {
        Html::element(Tag::Div, attributes, events, children)
    }

    pub fn h1(attributes: Attributes, events: Events<M>, children: Vec<Html<M>>) -> (r: Html<M>)
        ensures
            r.view() == (Node::Element {
                tag: Tag::H1,
                attributes: attributes@,
                events,
                children: views(children@),
            }),
    {
        Html::element(Tag::H1, attributes, events, children)
    }

    pub fn h5(attributes: Attributes, events: Events<M>, children: Vec<Html<M>>) -> (r: Html<M>)
        ensures
            r.view() == (Node::Element {
                tag: Tag::H5,
                attributes: attributes@,
                events,
                children: views(children@),
            }),
    {
        Html::element(Tag::H5, attributes, events, children)
    }

    pub fn button(attributes: Attributes, events: Events<M>, children: Vec<Html<M>>) -> (r: Html<
        M,
    >)
        ensures
            r.view() == (Node::Element {
                tag: Tag::Button,
                attributes: attributes@,
                events,
                children: views(children@),
            }),
    {
        Html::element(Tag::Button, attributes, events, children)
    }

    pub fn input(attributes: Attributes, events: Events<M>, children: Vec<Html<M>>) -> (r: Html<
        M,
    >)
        ensures
            r.view() == (Node::Element {
                tag: Tag::Input,
                attributes: attributes@,
                events,
                children: views(children@),
            }),
    {
        Html::element(Tag::Input, attributes, events, children)
    }

    pub fn text(s: String) -> (r: Html<M>)
        ensures
            r.view() == Node::<M>::Text(s@),
    {
        Html::Text(s)
    }

    pub fn component() -> (r: Html<M>)
        ensures
            r.view() == Node::<M>::Component,
    {
        Html::Component
    }
}

} // verus!
