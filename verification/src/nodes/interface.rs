//! What a node shows in its parameter panel and what comes back from it.

use vstd::prelude::*;
use crate::engine::texts;
use crate::nodes::data::{
    copy_of, entry_or, insert_entry, listing, lookup, put_entry, DataView, NodeData, Scalar,
};
use crate::nodes::metadata::{Color32, PanelType};

verus! {

/// A place in the graph editor.
#[derive(Debug, Clone, Copy, PartialEq, Eq, Structural)]
pub struct Pos2 {
    pub x: Scalar,
    pub y: Scalar,
}

/// One element of a parameter panel.
#[derive(Debug, Clone)]
pub enum UIElement {
    Heading(String),
    Label(String),
    Separator,
    TextEdit { label: String, value: String, parameter_name: String },
    Checkbox { label: String, value: bool, parameter_name: String },
    Button { label: String, action: String },
    Slider { label: String, value: Scalar, min: Scalar, max: Scalar, parameter_name: String },
}

/// An element of a parameter panel as text.
pub ghost enum ElementView {
    Heading(Seq<char>),
    Label(Seq<char>),
    Separator,
    TextEdit { label: Seq<char>, value: Seq<char>, parameter_name: Seq<char> },
    Checkbox { label: Seq<char>, value: bool, parameter_name: Seq<char> },
    Button { label: Seq<char>, action: Seq<char> },
    Slider { label: Seq<char>, value: Scalar, min: Scalar, max: Scalar, parameter_name: Seq<char> },
}

impl View for UIElement {
    type V = ElementView;

    open spec fn view(&self) -> ElementView {
        match self {
            UIElement::Heading(t) => ElementView::Heading(t@),
            UIElement::Label(t) => ElementView::Label(t@),
            UIElement::Separator => ElementView::Separator,
            UIElement::TextEdit { label, value, parameter_name } => ElementView::TextEdit {
                label: label@,
                value: value@,
                parameter_name: parameter_name@,
            },
            UIElement::Checkbox { label, value, parameter_name } => ElementView::Checkbox {
                label: label@,
                value: *value,
                parameter_name: parameter_name@,
            },
            UIElement::Button { label, action } => ElementView::Button {
                label: label@,
                action: action@,
            },
            UIElement::Slider { label, value, min, max, parameter_name } => ElementView::Slider {
                label: label@,
                value: *value,
                min: *min,
                max: *max,
                parameter_name: parameter_name@,
            },
        }
    }
}

/// A parameter panel: its elements from top to bottom.
#[derive(Debug, Clone)]
pub struct ParameterUI {
    pub elements: Vec<UIElement>,
}

/// The elements of a panel as text.
pub open spec fn panel(elements: Seq<UIElement>) -> Seq<ElementView> {
    Seq::new(elements.len(), |i: int| elements[i]@)
}

/// What the user did in a panel.
#[derive(Debug, Clone)]
pub enum UIAction {
    ParameterChanged { parameter: String, value: NodeData },
    ButtonClicked { action: String },
}

/// A parameter that a node changed in answer to an action.
#[derive(Debug, Clone)]
pub struct ParameterChange {
    pub parameter: String,
    pub value: NodeData,
}

/// Changes as text: the name of each parameter and its new value.
pub open spec fn changed(changes: Seq<ParameterChange>) -> Seq<(Seq<char>, DataView)> {
    Seq::new(changes.len(), |i: int| (changes[i].parameter@, changes[i].value@))
}

/// A heading.
pub fn heading(text: &str) -> (e: UIElement)
    ensures
        e@ == ElementView::Heading(text@),
{
    UIElement::Heading(text.to_owned())
}

/// A line of text.
pub fn label(text: &str) -> (e: UIElement)
    ensures
        e@ == ElementView::Label(text@),
{
    UIElement::Label(text.to_owned())
}

/// A text field that edits the parameter `parameter_name`.
pub fn text_edit(label: &str, value: &str, parameter_name: &str) -> (e: UIElement)
    ensures
        e@ == (ElementView::TextEdit {
            label: label@,
            value: value@,
            parameter_name: parameter_name@,
        }),
{
    UIElement::TextEdit {
        label: label.to_owned(),
        value: value.to_owned(),
        parameter_name: parameter_name.to_owned(),
    }
}

/// A checkbox that edits the parameter `parameter_name`.
pub fn checkbox(label: &str, value: bool, parameter_name: &str) -> (e: UIElement)
    ensures
        e@ == (ElementView::Checkbox { label: label@, value, parameter_name: parameter_name@ }),
{
    UIElement::Checkbox { label: label.to_owned(), value, parameter_name: parameter_name.to_owned() }
}

/// A button that triggers `action`.
pub fn button(label: &str, action: &str) -> (e: UIElement)
    ensures
        e@ == (ElementView::Button { label: label@, action: action@ }),
{
    UIElement::Button { label: label.to_owned(), action: action.to_owned() }
}

/// A slider between `min` and `max` that edits the parameter
/// `parameter_name`.
pub fn slider(label: &str, value: Scalar, min: Scalar, max: Scalar, parameter_name: &str) -> (e:
    UIElement)
    ensures
        e@ == (ElementView::Slider {
            label: label@,
            value,
            min,
            max,
            parameter_name: parameter_name@,
        }),
{
    UIElement::Slider {
        label: label.to_owned(),
        value,
        min,
        max,
        parameter_name: parameter_name.to_owned(),
    }
}

/// Notes that `parameter` now has the value `value`.
pub fn note_change(changes: &mut Vec<ParameterChange>, parameter: &str, value: NodeData)
    ensures
        changed(final(changes)@) == changed(old(changes)@).push((parameter@, value@)),
{
    changes.push(ParameterChange { parameter: parameter.to_owned(), value });
    assert(changed(changes@) =~= changed(old(changes)@).push((parameter@, value@)));
}

/// Adds an element at the bottom of a panel.
pub fn add_element(elements: &mut Vec<UIElement>, element: UIElement)
    ensures
        panel(final(elements)@) == panel(old(elements)@).push(element@),
{
    elements.push(element);
    assert(panel(elements@) =~= panel(old(elements)@).push(element@));
}

/// How a parameter is edited in a panel.
#[derive(Debug, Clone)]
pub enum Widget {
    /// A number that is dragged, `speed` per point, between `min` and `max`,
    /// shown with `suffix`.
    Drag { speed: Scalar, min: Scalar, max: Scalar, suffix: String },
    /// A whole number that is dragged, `speed` per point, between `min` and
    /// `max`.
    IntegerDrag { speed: Scalar, min: i64, max: i64 },
    /// A number on a slider between `min` and `max`.
    Slider { min: Scalar, max: Scalar },
    /// One of a list of texts.
    Choice { options: Vec<String> },
    /// A flag with a text beside it.
    Checkbox { text: String },
    /// A line of text, with lines of explanation above it.
    TextLine { hints: Vec<String> },
    /// A color, edited by its red, green and blue.
    ColorButton,
}

/// A widget as text.
#[verifier::ext_equal]
pub ghost enum WidgetView {
    Drag { speed: Scalar, min: Scalar, max: Scalar, suffix: Seq<char> },
    IntegerDrag { speed: Scalar, min: i64, max: i64 },
    Slider { min: Scalar, max: Scalar },
    Choice { options: Seq<Seq<char>> },
    Checkbox { text: Seq<char> },
    TextLine { hints: Seq<Seq<char>> },
    ColorButton,
}

impl View for Widget {
    type V = WidgetView;

    open spec fn view(&self) -> WidgetView {
        match self {
            Widget::Drag { speed, min, max, suffix } => WidgetView::Drag {
                speed: *speed,
                min: *min,
                max: *max,
                suffix: suffix@,
            },
            Widget::IntegerDrag { speed, min, max } => WidgetView::IntegerDrag {
                speed: *speed,
                min: *min,
                max: *max,
            },
            Widget::Slider { min, max } => WidgetView::Slider { min: *min, max: *max },
            Widget::Choice { options } => WidgetView::Choice { options: texts(options@) },
            Widget::Checkbox { text } => WidgetView::Checkbox { text: text@ },
            Widget::TextLine { hints } => WidgetView::TextLine { hints: texts(hints@) },
            Widget::ColorButton => WidgetView::ColorButton,
        }
    }
}

/// One line of a parameter panel of the editor's own kind.
#[derive(Debug, Clone)]
pub enum PanelItem {
    Heading(String),
    Separator,
    Label(String),
    /// The heading of a section that can be folded away.
    Section(String),
    /// A line of text in a color.
    Colored { color: Color32, text: String },
    /// A button that triggers `action`.
    Button { label: String, action: String },
    /// A parameter of the node: its name, the label of its line, the value
    /// it has while the node holds none, and the widget that edits it.
    Parameter { name: String, label: String, default: NodeData, widget: Widget },
}

/// A line of a panel as text.
#[verifier::ext_equal]
pub ghost enum ItemView {
    Heading(Seq<char>),
    Separator,
    Label(Seq<char>),
    Section(Seq<char>),
    Colored { color: Color32, text: Seq<char> },
    Button { label: Seq<char>, action: Seq<char> },
    Parameter { name: Seq<char>, label: Seq<char>, default: DataView, widget: WidgetView },
}

impl View for PanelItem {
    type V = ItemView;

    open spec fn view(&self) -> ItemView {
        match self {
            PanelItem::Heading(t) => ItemView::Heading(t@),
            PanelItem::Separator => ItemView::Separator,
            PanelItem::Label(t) => ItemView::Label(t@),
            PanelItem::Section(t) => ItemView::Section(t@),
            PanelItem::Colored { color, text } => ItemView::Colored { color: *color, text: text@ },
            PanelItem::Button { label, action } => ItemView::Button {
                label: label@,
                action: action@,
            },
            PanelItem::Parameter { name, label, default, widget } => ItemView::Parameter {
                name: name@,
                label: label@,
                default: default@,
                widget: widget@,
            },
        }
    }
}

/// The lines of a panel as text.
pub open spec fn lines(items: Seq<PanelItem>) -> Seq<ItemView> {
    Seq::new(items.len(), |i: int| items[i]@)
}

/// Adds a line at the bottom of a panel.
pub fn add_line(items: &mut Vec<PanelItem>, item: PanelItem)
    ensures
        lines(final(items)@) == lines(old(items)@).push(item@),
{
    items.push(item);
    assert(lines(items@) =~= lines(old(items)@).push(item@));
}

/// A node as the editor keeps it.
#[derive(Debug, Clone)]
pub struct Node {
    pub id: usize,
    pub title: String,
    pub position: Pos2,
    pub color: Option<Color32>,
    pub inputs: Vec<String>,
    pub outputs: Vec<String>,
    pub panel_type: Option<PanelType>,
    pub parameters: Vec<(String, NodeData)>,
}

impl Node {
    /// A node without ports and parameters.
    pub fn new(id: usize, title: &str, position: Pos2) -> (node: Node)
        ensures
            node.id == id,
            node.title@ == title@,
            node.position == position,
            node.color is None,
            node.inputs@.len() == 0,
            node.outputs@.len() == 0,
            node.panel_type is None,
            node.parameters@.len() == 0,
    {
        Node {
            id,
            title: title.to_owned(),
            position,
            color: None,
            inputs: Vec::new(),
            outputs: Vec::new(),
            panel_type: None,
            parameters: Vec::new(),
        }
    }

    /// The value of the parameter `name`, or `default` while the node holds
    /// none.
    pub fn current(&self, name: &str, default: NodeData) -> (value: NodeData)
        ensures
            value@ == entry_or(listing(self.parameters@), name@, default@),
    {
        let ghost all = listing(self.parameters@);
        assert(Seq::new(all.len(), |i: int| all[i].0) =~= crate::nodes::data::names(
            self.parameters@,
        ));
        proof {
            crate::engine::lemma_position(crate::nodes::data::names(self.parameters@), name@);
        }
        match lookup(&self.parameters, name) {
            Some(d) => copy_of(d),
            None => default,
        }
    }

    /// Takes over a value that a widget reported: the node holds it under
    /// `name` from now on, and the change is noted.
    pub fn commit(&mut self, changes: &mut Vec<ParameterChange>, name: &str, value: NodeData)
        ensures
            listing(final(self).parameters@) == put_entry(
                listing(old(self).parameters@),
                name@,
                value@,
            ),
            changed(final(changes)@) == changed(old(changes)@).push((name@, value@)),
            final(self).id == old(self).id,
            final(self).title == old(self).title,
            final(self).position == old(self).position,
            final(self).color == old(self).color,
            final(self).inputs == old(self).inputs,
            final(self).outputs == old(self).outputs,
            final(self).panel_type == old(self).panel_type,
    {
        insert_entry(&mut self.parameters, name, copy_of(&value));
        note_change(changes, name, value);
    }
}

} // verus!
