//! How a node presents itself to the editor: its name and place in the
//! catalog, its color and icon, and the ports it has.

use vstd::prelude::*;
use crate::engine::texts;

verus! {

/// What a port carries.
#[derive(Debug, Clone, Copy, PartialEq, Eq, Structural)]
pub enum DataType {
    Any,
    String,
    Float,
    Boolean,
    Vector3,
}

/// How much work a node does when it runs.
#[derive(Debug, Clone, Copy, PartialEq, Eq, Structural)]
pub enum ProcessingCost {
    Low,
    Medium,
    High,
}

/// Where a node's panel is shown.
#[derive(Debug, Clone, Copy, PartialEq, Eq, Structural)]
pub enum PanelType {
    Parameter,
    Viewport,
}

/// A color in red, green and blue.
#[derive(Debug, Clone, Copy, PartialEq, Eq, Structural)]
pub struct Color32 {
    pub r: u8,
    pub g: u8,
    pub b: u8,
}

impl Color32 {
    /// The color with these three parts.
    pub fn from_rgb(r: u8, g: u8, b: u8) -> (c: Color32)
        ensures
            c == (Color32 { r, g, b }),
    {
        Color32 { r, g, b }
    }
}

/// A port of a node.
#[derive(Debug, Clone)]
pub struct PortDefinition {
    pub name: String,
    pub data_type: DataType,
    pub required: bool,
    pub description: String,
}

/// A port as text.
pub ghost struct PortView {
    pub name: Seq<char>,
    pub data_type: DataType,
    pub required: bool,
    pub description: Seq<char>,
}

impl View for PortDefinition {
    type V = PortView;

    open spec fn view(&self) -> PortView {
        PortView {
            name: self.name@,
            data_type: self.data_type,
            required: self.required,
            description: self.description@,
        }
    }
}

/// Ports as text, in order.
pub open spec fn ports(list: Seq<PortDefinition>) -> Seq<PortView> {
    Seq::new(list.len(), |i: int| list[i]@)
}

/// A port that has to be connected, as text.
pub open spec fn required_port(
    name: Seq<char>,
    data_type: DataType,
    description: Seq<char>,
) -> PortView {
    PortView { name, data_type, required: true, description }
}

/// A port that may stay open, as text.
pub open spec fn optional_port(
    name: Seq<char>,
    data_type: DataType,
    description: Seq<char>,
) -> PortView {
    PortView { name, data_type, required: false, description }
}

impl PortDefinition {
    /// A port that has to be connected.
    pub fn required(name: &str, data_type: DataType) -> (port: PortDefinition)
        ensures
            port@ == required_port(name@, data_type, Seq::empty()),
    {
        PortDefinition {
            name: name.to_owned(),
            data_type,
            required: true,
            description: String::new(),
        }
    }

    /// A port that may stay open.
    pub fn optional(name: &str, data_type: DataType) -> (port: PortDefinition)
        ensures
            port@ == optional_port(name@, data_type, Seq::empty()),
    {
        PortDefinition {
            name: name.to_owned(),
            data_type,
            required: false,
            description: String::new(),
        }
    }

    /// The port with a description.
    pub fn with_description(self, description: &str) -> (port: PortDefinition)
        ensures
            port@ == (PortView { description: description@, ..self@ }),
    {
        PortDefinition {
            name: self.name,
            data_type: self.data_type,
            required: self.required,
            description: description.to_owned(),
        }
    }
}

/// How a node presents itself.
#[derive(Debug, Clone)]
pub struct NodeMetadata {
    pub node_type: String,
    pub display_name: String,
    pub category: Vec<String>,
    pub description: String,
    pub color: Option<Color32>,
    pub icon: Option<String>,
    pub inputs: Vec<PortDefinition>,
    pub outputs: Vec<PortDefinition>,
    pub tags: Vec<String>,
    pub processing_cost: Option<ProcessingCost>,
    pub workspace_compatibility: Vec<String>,
    pub panel_type: Option<PanelType>,
}

/// A node's presentation as text.
#[verifier::ext_equal]
pub ghost struct MetadataView {
    pub node_type: Seq<char>,
    pub display_name: Seq<char>,
    pub category: Seq<Seq<char>>,
    pub description: Seq<char>,
    pub color: Option<Color32>,
    pub icon: Option<Seq<char>>,
    pub inputs: Seq<PortView>,
    pub outputs: Seq<PortView>,
    pub tags: Seq<Seq<char>>,
    pub processing_cost: Option<ProcessingCost>,
    pub workspace_compatibility: Seq<Seq<char>>,
    pub panel_type: Option<PanelType>,
}

impl View for NodeMetadata {
    type V = MetadataView;

    open spec fn view(&self) -> MetadataView {
        MetadataView {
            node_type: self.node_type@,
            display_name: self.display_name@,
            category: texts(self.category@),
            description: self.description@,
            color: self.color,
            icon: match self.icon {
                Some(i) => Some(i@),
                None => None,
            },
            inputs: ports(self.inputs@),
            outputs: ports(self.outputs@),
            tags: texts(self.tags@),
            processing_cost: self.processing_cost,
            workspace_compatibility: texts(self.workspace_compatibility@),
            panel_type: self.panel_type,
        }
    }
}

/// The texts of `words`, in order.
pub open spec fn words_of(words: Seq<&str>) -> Seq<Seq<char>> {
    Seq::new(words.len(), |i: int| words[i]@)
}

/// Copies a list of words.
pub fn owned_words(words: &Vec<&str>) -> (out: Vec<String>)
    ensures
        texts(out@) == words_of(words@),
{
    let mut out: Vec<String> = Vec::new();
    let mut i: usize = 0;
    while i < words.len()
        invariant
            i <= words.len(),
            out@.len() == i,
            forall|j: int| 0 <= j < i ==> (#[trigger] out@[j])@ == words@[j]@,
        decreases words.len() - i,
    {
        out.push(words[i].to_owned());
        i += 1;
    }
    assert(texts(out@) =~= words_of(words@));
    out
}

/// The presentation that `NodeMetadata::new` starts from: named and
/// described, without color, icon, ports or tags.
pub open spec fn plain_metadata(
    node_type: Seq<char>,
    display_name: Seq<char>,
    category: Seq<Seq<char>>,
    description: Seq<char>,
) -> MetadataView {
    MetadataView {
        node_type,
        display_name,
        category,
        description,
        color: None,
        icon: None,
        inputs: Seq::empty(),
        outputs: Seq::empty(),
        tags: Seq::empty(),
        processing_cost: None,
        workspace_compatibility: Seq::empty(),
        panel_type: None,
    }
}

impl NodeMetadata {
    /// A presentation with a type name, a display name, a place in the
    /// catalog and a description.
    pub fn new(node_type: &str, display_name: &str, category: Vec<&str>, description: &str) -> (m:
        NodeMetadata)
        ensures
            m@ == plain_metadata(node_type@, display_name@, words_of(category@), description@),
    {
        let m = NodeMetadata {
            node_type: node_type.to_owned(),
            display_name: display_name.to_owned(),
            category: owned_words(&category),
            description: description.to_owned(),
            color: None,
            icon: None,
            inputs: Vec::new(),
            outputs: Vec::new(),
            tags: Vec::new(),
            processing_cost: None,
            workspace_compatibility: Vec::new(),
            panel_type: None,
        };
        assert(ports(m.inputs@) =~= Seq::empty());
        assert(ports(m.outputs@) =~= Seq::empty());
        assert(texts(m.tags@) =~= Seq::empty());
        assert(texts(m.workspace_compatibility@) =~= Seq::empty());
        m
    }

    /// The presentation with a color.
    pub fn with_color(self, color: Color32) -> (m: NodeMetadata)
        ensures
            m@ == (MetadataView { color: Some(color), ..self@ }),
    {
        let mut m = self;
        m.color = Some(color);
        m
    }

    /// The presentation with an icon.
    pub fn with_icon(self, icon: &str) -> (m: NodeMetadata)
        ensures
            m@ == (MetadataView { icon: Some(icon@), ..self@ }),
    {
        let mut m = self;
        m.icon = Some(icon.to_owned());
        m
    }

    /// The presentation with these input ports.
    pub fn with_inputs(self, inputs: Vec<PortDefinition>) -> (m: NodeMetadata)
        ensures
            m@ == (MetadataView { inputs: ports(inputs@), ..self@ }),
    {
        let mut m = self;
        m.inputs = inputs;
        m
    }

    /// The presentation with these output ports.
    pub fn with_outputs(self, outputs: Vec<PortDefinition>) -> (m: NodeMetadata)
        ensures
            m@ == (MetadataView { outputs: ports(outputs@), ..self@ }),
    {
        let mut m = self;
        m.outputs = outputs;
        m
    }

    /// The presentation with these search tags.
    pub fn with_tags(self, tags: Vec<&str>) -> (m: NodeMetadata)
        ensures
            m@ == (MetadataView { tags: words_of(tags@), ..self@ }),
    {
        let mut m = self;
        m.tags = owned_words(&tags);
        m
    }

    /// The presentation with a processing cost.
    pub fn with_processing_cost(self, cost: ProcessingCost) -> (m: NodeMetadata)
        ensures
            m@ == (MetadataView { processing_cost: Some(cost), ..self@ }),
    {
        let mut m = self;
        m.processing_cost = Some(cost);
        m
    }

    /// The presentation with the workspaces that the node fits in.
    pub fn with_workspace_compatibility(self, workspaces: Vec<&str>) -> (m: NodeMetadata)
        ensures
            m@ == (MetadataView { workspace_compatibility: words_of(workspaces@), ..self@ }),
    {
        let mut m = self;
        m.workspace_compatibility = owned_words(&workspaces);
        m
    }

    /// The presentation with the kind of panel that the node has.
    pub fn with_panel_type(self, panel_type: PanelType) -> (m: NodeMetadata)
        ensures
            m@ == (MetadataView { panel_type: Some(panel_type), ..self@ }),
    {
        let mut m = self;
        m.panel_type = Some(panel_type);
        m
    }
}

} // verus!
