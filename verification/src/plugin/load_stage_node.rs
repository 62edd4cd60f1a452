//! The load node as the editor's plugin interface sees it: a panel with a
//! file path and two options.

use vstd::prelude::*;
use vstd::string::*;
use crate::nodes::data::{add_entry, listing, text_value, DataView, NodeData};
use crate::nodes::interface::{
    add_element, button, changed, checkbox, heading, note_change, panel, text_edit, ElementView,
    ParameterChange, ParameterUI, Pos2, UIAction, UIElement,
};
use crate::text::same_text;

verus! {

/// The scene that the browse button chooses while there is no file dialog.
pub const TEST_SCENE_PATH: &'static str = "test_scene.usd";

/// The load node of the plugin interface.
#[derive(Debug, Clone)]
pub struct USDLoadStageNode {
    id: String,
    position: Pos2,
    file_path: String,
    auto_reload: bool,
    load_payloads: bool,
}

/// The state of the load node as text.
pub ghost struct LoadNodeView {
    pub id: Seq<char>,
    pub position: Pos2,
    pub file_path: Seq<char>,
    pub auto_reload: bool,
    pub load_payloads: bool,
}

/// The numeral of `n` in base 16, lower case, without leading zeros.
pub open spec fn hex_numeral(n: nat) -> Seq<char>
    decreases n,
{
    if n < 16 {
        seq![crate::text::digit_char(n as int)]
    } else {
        hex_numeral(n / 16).push(crate::text::digit_char((n % 16) as int))
    }
}

/// Writes `n` in base 16, lower case, without leading zeros.
pub fn hex(n: u128) -> (s: String)
    ensures
        s@ == hex_numeral(n as nat),
    decreases n,
{
    if n < 16 {
        crate::text::digit_str(n as usize).to_owned()
    } else {
        let mut s = hex(n / 16);
        s.append(crate::text::digit_str((n % 16) as usize));
        assert(s@ =~= hex_numeral(n as nat));
        s
    }
}

/// What an action does to the load node: the state after it and the changes
/// it reports. A changed parameter of a known name and fitting kind is taken
/// over and reported; the browse button chooses the test scene; anything else
/// is passed over.
pub open spec fn load_node_after(state: LoadNodeView, action: UIAction) -> (
    LoadNodeView,
    Seq<(Seq<char>, DataView)>,
) {
    match action {
        UIAction::ParameterChanged { parameter, value } => {
            if parameter@ == "file_path"@ {
                match value.text() {
                    Some(t) => (
                        LoadNodeView { file_path: t, ..state },
                        seq![("file_path"@, DataView::String(t))],
                    ),
                    None => (state, Seq::empty()),
                }
            } else if parameter@ == "auto_reload"@ {
                match value.flag() {
                    Some(b) => (
                        LoadNodeView { auto_reload: b, ..state },
                        seq![("auto_reload"@, DataView::Boolean(b))],
                    ),
                    None => (state, Seq::empty()),
                }
            } else if parameter@ == "load_payloads"@ {
                match value.flag() {
                    Some(b) => (
                        LoadNodeView { load_payloads: b, ..state },
                        seq![("load_payloads"@, DataView::Boolean(b))],
                    ),
                    None => (state, Seq::empty()),
                }
            } else {
                (state, Seq::empty())
            }
        },
        UIAction::ButtonClicked { action } => {
            if action@ == "browse_file"@ {
                (
                    LoadNodeView { file_path: TEST_SCENE_PATH@, ..state },
                    seq![("file_path"@, DataView::String(TEST_SCENE_PATH@))],
                )
            } else {
                (state, Seq::empty())
            }
        },
    }
}

/// The state after a parameter was set from outside: as after the user
/// changed it, without a report.
pub open spec fn load_node_set(
    state: LoadNodeView,
    name: Seq<char>,
    value: NodeData,
) -> LoadNodeView {
    if name == "file_path"@ {
        match value.text() {
            Some(t) => LoadNodeView { file_path: t, ..state },
            None => state,
        }
    } else if name == "auto_reload"@ {
        match value.flag() {
            Some(b) => LoadNodeView { auto_reload: b, ..state },
            None => state,
        }
    } else if name == "load_payloads"@ {
        match value.flag() {
            Some(b) => LoadNodeView { load_payloads: b, ..state },
            None => state,
        }
    } else {
        state
    }
}

/// The value of the parameter `name` of a load node, if it has it.
pub open spec fn load_node_parameter(state: LoadNodeView, name: Seq<char>) -> Option<DataView> {
    if name == "file_path"@ {
        Some(DataView::String(state.file_path))
    } else if name == "auto_reload"@ {
        Some(DataView::Boolean(state.auto_reload))
    } else if name == "load_payloads"@ {
        Some(DataView::Boolean(state.load_payloads))
    } else {
        None
    }
}

/// The panel of the load node.
pub open spec fn load_node_panel(state: LoadNodeView) -> Seq<ElementView> {
    seq![
        ElementView::Heading("USD Load Stage"@),
        ElementView::Separator,
        ElementView::TextEdit {
            label: "File Path"@,
            value: state.file_path,
            parameter_name: "file_path"@,
        },
        ElementView::Button { label: "Browse..."@, action: "browse_file"@ },
        ElementView::Checkbox {
            label: "Auto Reload"@,
            value: state.auto_reload,
            parameter_name: "auto_reload"@,
        },
        ElementView::Checkbox {
            label: "Load Payloads"@,
            value: state.load_payloads,
            parameter_name: "load_payloads"@,
        },
    ]
}

impl View for USDLoadStageNode {
    type V = LoadNodeView;

    closed spec fn view(&self) -> LoadNodeView {
        LoadNodeView {
            id: self.id@,
            position: self.position,
            file_path: self.file_path@,
            auto_reload: self.auto_reload,
            load_payloads: self.load_payloads,
        }
    }
}

impl USDLoadStageNode {
    /// A load node at `position`. `stamp` makes its identifier: callers pass
    /// the time in nanoseconds.
    pub fn new(position: Pos2, stamp: u128) -> (node: USDLoadStageNode)
        ensures
            node@ == (LoadNodeView {
                id: "usd_load_stage_"@ + hex_numeral(stamp as nat),
                position,
                file_path: Seq::empty(),
                auto_reload: false,
                load_payloads: true,
            }),
    {
        let mut id = "usd_load_stage_".to_owned();
        id.append(hex(stamp).as_str());
        USDLoadStageNode {
            id,
            position,
            file_path: String::new(),
            auto_reload: false,
            load_payloads: true,
        }
    }

    /// The identifier of the node.
    pub fn id(&self) -> (id: String)
        ensures
            id@ == self@.id,
    {
        self.id.clone()
    }

    /// Where the node stands in the graph.
    pub fn position(&self) -> (p: Pos2)
        ensures
            p == self@.position,
    {
        self.position
    }

    /// Moves the node.
    pub fn set_position(&mut self, position: Pos2)
        ensures
            final(self)@ == (LoadNodeView { position, ..old(self)@ }),
    {
        self.position = position;
    }

    /// The panel of the node.
    pub fn get_parameter_ui(&self) -> (ui: ParameterUI)
        ensures
            panel(ui.elements@) == load_node_panel(self@),
    {
        let mut elements: Vec<UIElement> = Vec::new();
        add_element(&mut elements, heading("USD Load Stage"));
        add_element(&mut elements, UIElement::Separator);
        add_element(&mut elements, text_edit("File Path", self.file_path.as_str(), "file_path"));
        add_element(&mut elements, button("Browse...", "browse_file"));
        add_element(&mut elements, checkbox("Auto Reload", self.auto_reload, "auto_reload"));
        add_element(&mut elements, checkbox("Load Payloads", self.load_payloads, "load_payloads"));
        assert(panel(elements@) =~= load_node_panel(self@));
        ParameterUI { elements }
    }

    /// Takes an action of the user and reports what changed.
    pub fn handle_ui_action(&mut self, action: UIAction) -> (changes: Vec<ParameterChange>)
        ensures
            (final(self)@, changed(changes@)) == load_node_after(old(self)@, action),
    {
        let mut changes: Vec<ParameterChange> = Vec::new();
        assert(changed(changes@) =~= Seq::empty());
        match &action {
            UIAction::ParameterChanged { parameter, value } => {
                if same_text(parameter.as_str(), "file_path") {
                    match value.as_string() {
                        Some(path) => {
                            self.file_path = path.to_owned();
                            note_change(&mut changes, "file_path", text_value(path));
                        },
                        None => {},
                    }
                } else if same_text(parameter.as_str(), "auto_reload") {
                    match value.as_boolean() {
                        Some(b) => {
                            self.auto_reload = b;
                            note_change(&mut changes, "auto_reload", NodeData::Boolean(b));
                        },
                        None => {},
                    }
                } else if same_text(parameter.as_str(), "load_payloads") {
                    match value.as_boolean() {
                        Some(b) => {
                            self.load_payloads = b;
                            note_change(&mut changes, "load_payloads", NodeData::Boolean(b));
                        },
                        None => {},
                    }
                }
            },
            UIAction::ButtonClicked { action: clicked } => {
                if same_text(clicked.as_str(), "browse_file") {
                    self.file_path = TEST_SCENE_PATH.to_owned();
                    note_change(&mut changes, "file_path", text_value(TEST_SCENE_PATH));
                }
            },
        }
        assert(changed(changes@) =~= load_node_after(old(self)@, action).1);
        changes
    }

    /// The value of the parameter `name`, if the node has it.
    pub fn get_parameter(&self, name: &str) -> (r: Option<NodeData>)
        ensures
            match r {
                Some(d) => load_node_parameter(self@, name@) == Some(d@),
                None => load_node_parameter(self@, name@) is None,
            },
    {
        if same_text(name, "file_path") {
            Some(NodeData::String(self.file_path.clone()))
        } else if same_text(name, "auto_reload") {
            Some(NodeData::Boolean(self.auto_reload))
        } else if same_text(name, "load_payloads") {
            Some(NodeData::Boolean(self.load_payloads))
        } else {
            None
        }
    }

    /// Sets the parameter `name`, if the node has it and the value is of its
    /// kind.
    pub fn set_parameter(&mut self, name: &str, value: NodeData)
        ensures
            final(self)@ == load_node_set(old(self)@, name@, value),
    {
        if same_text(name, "file_path") {
            match value.as_string() {
                Some(path) => {
                    self.file_path = path.to_owned();
                },
                None => {},
            }
        } else if same_text(name, "auto_reload") {
            match value.as_boolean() {
                Some(b) => {
                    self.auto_reload = b;
                },
                None => {},
            }
        } else if same_text(name, "load_payloads") {
            match value.as_boolean() {
                Some(b) => {
                    self.load_payloads = b;
                },
                None => {},
            }
        }
    }

    /// Runs the node: where a file is chosen and there, its path goes out
    /// under `Stage`; else nothing goes out.
    pub fn process(&mut self, inputs: &Vec<(String, NodeData)>, file_exists: bool) -> (outputs: Vec<
        (String, NodeData),
    >)
        ensures
            final(self)@ == old(self)@,
            listing(outputs@) == if old(self)@.file_path.len() > 0 && file_exists {
                seq![("Stage"@, DataView::String(old(self)@.file_path))]
            } else {
                Seq::empty()
            },
    {
        let mut outputs: Vec<(String, NodeData)> = Vec::new();
        assert(listing(outputs@) =~= Seq::empty());
        if !self.file_path.as_str().is_empty() && file_exists {
            add_entry(&mut outputs, "Stage", NodeData::String(self.file_path.clone()));
        }
        outputs
    }
}

} // verus!
