//! The node that loads a stage from a file: its panel state, the parameters
//! it exchanges with the editor, and what it hands to the nodes after it.

use vstd::prelude::*;
use vstd::string::*;
use crate::nodes::data::{DataView, NodeData};
use crate::nodes::interface::{
    add_line, lines, ItemView, Node, PanelItem, ParameterChange, Widget, WidgetView,
};
use crate::nodes::metadata::{
    owned_words, required_port, Color32, DataType, MetadataView, NodeMetadata, PanelType,
    PortDefinition, ProcessingCost,
};
use crate::text::same_text;
use crate::viewport::render::USDRenderer;

verus! {

/// A parameter as a panel shows and edits it.
#[derive(Debug, Clone)]
pub enum InterfaceParameter {
    /// A path to a file, with the filter that a file dialog applies.
    FilePath { value: String, filter: String },
    Boolean { value: bool },
    String { value: String },
}

impl InterfaceParameter {
    /// The text of a file path or of a string.
    pub open spec fn text(&self) -> Option<Seq<char>> {
        match self {
            InterfaceParameter::FilePath { value, filter } => Some(value@),
            InterfaceParameter::String { value } => Some(value@),
            InterfaceParameter::Boolean { value } => None,
        }
    }

    /// The flag of a boolean.
    pub open spec fn flag(&self) -> Option<bool> {
        match self {
            InterfaceParameter::Boolean { value } => Some(*value),
            _ => None,
        }
    }

    /// The text of a file path or of a string; nothing for a boolean.
    pub fn get_string(&self) -> (r: Option<&str>)
        ensures
            match r {
                Some(s) => self.text() == Some(s@),
                None => self.text() is None,
            },
    {
        match self {
            InterfaceParameter::FilePath { value, filter } => Some(value.as_str()),
            InterfaceParameter::String { value } => Some(value.as_str()),
            InterfaceParameter::Boolean { value } => None,
        }
    }

    /// The flag of a boolean; nothing for a text.
    pub fn get_bool(&self) -> (r: Option<bool>)
        ensures
            r == self.flag(),
    {
        match self {
            InterfaceParameter::Boolean { value } => Some(*value),
            _ => None,
        }
    }
}

/// The panel state of the load node: the chosen file, the two options, the
/// population mask, and what the last run produced.
#[derive(Debug, Clone)]
pub struct LoadStageNode {
    file_path: String,
    auto_reload: bool,
    load_payloads: bool,
    population_mask: String,
    last_execution_result: Option<String>,
}

/// The panel state as text.
pub ghost struct LoadStageView {
    pub file_path: Seq<char>,
    pub auto_reload: bool,
    pub load_payloads: bool,
    pub population_mask: Seq<char>,
    pub last_execution_result: Option<Seq<char>>,
}

/// What the load node does.
#[derive(Debug, Clone, Copy, Default)]
pub struct LoadStageLogic;

/// The filter of the load node's file dialog.
pub const USD_FILE_FILTER: &'static str = "USD Files (*.usd *.usda *.usdc *.usdz)";

/// The state after one parameter was applied: a known name with a value of
/// the fitting kind sets its field, anything else changes nothing.
pub open spec fn with_parameter(
    state: LoadStageView,
    name: Seq<char>,
    parameter: InterfaceParameter,
) -> LoadStageView {
    if name == "file_path"@ {
        match parameter.text() {
            Some(t) => LoadStageView { file_path: t, ..state },
            None => state,
        }
    } else if name == "auto_reload"@ {
        match parameter.flag() {
            Some(b) => LoadStageView { auto_reload: b, ..state },
            None => state,
        }
    } else if name == "load_payloads"@ {
        match parameter.flag() {
            Some(b) => LoadStageView { load_payloads: b, ..state },
            None => state,
        }
    } else if name == "population_mask"@ {
        match parameter.text() {
            Some(t) => LoadStageView { population_mask: t, ..state },
            None => state,
        }
    } else {
        state
    }
}

/// The state after the first `n` parameters were applied, one after the
/// other.
pub open spec fn with_parameters(
    state: LoadStageView,
    parameters: Seq<(&'static str, InterfaceParameter)>,
    n: int,
) -> LoadStageView
    decreases n,
{
    if n <= 0 {
        state
    } else {
        with_parameter(
            with_parameters(state, parameters, n - 1),
            parameters[n - 1].0@,
            parameters[n - 1].1,
        )
    }
}

/// What the load node hands on: a note that no file is chosen, a note that
/// the file is missing, or the scene of the file.
pub open spec fn load_result(file_path: Seq<char>, file_exists: bool) -> Seq<char> {
    if file_path.len() == 0 {
        "Empty USD Stage"@
    } else if !file_exists {
        "Invalid USD Stage"@
    } else {
        "USDScene:"@ + ("file://"@ + file_path)
    }
}

impl View for LoadStageNode {
    type V = LoadStageView;

    closed spec fn view(&self) -> LoadStageView {
        LoadStageView {
            file_path: self.file_path@,
            auto_reload: self.auto_reload,
            load_payloads: self.load_payloads,
            population_mask: self.population_mask@,
            last_execution_result: match self.last_execution_result {
                Some(s) => Some(s@),
                None => None,
            },
        }
    }
}

impl Default for LoadStageNode {
    /// No file chosen, no reloading, payloads loaded, no mask, nothing run.
    fn default() -> (node: LoadStageNode)
        ensures
            node@ == (LoadStageView {
                file_path: Seq::empty(),
                auto_reload: false,
                load_payloads: true,
                population_mask: Seq::empty(),
                last_execution_result: None,
            }),
    {
        LoadStageNode {
            file_path: String::new(),
            auto_reload: false,
            load_payloads: true,
            population_mask: String::new(),
            last_execution_result: None,
        }
    }
}

impl LoadStageNode {
    /// The load node's panel is a parameter panel.
    pub fn panel_type(&self) -> (t: PanelType)
        ensures
            t == PanelType::Parameter,
    {
        PanelType::Parameter
    }

    /// The title of the panel.
    pub fn panel_title(&self) -> (title: String)
        ensures
            title@ == "USD Load Stage"@,
    {
        "USD Load Stage".to_owned()
    }

    /// The four parameters of the node with their present values.
    pub fn get_parameters(&self) -> (parameters: Vec<(&'static str, InterfaceParameter)>)
        ensures
            parameters@.len() == 4,
            parameters@[0].0@ == "file_path"@,
            parameters@[0].1 matches InterfaceParameter::FilePath { value, filter } && value@
                == self@.file_path && filter@ == USD_FILE_FILTER@,
            parameters@[1].0@ == "auto_reload"@,
            parameters@[1].1 matches InterfaceParameter::Boolean { value } && value
                == self@.auto_reload,
            parameters@[2].0@ == "load_payloads"@,
            parameters@[2].1 matches InterfaceParameter::Boolean { value } && value
                == self@.load_payloads,
            parameters@[3].0@ == "population_mask"@,
            parameters@[3].1 matches InterfaceParameter::String { value } && value@
                == self@.population_mask,
    {
        let mut parameters: Vec<(&'static str, InterfaceParameter)> = Vec::new();
        parameters.push(
            (
                "file_path",
                InterfaceParameter::FilePath {
                    value: self.file_path.clone(),
                    filter: USD_FILE_FILTER.to_owned(),
                },
            ),
        );
        parameters.push(("auto_reload", InterfaceParameter::Boolean { value: self.auto_reload }));
        parameters.push(
            ("load_payloads", InterfaceParameter::Boolean { value: self.load_payloads }),
        );
        parameters.push(
            ("population_mask", InterfaceParameter::String { value: self.population_mask.clone() }),
        );
        parameters
    }

    fn set_parameter(&mut self, name: &str, parameter: &InterfaceParameter)
        ensures
            final(self)@ == with_parameter(old(self)@, name@, *parameter),
    {
        if same_text(name, "file_path") {
            match parameter.get_string() {
                Some(path) => {
                    self.file_path = path.to_owned();
                },
                None => {},
            }
        } else if same_text(name, "auto_reload") {
            match parameter.get_bool() {
                Some(value) => {
                    self.auto_reload = value;
                },
                None => {},
            }
        } else if same_text(name, "load_payloads") {
            match parameter.get_bool() {
                Some(value) => {
                    self.load_payloads = value;
                },
                None => {},
            }
        } else if same_text(name, "population_mask") {
            match parameter.get_string() {
                Some(mask) => {
                    self.population_mask = mask.to_owned();
                },
                None => {},
            }
        }
    }

    /// Applies the parameters one after the other. A later value for a name
    /// replaces an earlier one; unknown names and values of the wrong kind
    /// are passed over.
    pub fn set_parameters(&mut self, parameters: Vec<(&'static str, InterfaceParameter)>)
        ensures
            final(self)@ == with_parameters(old(self)@, parameters@, parameters@.len() as int),
    {
        let mut i: usize = 0;
        while i < parameters.len()
            invariant
                i <= parameters.len(),
                self@ == with_parameters(old(self)@, parameters@, i as int),
            decreases parameters.len() - i,
        {
            self.set_parameter(parameters[i].0, &parameters[i].1);
            i += 1;
        }
    }

    /// Chooses the file to load. What an earlier run produced is forgotten.
    pub fn set_file_path(&mut self, path: &str)
        ensures
            final(self)@ == (LoadStageView {
                file_path: path@,
                last_execution_result: None,
                ..old(self)@
            }),
    {
        self.file_path = path.to_owned();
        self.last_execution_result = None;
    }

    /// Runs the node on its present parameters. `file_exists` tells whether
    /// the chosen file is there.
    pub fn process(&self, inputs: Vec<NodeData>, file_exists: bool) -> (outputs: Vec<NodeData>)
        ensures
            outputs@.len() == 1,
            outputs@[0]@ == DataView::Any(load_result(self@.file_path, file_exists)),
    {
        LoadStageLogic::process_with_parameters(
            self.file_path.as_str(),
            file_exists,
            self.auto_reload,
            self.load_payloads,
            self.population_mask.as_str(),
        )
    }

    /// Brings the panel up to date after it was shown: where a file is
    /// chosen and there, and nothing was run for it yet, the node runs and
    /// keeps what came out. Tells whether anything changed.
    pub fn refresh(&mut self, file_exists: bool) -> (changed: bool)
        ensures
            changed == (old(self)@.file_path.len() > 0 && file_exists && old(
                self,
            )@.last_execution_result is None),
            final(self)@ == if changed {
                LoadStageView {
                    last_execution_result: Some(load_result(old(self)@.file_path, true)),
                    ..old(self)@
                }
            } else {
                old(self)@
            },
    {
        if !self.file_path.as_str().is_empty() && file_exists && self.last_execution_result.is_none() {
            let mut outputs = self.process(Vec::new(), true);
            match outputs.pop() {
                Some(NodeData::Any(data)) => {
                    self.last_execution_result = Some(data);
                    true
                },
                _ => false,
            }
        } else {
            false
        }
    }
}

impl LoadStageLogic {
    /// Loads the stage at `file_path`, where `file_exists` tells whether the
    /// file is there, and hands on one value: what `load_result` says.
    pub fn process_with_parameters(
        file_path: &str,
        file_exists: bool,
        auto_reload: bool,
        load_payloads: bool,
        population_mask: &str,
    ) -> (outputs: Vec<NodeData>)
        ensures
            outputs@.len() == 1,
            outputs@[0]@ == DataView::Any(load_result(file_path@, file_exists)),
    {
        let mut outputs: Vec<NodeData> = Vec::new();
        if file_path.is_empty() {
            outputs.push(NodeData::Any("Empty USD Stage".to_owned()));
            return outputs;
        }
        if !file_exists {
            outputs.push(NodeData::Any("Invalid USD Stage".to_owned()));
            return outputs;
        }
        let mut renderer = USDRenderer::new();
        let mut stage_id = "file://".to_owned();
        stage_id.append(file_path);
        match renderer.load_stage(stage_id.as_str()) {
            Ok(()) => {
                let mut scene = "USDScene:".to_owned();
                scene.append(stage_id.as_str());
                outputs.push(NodeData::Any(scene));
            },
            Err(e) => {
                let mut message = "Error loading USD: ".to_owned();
                message.append(e.as_str());
                outputs.push(NodeData::Any(message));
            },
        }
        outputs
    }

    /// The answer of the node when it is run without its parameters: a note
    /// that says where the parameters are.
    pub fn process(inputs: Vec<NodeData>) -> (outputs: Vec<NodeData>)
        ensures
            outputs@.len() == 1,
            outputs@[0]@ == DataView::Any("USD Stage - use parameters interface"@),
    {
        let mut outputs: Vec<NodeData> = Vec::new();
        outputs.push(NodeData::Any("USD Stage - use parameters interface".to_owned()));
        outputs
    }
}

impl LoadStageNode {
    /// How the load node presents itself to the editor.
    pub fn metadata() -> (m: NodeMetadata)
        ensures
            m@ =~~= (MetadataView {
                node_type: "USD_LoadStage"@,
                display_name: "Load Stage"@,
                category: seq!["3D"@, "USD"@, "Stage"@],
                description: "Loads a USD stage from a .usd, .usda, .usdc, or .usdz file"@,
                color: Some(Color32 { r: 200, g: 150, b: 100 }),
                icon: Some("📂"@),
                inputs: Seq::empty(),
                outputs: seq![
                    required_port(
                        "USD Stage"@,
                        DataType::Any,
                        "Loaded USD Stage data for downstream nodes"@,
                    ),
                ],
                tags: seq!["3d"@, "usd"@, "stage"@, "load"@, "import"@, "pixar"@, "file"@],
                processing_cost: Some(ProcessingCost::High),
                workspace_compatibility: seq!["3d"@, "usd"@, "pipeline"@],
                panel_type: Some(PanelType::Parameter),
            }),
    {
        NodeMetadata::new(
            "USD_LoadStage",
            "Load Stage",
            vec!["3D", "USD", "Stage"],
            "Loads a USD stage from a .usd, .usda, .usdc, or .usdz file",
        )
            .with_color(Color32::from_rgb(200, 150, 100))
            .with_icon("📂")
            .with_inputs(Vec::new())
            .with_outputs(vec![
                PortDefinition::required("USD Stage", DataType::Any)
                    .with_description("Loaded USD Stage data for downstream nodes"),
            ])
            .with_tags(vec!["3d", "usd", "stage", "load", "import", "pixar", "file"])
            .with_processing_cost(ProcessingCost::High)
            .with_workspace_compatibility(vec!["3d", "usd", "pipeline"])
            .with_panel_type(PanelType::Parameter)
    }
}

/// The text of a point in time, given in seconds since the beginning of
/// 1970, as `chrono` writes it for the pattern `%Y-%m-%d %H:%M:%S UTC`;
/// nothing for a time that `chrono` cannot hold.
pub uninterp spec fn utc_text(secs: i64) -> Option<Seq<char>>;

/// The extension of a path as `std::path::Path::extension` finds it: the
/// part of the file name after its last dot, where the name has a dot that is
/// not its first character; nothing for an extension that is no text.
pub uninterp spec fn extension_text(path: Seq<char>) -> Option<Seq<char>>;

/// A text in lower case, as `str::to_lowercase` writes it.
pub uninterp spec fn lowercase_text(text: Seq<char>) -> Seq<char>;

/// Makes the point in time with `chrono::DateTime::<Utc>::from_timestamp`
/// and writes it with `DateTime::format`. The result is a function of the
/// seconds alone: the pattern is fixed and the time zone is UTC.
#[verifier::external_body]
pub(crate) fn format_timestamp(secs: i64) -> (text: Option<String>)
    ensures
        match text {
            Some(t) => utc_text(secs) == Some(t@),
            None => utc_text(secs) is None,
        },
{
    match chrono::DateTime::<chrono::Utc>::from_timestamp(secs, 0) {
        Some(time) => Some(time.format("%Y-%m-%d %H:%M:%S UTC").to_string()),
        None => None,
    }
}

/// Takes the extension of a path with `std::path::Path::extension`. The
/// result is a function of the path's text alone; the file system is not
/// asked.
#[verifier::external_body]
pub(crate) fn path_extension(path: &str) -> (extension: Option<String>)
    ensures
        match extension {
            Some(e) => extension_text(path@) == Some(e@),
            None => extension_text(path@) is None,
        },
{
    match std::path::Path::new(path).extension() {
        Some(e) => match e.to_str() {
            Some(text) => Some(text.to_owned()),
            None => None,
        },
        None => None,
    }
}

/// Writes a text in lower case with `str::to_lowercase`.
#[verifier::external_body]
pub(crate) fn lowercase(text: &str) -> (lower: String)
    ensures
        lower@ == lowercase_text(text@),
{
    text.to_lowercase()
}

/// What the file system says of the chosen file: whether it is there, how
/// many bytes it has, and when it was last modified, in seconds since the
/// beginning of 1970. Size and time are missing where they cannot be read.
#[derive(Debug, Clone, Copy)]
pub struct FileFacts {
    pub exists: bool,
    pub size: Option<u64>,
    pub modified: Option<u64>,
}

/// An extension in lower case is one of a USD file.
pub open spec fn is_usd_extension(lower: Seq<char>) -> bool {
    lower == "usd"@ || lower == "usda"@ || lower == "usdc"@ || lower == "usdz"@
}

/// The line that tells the format of the file, and the warning after it
/// where the format is not one of USD.
pub open spec fn format_lines(extension: Seq<char>, lower: Seq<char>) -> Seq<ItemView> {
    if is_usd_extension(lower) {
        seq![
            ItemView::Colored {
                color: Color32 { r: 100, g: 200, b: 100 },
                text: "📋 Format: ."@ + extension,
            },
        ]
    } else {
        seq![
            ItemView::Colored {
                color: Color32 { r: 200, g: 100, b: 100 },
                text: "📋 Format: ."@ + extension,
            },
            ItemView::Colored {
                color: Color32 { r: 255, g: 255, b: 0 },
                text: "⚠ Warning: Not a recognized USD format"@,
            },
        ]
    }
}

/// The lines below the load options. For a file that is there: its size,
/// the time of its last change, and its format, as far as they are known.
/// For a file that is not there: a note in red. No lines while no file is
/// chosen.
pub open spec fn file_lines(
    path: Option<Seq<char>>,
    exists: bool,
    size: Option<u64>,
    modified: Option<Seq<char>>,
    extension: Option<(Seq<char>, Seq<char>)>,
) -> Seq<ItemView> {
    match path {
        Some(p) => if p.len() > 0 && exists {
            let top = seq![ItemView::Separator, ItemView::Section("File Information"@)];
            match size {
                Some(n) => {
                    let sized = top.push(
                        ItemView::Label(
                            "📊 Size: "@ + crate::text::decimal_text(n as nat) + " bytes"@,
                        ),
                    );
                    let dated = match modified {
                        Some(t) => sized.push(ItemView::Label("📅 Modified: "@ + t)),
                        None => sized,
                    };
                    match extension {
                        Some((e, lower)) => dated + format_lines(e, lower),
                        None => dated,
                    }
                },
                None => top,
            }
        } else if p.len() > 0 {
            seq![
                ItemView::Separator,
                ItemView::Colored {
                    color: Color32 { r: 255, g: 0, b: 0 },
                    text: "❌ File not found or inaccessible"@,
                },
            ]
        } else {
            Seq::empty()
        },
        None => Seq::empty(),
    }
}

/// Builds the lines below the load options. `modified` is the text of the
/// time of the last change, `extension` the extension of the file as it is
/// written and in lower case.
pub fn file_information(
    path: Option<&str>,
    exists: bool,
    size: Option<u64>,
    modified: Option<&str>,
    extension: Option<(&str, &str)>,
) -> (items: Vec<PanelItem>)
    ensures
        lines(items@) =~~= file_lines(
            match path {
                Some(p) => Some(p@),
                None => None,
            },
            exists,
            size,
            match modified {
                Some(t) => Some(t@),
                None => None,
            },
            match extension {
                Some((e, lower)) => Some((e@, lower@)),
                None => None,
            },
        ),
{
    let mut items: Vec<PanelItem> = Vec::new();
    let p: &str = match path {
        Some(p) => p,
        None => {
            return items;
        },
    };
    if p.is_empty() {
        return items;
    }
    if !exists {
        add_line(&mut items, PanelItem::Separator);
        add_line(
            &mut items,
            PanelItem::Colored {
                color: Color32::from_rgb(255, 0, 0),
                text: "❌ File not found or inaccessible".to_owned(),
            },
        );
        return items;
    }
    add_line(&mut items, PanelItem::Separator);
    add_line(&mut items, PanelItem::Section("File Information".to_owned()));
    let n: u64 = match size {
        Some(n) => n,
        None => {
            return items;
        },
    };
    let mut size_line = "📊 Size: ".to_owned();
    size_line.append(crate::text::decimal_u64(n).as_str());
    size_line.append(" bytes");
    add_line(&mut items, PanelItem::Label(size_line));
    match modified {
        Some(t) => {
            let mut line = "📅 Modified: ".to_owned();
            line.append(t);
            add_line(&mut items, PanelItem::Label(line));
        },
        None => {},
    }
    match extension {
        Some((e, lower)) => {
            let valid = same_text(lower, "usd") || same_text(lower, "usda") || same_text(
                lower,
                "usdc",
            ) || same_text(lower, "usdz");
            let mut line = "📋 Format: .".to_owned();
            line.append(e);
            if valid {
                add_line(
                    &mut items,
                    PanelItem::Colored { color: Color32::from_rgb(100, 200, 100), text: line },
                );
            } else {
                add_line(
                    &mut items,
                    PanelItem::Colored { color: Color32::from_rgb(200, 100, 100), text: line },
                );
                add_line(
                    &mut items,
                    PanelItem::Colored {
                        color: Color32::from_rgb(255, 255, 0),
                        text: "⚠ Warning: Not a recognized USD format".to_owned(),
                    },
                );
            }
        },
        None => {},
    }
    items
}

/// What the panel writes for the time of the last change: the time as text,
/// or `Unknown` for a time that cannot be written; nothing where the time is
/// not known.
pub open spec fn modified_text(modified: Option<u64>) -> Option<Seq<char>> {
    match modified {
        Some(secs) => Some(
            match utc_text(secs as i64) {
                Some(t) => t,
                None => "Unknown"@,
            },
        ),
        None => None,
    }
}

/// The extension of a path as it is written and in lower case.
pub open spec fn extension_pair(path: Option<Seq<char>>) -> Option<(Seq<char>, Seq<char>)> {
    match path {
        Some(p) => match extension_text(p) {
            Some(e) => Some((e, lowercase_text(e))),
            None => None,
        },
        None => None,
    }
}

/// The path that the panel shows at its top: the `file_path` parameter, or a
/// note that no file is chosen.
pub open spec fn path_on_top(parameters: Seq<(String, NodeData)>) -> Seq<char> {
    match crate::nodes::data::named_text(parameters, "file_path"@) {
        Some(t) => t,
        None => "No file selected"@,
    }
}

/// The lines of the load panel down to the load options.
pub open spec fn load_panel_head(shown_path: Seq<char>) -> Seq<ItemView> {
    seq![
        ItemView::Heading("Load USD Stage"@),
        ItemView::Separator,
        ItemView::Label("USD File:"@),
        ItemView::Label("📄 "@ + shown_path),
        ItemView::Button { label: "📂 Browse..."@, action: "browse"@ },
        ItemView::Button { label: "🗑 Clear"@, action: "clear"@ },
        ItemView::Parameter {
            name: "file_path"@,
            label: "Manual Path Entry"@,
            default: DataView::String(""@),
            widget: WidgetView::TextLine { hints: seq!["Path:"@] },
        },
        ItemView::Separator,
        ItemView::Section("Load Options"@),
        ItemView::Parameter {
            name: "auto_reload"@,
            label: "Auto Reload"@,
            default: DataView::Boolean(false),
            widget: WidgetView::Checkbox { text: "Automatically reload when file changes"@ },
        },
        ItemView::Parameter {
            name: "load_payloads"@,
            label: "Load Payloads"@,
            default: DataView::Boolean(true),
            widget: WidgetView::Checkbox { text: "Load all payload references"@ },
        },
        ItemView::Parameter {
            name: "population_mask"@,
            label: "Population Mask"@,
            default: DataView::String(""@),
            widget: WidgetView::TextLine {
                hints: seq![
                    "Population Mask (optional):"@,
                    "Specify prim paths to limit loading (e.g., '/World/Geometry/*')"@,
                ],
            },
        },
    ]
}

/// The lines of the load panel of a node with these parameters, for a file
/// of which the file system says `facts`.
pub open spec fn load_panel(parameters: Seq<(String, NodeData)>, facts: FileFacts) -> Seq<ItemView> {
    let chosen = crate::nodes::data::named_text(parameters, "file_path"@);
    load_panel_head(crate::text::shortened(path_on_top(parameters))) + file_lines(
        chosen,
        facts.exists,
        facts.size,
        modified_text(facts.modified),
        extension_pair(chosen),
    )
}

/// What pressing a button of the load panel comes to: `browse` with a file
/// that the user picked takes that file, `clear` takes none; both are noted
/// as a change of `file_path`. Anything else changes nothing.
pub open spec fn pressed(action: Seq<char>, picked: Option<Seq<char>>) -> Option<Seq<char>> {
    if action == "browse"@ {
        picked
    } else if action == "clear"@ {
        Some(Seq::empty())
    } else {
        None
    }
}

/// The parameters that a new load node holds: those of a panel in its first
/// state, file paths as texts.
pub open spec fn first_parameters() -> Seq<(Seq<char>, DataView)> {
    seq![
        ("file_path"@, DataView::String(Seq::empty())),
        ("auto_reload"@, DataView::Boolean(false)),
        ("load_payloads"@, DataView::Boolean(true)),
        ("population_mask"@, DataView::String(Seq::empty())),
    ]
}

/// What the panel says of the chosen file.
#[derive(Debug, Clone, Copy, PartialEq, Eq, Structural)]
pub enum FileStatus {
    /// No file is chosen.
    NoFile,
    /// The file is there.
    Ready,
    /// The file is not there.
    NotFound,
}

impl LoadStageNode {
    /// Builds the panel of the load node for the editor's node `node`: its
    /// lines from top to bottom. The editor shows each parameter with
    /// `Node::current`, takes changes over with `Node::commit` and hands
    /// presses of the buttons to `press`.
    pub fn build_interface(node: &Node, facts: FileFacts) -> (items: Vec<PanelItem>)
        requires
            crate::text::can_be_shortened(path_on_top(node.parameters@)),
        ensures
            lines(items@) =~~= load_panel(node.parameters@, facts),
    {
        let chosen: Option<&str> = crate::nodes::data::lookup_text(&node.parameters, "file_path");
        let on_top: &str = match chosen {
            Some(t) => t,
            None => "No file selected",
        };
        let mut path_line = "📄 ".to_owned();
        path_line.append(crate::text::shorten(on_top).as_str());
        let mut items: Vec<PanelItem> = Vec::new();
        add_line(&mut items, PanelItem::Heading("Load USD Stage".to_owned()));
        add_line(&mut items, PanelItem::Separator);
        add_line(&mut items, PanelItem::Label("USD File:".to_owned()));
        add_line(&mut items, PanelItem::Label(path_line));
        add_line(
            &mut items,
            PanelItem::Button { label: "📂 Browse...".to_owned(), action: "browse".to_owned() },
        );
        add_line(
            &mut items,
            PanelItem::Button { label: "🗑 Clear".to_owned(), action: "clear".to_owned() },
        );
        add_line(
            &mut items,
            PanelItem::Parameter {
                name: "file_path".to_owned(),
                label: "Manual Path Entry".to_owned(),
                default: crate::nodes::data::text_value(""),
                widget: Widget::TextLine { hints: owned_words(&vec!["Path:"]) },
            },
        );
        add_line(&mut items, PanelItem::Separator);
        add_line(&mut items, PanelItem::Section("Load Options".to_owned()));
        add_line(
            &mut items,
            PanelItem::Parameter {
                name: "auto_reload".to_owned(),
                label: "Auto Reload".to_owned(),
                default: NodeData::Boolean(false),
                widget: Widget::Checkbox {
                    text: "Automatically reload when file changes".to_owned(),
                },
            },
        );
        add_line(
            &mut items,
            PanelItem::Parameter {
                name: "load_payloads".to_owned(),
                label: "Load Payloads".to_owned(),
                default: NodeData::Boolean(true),
                widget: Widget::Checkbox { text: "Load all payload references".to_owned() },
            },
        );
        add_line(
            &mut items,
            PanelItem::Parameter {
                name: "population_mask".to_owned(),
                label: "Population Mask".to_owned(),
                default: crate::nodes::data::text_value(""),
                widget: Widget::TextLine {
                    hints: owned_words(
                        &vec![
                            "Population Mask (optional):",
                            "Specify prim paths to limit loading (e.g., '/World/Geometry/*')",
                        ],
                    ),
                },
            },
        );
        assert(lines(items@) =~~= load_panel_head(
            crate::text::shortened(path_on_top(node.parameters@)),
        ));
        let modified: Option<String> = match facts.modified {
            Some(secs) => match format_timestamp(secs as i64) {
                Some(t) => Some(t),
                None => Some("Unknown".to_owned()),
            },
            None => None,
        };
        let extension: Option<String> = match chosen {
            Some(p) => path_extension(p),
            None => None,
        };
        let lower: Option<String> = match &extension {
            Some(e) => Some(lowercase(e.as_str())),
            None => None,
        };
        let pair: Option<(&str, &str)> = match (&extension, &lower) {
            (Some(e), Some(l)) => Some((e.as_str(), l.as_str())),
            _ => None,
        };
        let mut below = file_information(
            chosen,
            facts.exists,
            facts.size,
            match &modified {
                Some(t) => Some(t.as_str()),
                None => None,
            },
            pair,
        );
        let ghost head = lines(items@);
        let ghost tail = lines(below@);
        items.append(&mut below);
        assert(lines(items@) =~= head + tail);
        items
    }

    /// Takes a press of a button of the load panel. `picked` is the file
    /// that the user picked in the file dialog, if the button opened one and
    /// the user picked any.
    pub fn press(
        node: &mut Node,
        changes: &mut Vec<ParameterChange>,
        action: &str,
        picked: Option<&str>,
    )
        ensures
            match pressed(
                action@,
                match picked {
                    Some(p) => Some(p@),
                    None => None,
                },
            ) {
                Some(path) => {
                    &&& crate::nodes::data::listing(final(node).parameters@)
                        == crate::nodes::data::put_entry(
                        crate::nodes::data::listing(old(node).parameters@),
                        "file_path"@,
                        DataView::String(path),
                    )
                    &&& crate::nodes::interface::changed(final(changes)@)
                        == crate::nodes::interface::changed(old(changes)@).push(
                        ("file_path"@, DataView::String(path)),
                    )
                },
                None => *final(node) == *old(node) && *final(changes) == *old(changes),
            },
    {
        if same_text(action, "browse") {
            match picked {
                Some(path) => {
                    node.commit(changes, "file_path", crate::nodes::data::text_value(path));
                },
                None => {},
            }
        } else if same_text(action, "clear") {
            proof {
                reveal_strlit("");
            }
            assert(""@ =~= Seq::<char>::empty());
            node.commit(changes, "file_path", crate::nodes::data::text_value(""));
        }
    }

    /// What the panel says of the chosen file.
    pub fn status(&self, file_exists: bool) -> (status: FileStatus)
        ensures
            status == if self@.file_path.len() == 0 {
                FileStatus::NoFile
            } else if file_exists {
                FileStatus::Ready
            } else {
                FileStatus::NotFound
            },
    {
        if self.file_path.as_str().is_empty() {
            FileStatus::NoFile
        } else if file_exists {
            FileStatus::Ready
        } else {
            FileStatus::NotFound
        }
    }

    /// Makes the editor's node of a load node at `position`: named, colored
    /// and with the ports as the node presents itself, and holding the
    /// parameters of a panel in its first state.
    pub fn create(position: crate::nodes::interface::Pos2) -> (node: Node)
        ensures
            node.id == 0,
            node.title@ == "USD_LoadStage"@,
            node.position == position,
            node.color == Some(Color32 { r: 200, g: 150, b: 100 }),
            node.inputs@.len() == 0,
            crate::engine::texts(node.outputs@) == seq!["USD Stage"@],
            node.panel_type == Some(PanelType::Parameter),
            crate::nodes::data::listing(node.parameters@) == first_parameters(),
    {
        let meta = Self::metadata();
        let mut node = Node::new(0, meta.node_type.as_str(), position);
        node.color = meta.color;
        let mut i: usize = 0;
        assert(meta@.inputs.len() == 0);
        assert(meta.inputs@.len() == crate::nodes::metadata::ports(meta.inputs@).len());
        assert(meta@.outputs.len() == 1);
        assert(meta.outputs@.len() == crate::nodes::metadata::ports(meta.outputs@).len());
        assert(crate::nodes::metadata::ports(meta.outputs@)[0].name == "USD Stage"@);
        node.outputs.push(meta.outputs[0].name.clone());
        assert(crate::engine::texts(node.outputs@) =~= seq!["USD Stage"@]);
        node.panel_type = meta.panel_type;
        let panel = LoadStageNode::default();
        let parameters = panel.get_parameters();
        while i < parameters.len()
            invariant
                i <= 4,
                parameters@.len() == 4,
                parameters@[0].0@ == "file_path"@,
                parameters@[0].1 matches InterfaceParameter::FilePath { value, filter } && value@
                    == panel@.file_path,
                parameters@[1].0@ == "auto_reload"@,
                parameters@[1].1 matches InterfaceParameter::Boolean { value } && value
                    == panel@.auto_reload,
                parameters@[2].0@ == "load_payloads"@,
                parameters@[2].1 matches InterfaceParameter::Boolean { value } && value
                    == panel@.load_payloads,
                parameters@[3].0@ == "population_mask"@,
                parameters@[3].1 matches InterfaceParameter::String { value } && value@
                    == panel@.population_mask,
                panel@.file_path == Seq::<char>::empty(),
                panel@.population_mask == Seq::<char>::empty(),
                !panel@.auto_reload,
                panel@.load_payloads,
                crate::nodes::data::listing(node.parameters@) == first_parameters().take(i as int),
                node.id == 0,
                node.title@ == "USD_LoadStage"@,
                node.position == position,
                node.color == Some(Color32 { r: 200, g: 150, b: 100 }),
                node.inputs@.len() == 0,
                crate::engine::texts(node.outputs@) == seq!["USD Stage"@],
                node.panel_type == Some(PanelType::Parameter),
            decreases 4 - i,
        {
            let name: &str = parameters[i].0;
            let value = match &parameters[i].1 {
                InterfaceParameter::FilePath { value, filter } => NodeData::String(value.clone()),
                InterfaceParameter::Boolean { value } => NodeData::Boolean(*value),
                InterfaceParameter::String { value } => NodeData::String(value.clone()),
            };
            let ghost before = crate::nodes::data::listing(node.parameters@);
            node.parameters.push((name.to_owned(), value));
            assert(crate::nodes::data::listing(node.parameters@) =~= before.push(
                first_parameters()[i as int],
            ));
            assert(first_parameters().take(i + 1) =~= first_parameters().take(i as int).push(
                first_parameters()[i as int],
            ));
            i += 1;
        }
        assert(first_parameters().take(4) =~= first_parameters());
        node
    }
}

} // verus!
