//! The viewport node: the stage it shows, how the view reacts to the mouse,
//! and what is drawn around the scene.

use vstd::prelude::*;
use vstd::string::*;
use crate::nodes::data::{add_entry, listing, lookup, named, DataView, NodeData, Scalar};
use crate::nodes::interface::{
    add_element, button, changed, checkbox, heading, label, note_change, panel, slider, ElementView,
    ParameterChange, ParameterUI, Pos2, UIAction, UIElement,
};
use crate::nodes::metadata::{
    optional_port, required_port, Color32, DataType, MetadataView, NodeMetadata, PanelType,
    PortDefinition,
};
use crate::text::same_text;

verus! {

/// Bit pattern of 0.1, the least sensitivity that the sliders offer.
pub const MIN_SENSITIVITY_BITS: u32 = 0x3DCC_CCCD;

/// Bit pattern of 2.0, the greatest sensitivity that the sliders offer.
pub const MAX_SENSITIVITY_BITS: u32 = 0x4000_0000;

/// Bit pattern of 0.5, the orbit sensitivity of a new viewport.
pub const DEFAULT_ORBIT_BITS: u32 = 0x3F00_0000;

/// Bit pattern of 1.0, the pan and zoom sensitivity of a new viewport.
pub const DEFAULT_PAN_ZOOM_BITS: u32 = 0x3F80_0000;

/// How strongly the view reacts to the mouse.
#[derive(Debug, Clone, Copy, PartialEq, Eq, Structural)]
pub struct CameraSettings {
    pub orbit_sensitivity: Scalar,
    pub pan_sensitivity: Scalar,
    pub zoom_sensitivity: Scalar,
}

impl Default for CameraSettings {
    /// Orbit at half speed, pan and zoom one to one.
    fn default() -> (settings: CameraSettings)
        ensures
            settings.orbit_sensitivity.bits == DEFAULT_ORBIT_BITS,
            settings.pan_sensitivity.bits == DEFAULT_PAN_ZOOM_BITS,
            settings.zoom_sensitivity.bits == DEFAULT_PAN_ZOOM_BITS,
    {
        CameraSettings {
            orbit_sensitivity: Scalar { bits: DEFAULT_ORBIT_BITS },
            pan_sensitivity: Scalar { bits: DEFAULT_PAN_ZOOM_BITS },
            zoom_sensitivity: Scalar { bits: DEFAULT_PAN_ZOOM_BITS },
        }
    }
}

/// What is drawn around the scene.
#[derive(Debug, Clone, Copy, PartialEq, Eq, Structural)]
pub struct ViewportSettings {
    pub wireframe: bool,
    pub lighting: bool,
    pub show_grid: bool,
    pub show_ground_plane: bool,
}

/// A gesture that moves the camera. The camera itself is with the caller,
/// who has the numbers.
#[derive(Debug, Clone, Copy, PartialEq, Eq, Structural)]
pub enum CameraManipulation {
    Orbit { delta_x: Scalar, delta_y: Scalar },
    Pan { delta_x: Scalar, delta_y: Scalar },
    Zoom { delta: Scalar },
    Reset,
    SetPosition,
}

/// What the viewport hands to the renderer: the name of the scene, the
/// settings, and whether either has changed since it was last drawn.
#[derive(Debug, Clone)]
pub struct ViewportData {
    pub scene_name: String,
    pub settings: ViewportSettings,
    pub scene_dirty: bool,
    pub settings_dirty: bool,
}

/// The viewport of a stage.
#[derive(Debug, Clone)]
pub struct USDViewport {
    pub current_stage: String,
    pub viewport_data: ViewportData,
    pub camera_settings: CameraSettings,
}

/// The viewport as text.
pub ghost struct ViewportView {
    pub current_stage: Seq<char>,
    pub scene_name: Seq<char>,
    pub settings: ViewportSettings,
    pub scene_dirty: bool,
    pub settings_dirty: bool,
    pub camera_settings: CameraSettings,
}

impl View for USDViewport {
    type V = ViewportView;

    open spec fn view(&self) -> ViewportView {
        ViewportView {
            current_stage: self.current_stage@,
            scene_name: self.viewport_data.scene_name@,
            settings: self.viewport_data.settings,
            scene_dirty: self.viewport_data.scene_dirty,
            settings_dirty: self.viewport_data.settings_dirty,
            camera_settings: self.camera_settings,
        }
    }
}

/// The viewport after it loaded the stage at `stage_path`.
pub open spec fn loaded(state: ViewportView, stage_path: Seq<char>) -> ViewportView {
    ViewportView {
        current_stage: stage_path,
        scene_name: "USD Stage: "@ + stage_path,
        scene_dirty: true,
        ..state
    }
}

/// The viewport after its stage was taken away.
pub open spec fn unloaded(state: ViewportView) -> ViewportView {
    ViewportView {
        current_stage: Seq::empty(),
        scene_name: Seq::empty(),
        scene_dirty: true,
        ..state
    }
}

/// The viewport with one switch of its settings set, and the settings marked
/// as changed.
pub open spec fn switched(state: ViewportView, name: Seq<char>, on: bool) -> ViewportView {
    let s = state.settings;
    let settings = if name == "wireframe"@ {
        ViewportSettings { wireframe: on, ..s }
    } else if name == "lighting"@ {
        ViewportSettings { lighting: on, ..s }
    } else if name == "show_grid"@ {
        ViewportSettings { show_grid: on, ..s }
    } else {
        ViewportSettings { show_ground_plane: on, ..s }
    };
    ViewportView { settings, settings_dirty: true, ..state }
}

/// The viewport with one of its sensitivities set.
pub open spec fn tuned(state: ViewportView, name: Seq<char>, x: Scalar) -> ViewportView {
    let c = state.camera_settings;
    let camera_settings = if name == "orbit_sensitivity"@ {
        CameraSettings { orbit_sensitivity: x, ..c }
    } else if name == "pan_sensitivity"@ {
        CameraSettings { pan_sensitivity: x, ..c }
    } else {
        CameraSettings { zoom_sensitivity: x, ..c }
    };
    ViewportView { camera_settings, ..state }
}

/// `name` names a sensitivity.
pub open spec fn is_sensitivity(name: Seq<char>) -> bool {
    name == "orbit_sensitivity"@ || name == "pan_sensitivity"@ || name == "zoom_sensitivity"@
}

/// `name` names a switch of the settings.
pub open spec fn is_switch(name: Seq<char>) -> bool {
    name == "wireframe"@ || name == "lighting"@ || name == "show_grid"@ || name
        == "show_ground_plane"@
}

/// The number of a `Float` value.
pub open spec fn number(value: NodeData) -> Option<Scalar> {
    match value {
        NodeData::Float(x) => Some(x),
        _ => None,
    }
}

/// The viewport after a parameter was set: a sensitivity takes a number, a
/// switch a flag, `current_stage` a text, which is loaded. Anything else
/// changes nothing.
pub open spec fn viewport_set(
    state: ViewportView,
    name: Seq<char>,
    value: NodeData,
) -> ViewportView {
    if name == "current_stage"@ {
        match value.text() {
            Some(t) => loaded(state, t),
            None => state,
        }
    } else if is_sensitivity(name) {
        match number(value) {
            Some(x) => tuned(state, name, x),
            None => state,
        }
    } else if is_switch(name) {
        match value.flag() {
            Some(b) => switched(state, name, b),
            None => state,
        }
    } else {
        state
    }
}

/// What an action does to the viewport: the state after it and the changes
/// it reports. A changed sensitivity or switch is taken over and reported;
/// the reset button asks for the camera to be reset, which shows as a change
/// of `camera_reset`; anything else is passed over.
pub open spec fn viewport_after(state: ViewportView, action: UIAction) -> (
    ViewportView,
    Seq<(Seq<char>, DataView)>,
) {
    match action {
        UIAction::ParameterChanged { parameter, value } => {
            if is_sensitivity(parameter@) {
                match number(value) {
                    Some(x) => (
                        tuned(state, parameter@, x),
                        seq![(parameter@, DataView::Float(x))],
                    ),
                    None => (state, Seq::empty()),
                }
            } else if is_switch(parameter@) {
                match value.flag() {
                    Some(b) => (
                        switched(state, parameter@, b),
                        seq![(parameter@, DataView::Boolean(b))],
                    ),
                    None => (state, Seq::empty()),
                }
            } else {
                (state, Seq::empty())
            }
        },
        UIAction::ButtonClicked { action } => {
            if action@ == "reset_camera"@ {
                (
                    ViewportView { scene_dirty: true, ..state },
                    seq![("camera_reset"@, DataView::Boolean(true))],
                )
            } else {
                (state, Seq::empty())
            }
        },
    }
}

/// The value of the parameter `name` of a viewport, if it has it.
pub open spec fn viewport_parameter(state: ViewportView, name: Seq<char>) -> Option<DataView> {
    if name == "current_stage"@ {
        Some(DataView::String(state.current_stage))
    } else if name == "orbit_sensitivity"@ {
        Some(DataView::Float(state.camera_settings.orbit_sensitivity))
    } else if name == "pan_sensitivity"@ {
        Some(DataView::Float(state.camera_settings.pan_sensitivity))
    } else if name == "zoom_sensitivity"@ {
        Some(DataView::Float(state.camera_settings.zoom_sensitivity))
    } else if name == "wireframe"@ {
        Some(DataView::Boolean(state.settings.wireframe))
    } else if name == "lighting"@ {
        Some(DataView::Boolean(state.settings.lighting))
    } else if name == "show_grid"@ {
        Some(DataView::Boolean(state.settings.show_grid))
    } else if name == "show_ground_plane"@ {
        Some(DataView::Boolean(state.settings.show_ground_plane))
    } else {
        None
    }
}

/// What running the viewport node comes to. A `Stage` input with the path
/// of another stage than the one shown loads that stage and reports it under
/// `Rendered Image`. Without a `Stage` input a shown stage is taken away.
pub open spec fn viewport_processed(state: ViewportView, inputs: Seq<(String, NodeData)>) -> (
    ViewportView,
    Seq<(Seq<char>, DataView)>,
) {
    match named(inputs, "Stage"@) {
        Some(d) => match d.text() {
            Some(path) => if path != state.current_stage {
                (
                    loaded(state, path),
                    seq![
                        ("Rendered Image"@, DataView::String("USD Stage Loaded: "@ + path)),
                    ],
                )
            } else {
                (state, Seq::empty())
            },
            None => (state, Seq::empty()),
        },
        None => if state.current_stage.len() > 0 {
            (unloaded(state), Seq::empty())
        } else {
            (state, Seq::empty())
        },
    }
}

/// The line of the panel that tells which stage is shown.
pub open spec fn stage_line(current_stage: Seq<char>) -> Seq<char> {
    if current_stage.len() == 0 {
        "No USD stage loaded"@
    } else {
        "Current Stage: "@ + current_stage
    }
}

/// A slider for a sensitivity.
pub open spec fn sensitivity_slider(
    label: Seq<char>,
    value: Scalar,
    name: Seq<char>,
) -> ElementView {
    ElementView::Slider {
        label,
        value,
        min: Scalar { bits: MIN_SENSITIVITY_BITS },
        max: Scalar { bits: MAX_SENSITIVITY_BITS },
        parameter_name: name,
    }
}

/// The panel of the viewport node.
pub open spec fn viewport_panel(state: ViewportView) -> Seq<ElementView> {
    seq![
        ElementView::Heading("USD Viewport Settings"@),
        ElementView::Separator,
        ElementView::Label("📁 Stage Information"@),
        ElementView::Label(stage_line(state.current_stage)),
        ElementView::Separator,
        ElementView::Label("🎥 Camera Settings"@),
        sensitivity_slider(
            "Orbit Sensitivity"@,
            state.camera_settings.orbit_sensitivity,
            "orbit_sensitivity"@,
        ),
        sensitivity_slider(
            "Pan Sensitivity"@,
            state.camera_settings.pan_sensitivity,
            "pan_sensitivity"@,
        ),
        sensitivity_slider(
            "Zoom Sensitivity"@,
            state.camera_settings.zoom_sensitivity,
            "zoom_sensitivity"@,
        ),
        ElementView::Button { label: "Reset Camera"@, action: "reset_camera"@ },
        ElementView::Separator,
        ElementView::Label("⚙️ Viewport Settings"@),
        ElementView::Checkbox {
            label: "Wireframe"@,
            value: state.settings.wireframe,
            parameter_name: "wireframe"@,
        },
        ElementView::Checkbox {
            label: "Lighting"@,
            value: state.settings.lighting,
            parameter_name: "lighting"@,
        },
        ElementView::Checkbox {
            label: "Show Grid"@,
            value: state.settings.show_grid,
            parameter_name: "show_grid"@,
        },
        ElementView::Checkbox {
            label: "Show Ground Plane"@,
            value: state.settings.show_ground_plane,
            parameter_name: "show_ground_plane"@,
        },
        ElementView::Separator,
        ElementView::Label("💡 USD Plugin - Data-driven viewport rendering"@),
    ]
}

/// The first state of a viewport: no stage, a lit scene on a grid, nothing
/// to redraw, default sensitivities.
pub open spec fn first_viewport() -> ViewportView {
    ViewportView {
        current_stage: Seq::empty(),
        scene_name: Seq::empty(),
        settings: ViewportSettings {
            wireframe: false,
            lighting: true,
            show_grid: true,
            show_ground_plane: false,
        },
        scene_dirty: false,
        settings_dirty: false,
        camera_settings: CameraSettings {
            orbit_sensitivity: Scalar { bits: DEFAULT_ORBIT_BITS },
            pan_sensitivity: Scalar { bits: DEFAULT_PAN_ZOOM_BITS },
            zoom_sensitivity: Scalar { bits: DEFAULT_PAN_ZOOM_BITS },
        },
    }
}

impl Default for USDViewport {
    /// No stage, a lit scene on a grid, nothing to redraw, default
    /// sensitivities.
    fn default() -> (viewport: USDViewport)
        ensures
            viewport@ == first_viewport(),
    {
        USDViewport {
            current_stage: String::new(),
            viewport_data: ViewportData {
                scene_name: String::new(),
                settings: ViewportSettings {
                    wireframe: false,
                    lighting: true,
                    show_grid: true,
                    show_ground_plane: false,
                },
                scene_dirty: false,
                settings_dirty: false,
            },
            camera_settings: CameraSettings::default(),
        }
    }
}

impl USDViewport {
    /// Shows the stage at `stage_path`: the scene is named after it and has
    /// to be redrawn.
    pub fn load_stage(&mut self, stage_path: &str)
        ensures
            final(self)@ == loaded(old(self)@, stage_path@),
    {
        let mut name = "USD Stage: ".to_owned();
        name.append(stage_path);
        self.viewport_data.scene_name = name;
        self.viewport_data.scene_dirty = true;
        self.current_stage = stage_path.to_owned();
    }

    /// Takes the stage away: the scene is empty and has to be redrawn.
    pub fn unload_stage(&mut self)
        ensures
            final(self)@ == unloaded(old(self)@),
    {
        self.current_stage = String::new();
        self.viewport_data.scene_name = String::new();
        self.viewport_data.scene_dirty = true;
    }

    /// Notes that a gesture moved the camera: the scene has to be redrawn.
    pub fn handle_camera_manipulation(&mut self, manipulation: CameraManipulation)
        ensures
            final(self)@ == (ViewportView { scene_dirty: true, ..old(self)@ }),
    {
        self.viewport_data.scene_dirty = true;
    }

    fn tune(&mut self, name: &str, x: Scalar)
        requires
            is_sensitivity(name@),
        ensures
            final(self)@ == tuned(old(self)@, name@, x),
    {
        if same_text(name, "orbit_sensitivity") {
            self.camera_settings.orbit_sensitivity = x;
        } else if same_text(name, "pan_sensitivity") {
            self.camera_settings.pan_sensitivity = x;
        } else {
            self.camera_settings.zoom_sensitivity = x;
        }
    }

    fn switch(&mut self, name: &str, on: bool)
        requires
            is_switch(name@),
        ensures
            final(self)@ == switched(old(self)@, name@, on),
    {
        if same_text(name, "wireframe") {
            self.viewport_data.settings.wireframe = on;
        } else if same_text(name, "lighting") {
            self.viewport_data.settings.lighting = on;
        } else if same_text(name, "show_grid") {
            self.viewport_data.settings.show_grid = on;
        } else {
            self.viewport_data.settings.show_ground_plane = on;
        }
        self.viewport_data.settings_dirty = true;
    }
}

/// Tells whether `name` names a sensitivity.
pub fn names_sensitivity(name: &str) -> (r: bool)
    ensures
        r == is_sensitivity(name@),
{
    same_text(name, "orbit_sensitivity") || same_text(name, "pan_sensitivity") || same_text(
        name,
        "zoom_sensitivity",
    )
}

/// Tells whether `name` names a switch of the settings.
pub fn names_switch(name: &str) -> (r: bool)
    ensures
        r == is_switch(name@),
{
    same_text(name, "wireframe") || same_text(name, "lighting") || same_text(name, "show_grid")
        || same_text(name, "show_ground_plane")
}

/// The viewport node of the plugin interface.
#[derive(Debug, Clone)]
pub struct USDViewportNode {
    pub id: String,
    pub position: Pos2,
    pub viewport_data: USDViewport,
}

impl USDViewportNode {
    /// The identifier of the node.
    pub fn id(&self) -> (id: String)
        ensures
            id@ == self.id@,
    {
        self.id.clone()
    }

    /// Where the node stands in the graph.
    pub fn position(&self) -> (p: Pos2)
        ensures
            p == self.position,
    {
        self.position
    }

    /// Moves the node.
    pub fn set_position(&mut self, position: Pos2)
        ensures
            final(self).position == position,
            final(self).id == old(self).id,
            final(self).viewport_data == old(self).viewport_data,
    {
        self.position = position;
    }

    /// The panel of the node.
    pub fn get_parameter_ui(&self) -> (ui: ParameterUI)
        ensures
            panel(ui.elements@) == viewport_panel(self.viewport_data@),
    {
        let v = &self.viewport_data;
        let min = Scalar { bits: MIN_SENSITIVITY_BITS };
        let max = Scalar { bits: MAX_SENSITIVITY_BITS };
        let mut elements: Vec<UIElement> = Vec::new();
        add_element(&mut elements, heading("USD Viewport Settings"));
        add_element(&mut elements, UIElement::Separator);
        add_element(&mut elements, label("📁 Stage Information"));
        if v.current_stage.as_str().is_empty() {
            add_element(&mut elements, label("No USD stage loaded"));
        } else {
            let mut line = "Current Stage: ".to_owned();
            line.append(v.current_stage.as_str());
            add_element(&mut elements, label(line.as_str()));
        }
        add_element(&mut elements, UIElement::Separator);
        add_element(&mut elements, label("🎥 Camera Settings"));
        add_element(
            &mut elements,
            slider(
                "Orbit Sensitivity",
                v.camera_settings.orbit_sensitivity,
                min,
                max,
                "orbit_sensitivity",
            ),
        );
        add_element(
            &mut elements,
            slider("Pan Sensitivity", v.camera_settings.pan_sensitivity, min, max, "pan_sensitivity"),
        );
        add_element(
            &mut elements,
            slider(
                "Zoom Sensitivity",
                v.camera_settings.zoom_sensitivity,
                min,
                max,
                "zoom_sensitivity",
            ),
        );
        add_element(&mut elements, button("Reset Camera", "reset_camera"));
        add_element(&mut elements, UIElement::Separator);
        add_element(&mut elements, label("⚙️ Viewport Settings"));
        add_element(
            &mut elements,
            checkbox("Wireframe", v.viewport_data.settings.wireframe, "wireframe"),
        );
        add_element(&mut elements, checkbox("Lighting", v.viewport_data.settings.lighting, "lighting"));
        add_element(
            &mut elements,
            checkbox("Show Grid", v.viewport_data.settings.show_grid, "show_grid"),
        );
        add_element(
            &mut elements,
            checkbox(
                "Show Ground Plane",
                v.viewport_data.settings.show_ground_plane,
                "show_ground_plane",
            ),
        );
        add_element(&mut elements, UIElement::Separator);
        add_element(&mut elements, label("💡 USD Plugin - Data-driven viewport rendering"));
        assert(panel(elements@) =~= viewport_panel(self.viewport_data@));
        ParameterUI { elements }
    }

    /// Takes an action of the user and reports what changed.
    pub fn handle_ui_action(&mut self, action: UIAction) -> (changes: Vec<ParameterChange>)
        ensures
            (final(self).viewport_data@, changed(changes@)) == viewport_after(
                old(self).viewport_data@,
                action,
            ),
            final(self).id == old(self).id,
            final(self).position == old(self).position,
    {
        let mut changes: Vec<ParameterChange> = Vec::new();
        assert(changed(changes@) =~= Seq::empty());
        match &action {
            UIAction::ParameterChanged { parameter, value } => {
                if names_sensitivity(parameter.as_str()) {
                    match value.as_float() {
                        Some(x) => {
                            self.viewport_data.tune(parameter.as_str(), x);
                            note_change(&mut changes, parameter.as_str(), NodeData::Float(x));
                        },
                        None => {},
                    }
                } else if names_switch(parameter.as_str()) {
                    match value.as_boolean() {
                        Some(b) => {
                            self.viewport_data.switch(parameter.as_str(), b);
                            note_change(&mut changes, parameter.as_str(), NodeData::Boolean(b));
                        },
                        None => {},
                    }
                }
            },
            UIAction::ButtonClicked { action: clicked } => {
                if same_text(clicked.as_str(), "reset_camera") {
                    self.viewport_data.handle_camera_manipulation(CameraManipulation::Reset);
                    note_change(&mut changes, "camera_reset", NodeData::Boolean(true));
                }
            },
        }
        assert(changed(changes@) =~= viewport_after(old(self).viewport_data@, action).1);
        changes
    }

    /// The value of the parameter `name`, if the node has it.
    pub fn get_parameter(&self, name: &str) -> (r: Option<NodeData>)
        ensures
            match r {
                Some(d) => viewport_parameter(self.viewport_data@, name@) == Some(d@),
                None => viewport_parameter(self.viewport_data@, name@) is None,
            },
    {
        let v = &self.viewport_data;
        if same_text(name, "current_stage") {
            Some(NodeData::String(v.current_stage.clone()))
        } else if same_text(name, "orbit_sensitivity") {
            Some(NodeData::Float(v.camera_settings.orbit_sensitivity))
        } else if same_text(name, "pan_sensitivity") {
            Some(NodeData::Float(v.camera_settings.pan_sensitivity))
        } else if same_text(name, "zoom_sensitivity") {
            Some(NodeData::Float(v.camera_settings.zoom_sensitivity))
        } else if same_text(name, "wireframe") {
            Some(NodeData::Boolean(v.viewport_data.settings.wireframe))
        } else if same_text(name, "lighting") {
            Some(NodeData::Boolean(v.viewport_data.settings.lighting))
        } else if same_text(name, "show_grid") {
            Some(NodeData::Boolean(v.viewport_data.settings.show_grid))
        } else if same_text(name, "show_ground_plane") {
            Some(NodeData::Boolean(v.viewport_data.settings.show_ground_plane))
        } else {
            None
        }
    }

    /// Sets the parameter `name`, if the node has it and the value is of its
    /// kind. Setting `current_stage` loads the stage.
    pub fn set_parameter(&mut self, name: &str, value: NodeData)
        ensures
            final(self).viewport_data@ == viewport_set(old(self).viewport_data@, name@, value),
            final(self).id == old(self).id,
            final(self).position == old(self).position,
    {
        if same_text(name, "current_stage") {
            match value.as_string() {
                Some(stage) => {
                    self.viewport_data.load_stage(stage);
                },
                None => {},
            }
        } else if names_sensitivity(name) {
            match value.as_float() {
                Some(x) => {
                    self.viewport_data.tune(name, x);
                },
                None => {},
            }
        } else if names_switch(name) {
            match value.as_boolean() {
                Some(b) => {
                    self.viewport_data.switch(name, b);
                },
                None => {},
            }
        }
    }

    /// Runs the node on its inputs.
    pub fn process(&mut self, inputs: &Vec<(String, NodeData)>) -> (outputs: Vec<(String, NodeData)>)
        ensures
            (final(self).viewport_data@, listing(outputs@)) == viewport_processed(
                old(self).viewport_data@,
                inputs@,
            ),
            final(self).id == old(self).id,
            final(self).position == old(self).position,
    {
        let mut outputs: Vec<(String, NodeData)> = Vec::new();
        assert(listing(outputs@) =~= Seq::empty());
        match lookup(inputs, "Stage") {
            Some(d) => {
                match d.as_string() {
                    Some(path) => {
                        if !same_text(path, self.viewport_data.current_stage.as_str()) {
                            self.viewport_data.load_stage(path);
                            let mut report = "USD Stage Loaded: ".to_owned();
                            report.append(path);
                            add_entry(&mut outputs, "Rendered Image", NodeData::String(report));
                        }
                    },
                    None => {},
                }
            },
            None => {
                if !self.viewport_data.current_stage.as_str().is_empty() {
                    self.viewport_data.unload_stage();
                }
            },
        }
        assert(listing(outputs@) =~= viewport_processed(old(self).viewport_data@, inputs@).1);
        outputs
    }

    /// What the renderer is to draw.
    pub fn get_viewport_data(&self) -> (data: Option<ViewportData>)
        ensures
            data matches Some(d) && d.scene_name@ == self.viewport_data@.scene_name && d.settings
                == self.viewport_data@.settings && d.scene_dirty
                == self.viewport_data@.scene_dirty && d.settings_dirty
                == self.viewport_data@.settings_dirty,
    {
        Some(
            ViewportData {
                scene_name: self.viewport_data.viewport_data.scene_name.clone(),
                settings: self.viewport_data.viewport_data.settings,
                scene_dirty: self.viewport_data.viewport_data.scene_dirty,
                settings_dirty: self.viewport_data.viewport_data.settings_dirty,
            },
        )
    }

    /// Notes a camera gesture in the viewport.
    pub fn handle_viewport_camera(&mut self, manipulation: CameraManipulation)
        ensures
            final(self).viewport_data@ == (ViewportView {
                scene_dirty: true,
                ..old(self).viewport_data@
            }),
            final(self).id == old(self).id,
            final(self).position == old(self).position,
    {
        self.viewport_data.handle_camera_manipulation(manipulation);
    }

    /// Replaces the settings of the viewport.
    pub fn handle_viewport_settings(&mut self, settings: ViewportSettings)
        ensures
            final(self).viewport_data@ == (ViewportView {
                settings,
                settings_dirty: true,
                ..old(self).viewport_data@
            }),
            final(self).id == old(self).id,
            final(self).position == old(self).position,
    {
        self.viewport_data.viewport_data.settings = settings;
        self.viewport_data.viewport_data.settings_dirty = true;
    }

    /// The node shows a viewport.
    pub fn supports_viewport(&self) -> (r: bool)
        ensures
            r,
    {
        true
    }
}

impl USDViewport {
    /// How the viewport node presents itself to the editor.
    pub fn metadata(&self) -> (m: NodeMetadata)
        ensures
            m@ =~~= (MetadataView {
                node_type: "USD_Viewport"@,
                display_name: "USD Viewport"@,
                category: seq!["USD"@, "Viewport"@],
                description: "3D viewport for visualizing USD stages with Maya-style navigation"@,
                color: Some(Color32 { r: 100, g: 200, b: 100 }),
                icon: Some("🎥"@),
                inputs: seq![
                    required_port("Stage"@, DataType::String, "USD Stage to visualize"@),
                    optional_port(
                        "Camera"@,
                        DataType::String,
                        "Camera prim for viewport (optional)"@,
                    ),
                ],
                outputs: seq![
                    required_port("Rendered Image"@, DataType::String, "Viewport render output"@),
                ],
                tags: Seq::empty(),
                processing_cost: None,
                workspace_compatibility: seq!["3D"@],
                panel_type: Some(PanelType::Viewport),
            }),
    {
        NodeMetadata::new(
            "USD_Viewport",
            "USD Viewport",
            vec!["USD", "Viewport"],
            "3D viewport for visualizing USD stages with Maya-style navigation",
        )
            .with_color(Color32::from_rgb(100, 200, 100))
            .with_icon("🎥")
            .with_inputs(vec![
                PortDefinition::required("Stage", DataType::String)
                    .with_description("USD Stage to visualize"),
                PortDefinition::optional("Camera", DataType::String)
                    .with_description("Camera prim for viewport (optional)"),
            ])
            .with_outputs(vec![
                PortDefinition::required("Rendered Image", DataType::String)
                    .with_description("Viewport render output"),
            ])
            .with_workspace_compatibility(vec!["3D"])
            .with_panel_type(PanelType::Viewport)
    }
}

} // verus!
