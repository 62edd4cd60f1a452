//! Display properties of a viewport and the panel that edits them.

use vstd::prelude::*;
use crate::nodes::data::{DataView, NodeData, Scalar};
use crate::nodes::interface::{add_line, lines, ItemView, PanelItem, Widget, WidgetView};
use crate::nodes::metadata::owned_words;
use crate::text::same_text;

verus! {

/// How surfaces are shaded in the viewport.
#[derive(Debug, Clone, Copy, PartialEq, Eq, Structural)]
pub enum ShadingMode {
    Wireframe,
    Flat,
    Smooth,
    Textured,
    MaterialPreview,
}

/// How the view is projected.
#[derive(Debug, Clone, Copy, PartialEq, Eq, Structural)]
pub enum CameraMode {
    Perspective,
    Orthographic,
}

/// Display properties of a viewport. Colors and lengths are carried by
/// their bit patterns.
#[derive(Debug, Clone, Copy, PartialEq, Eq)]
pub struct ViewportProperties {
    pub background_color: [Scalar; 4],
    pub enable_wireframe: bool,
    pub enable_lighting: bool,
    pub enable_grid: bool,
    pub enable_axis_gizmo: bool,
    pub grid_size: Scalar,
    pub grid_spacing: Scalar,
    pub samples: i32,
    pub max_samples: i32,
    pub shading_mode: ShadingMode,
    pub camera_mode: CameraMode,
}

/// Bit pattern of 0.2, the gray of the background.
pub const BACKGROUND_GRAY_BITS: u32 = 0x3E4C_CCCD;

/// Bit pattern of 1.0.
pub const ONE_BITS: u32 = 0x3F80_0000;

/// Bit pattern of 10.0.
pub const TEN_BITS: u32 = 0x4120_0000;

/// Bit pattern of 100.0.
pub const HUNDRED_BITS: u32 = 0x42C8_0000;

/// Bit pattern of 0.1.
pub const TENTH_BITS: u32 = 0x3DCC_CCCD;

/// The properties of a new viewport: a dark gray background, lighting, grid
/// and axis gizmo on, a grid of size 10 with lines 1 apart, 4 of at most 16
/// samples, smooth shading in perspective.
pub open spec fn first_properties() -> ViewportProperties {
    ViewportProperties {
        background_color: [
            Scalar { bits: BACKGROUND_GRAY_BITS },
            Scalar { bits: BACKGROUND_GRAY_BITS },
            Scalar { bits: BACKGROUND_GRAY_BITS },
            Scalar { bits: ONE_BITS },
        ],
        enable_wireframe: false,
        enable_lighting: true,
        enable_grid: true,
        enable_axis_gizmo: true,
        grid_size: Scalar { bits: TEN_BITS },
        grid_spacing: Scalar { bits: ONE_BITS },
        samples: 4,
        max_samples: 16,
        shading_mode: ShadingMode::Smooth,
        camera_mode: CameraMode::Perspective,
    }
}

/// The properties after a button of the panel was pressed: the three
/// presets set samples and lighting, anything else changes nothing.
pub open spec fn with_preset(p: ViewportProperties, action: Seq<char>) -> ViewportProperties {
    if action == "Performance"@ {
        ViewportProperties { samples: 1, enable_lighting: false, ..p }
    } else if action == "Balanced"@ {
        ViewportProperties { samples: 4, enable_lighting: true, ..p }
    } else if action == "Quality"@ {
        ViewportProperties { samples: 8, enable_lighting: true, ..p }
    } else {
        p
    }
}

/// A checkbox line for a switch of the properties.
pub open spec fn switch_line(name: Seq<char>, text: Seq<char>, on: bool) -> ItemView {
    ItemView::Parameter {
        name,
        label: text,
        default: DataView::Boolean(on),
        widget: WidgetView::Checkbox { text },
    }
}

/// The lines of the display section. The two grid sliders are there while
/// the grid is on.
pub open spec fn display_lines(p: ViewportProperties) -> Seq<ItemView> {
    let top = seq![
        ItemView::Section("Display"@),
        ItemView::Label("Background:"@),
        ItemView::Parameter {
            name: "background_color"@,
            label: "Background:"@,
            default: DataView::Color(p.background_color@),
            widget: WidgetView::ColorButton,
        },
        switch_line("enable_wireframe"@, "Wireframe"@, p.enable_wireframe),
        switch_line("enable_lighting"@, "Lighting"@, p.enable_lighting),
        switch_line("enable_grid"@, "Grid"@, p.enable_grid),
        switch_line("enable_axis_gizmo"@, "Axis Gizmo"@, p.enable_axis_gizmo),
    ];
    if p.enable_grid {
        top.push(
            ItemView::Parameter {
                name: "grid_size"@,
                label: "Grid Size"@,
                default: DataView::Float(p.grid_size),
                widget: WidgetView::Slider {
                    min: Scalar { bits: ONE_BITS },
                    max: Scalar { bits: HUNDRED_BITS },
                },
            },
        ).push(
            ItemView::Parameter {
                name: "grid_spacing"@,
                label: "Grid Spacing"@,
                default: DataView::Float(p.grid_spacing),
                widget: WidgetView::Slider {
                    min: Scalar { bits: TENTH_BITS },
                    max: Scalar { bits: TEN_BITS },
                },
            },
        )
    } else {
        top
    }
}

/// The name of a shading mode in the panel.
pub open spec fn shading_name(mode: ShadingMode) -> Seq<char> {
    match mode {
        ShadingMode::Wireframe => "Wireframe"@,
        ShadingMode::Flat => "Flat"@,
        ShadingMode::Smooth => "Smooth"@,
        ShadingMode::Textured => "Textured"@,
        ShadingMode::MaterialPreview => "MaterialPreview"@,
    }
}

/// The name of a camera mode in the panel.
pub open spec fn camera_name(mode: CameraMode) -> Seq<char> {
    match mode {
        CameraMode::Perspective => "Perspective"@,
        CameraMode::Orthographic => "Orthographic"@,
    }
}

/// The lines below the display section: shading, camera, rendering with its
/// presets, and navigation.
pub open spec fn lower_lines(p: ViewportProperties) -> Seq<ItemView> {
    seq![
        ItemView::Section("Shading"@),
        ItemView::Label("Shading Mode:"@),
        ItemView::Parameter {
            name: "shading_mode"@,
            label: ""@,
            default: DataView::String(shading_name(p.shading_mode)),
            widget: WidgetView::Choice {
                options: seq![
                    "Wireframe"@,
                    "Flat"@,
                    "Smooth"@,
                    "Textured"@,
                    "Material Preview"@,
                ],
            },
        },
        ItemView::Section("Camera"@),
        ItemView::Label("Camera Mode:"@),
        ItemView::Parameter {
            name: "camera_mode"@,
            label: ""@,
            default: DataView::String(camera_name(p.camera_mode)),
            widget: WidgetView::Choice { options: seq!["Perspective"@, "Orthographic"@] },
        },
        ItemView::Section("Rendering"@),
        ItemView::Parameter {
            name: "samples"@,
            label: "Anti-aliasing Samples"@,
            default: DataView::Integer(p.samples as i64),
            widget: WidgetView::IntegerDrag {
                speed: Scalar { bits: ONE_BITS },
                min: 1,
                max: p.max_samples as i64,
            },
        },
        ItemView::Separator,
        ItemView::Label("Quick Presets:"@),
        ItemView::Button { label: "Performance"@, action: "Performance"@ },
        ItemView::Button { label: "Balanced"@, action: "Balanced"@ },
        ItemView::Button { label: "Quality"@, action: "Quality"@ },
        ItemView::Separator,
        ItemView::Label("Navigation:"@),
        ItemView::Button { label: "Reset View"@, action: "Reset View"@ },
        ItemView::Button { label: "Fit All"@, action: "Fit All"@ },
    ]
}

/// The lines of the properties panel.
pub open spec fn properties_lines(p: ViewportProperties) -> Seq<ItemView> {
    seq![ItemView::Heading("Viewport Properties"@), ItemView::Separator] + display_lines(p)
        + lower_lines(p)
}

fn switch_item(name: &str, text: &str, on: bool) -> (item: PanelItem)
    ensures
        item@ == switch_line(name@, text@, on),
{
    PanelItem::Parameter {
        name: name.to_owned(),
        label: text.to_owned(),
        default: NodeData::Boolean(on),
        widget: Widget::Checkbox { text: text.to_owned() },
    }
}

fn button_item(text: &str) -> (item: PanelItem)
    ensures
        item@ == (ItemView::Button { label: text@, action: text@ }),
{
    PanelItem::Button { label: text.to_owned(), action: text.to_owned() }
}

impl Default for ViewportProperties {
    fn default() -> (p: ViewportProperties)
        ensures
            p == first_properties(),
    {
        let gray = Scalar { bits: BACKGROUND_GRAY_BITS };
        ViewportProperties {
            background_color: [gray, gray, gray, Scalar { bits: ONE_BITS }],
            enable_wireframe: false,
            enable_lighting: true,
            enable_grid: true,
            enable_axis_gizmo: true,
            grid_size: Scalar { bits: TEN_BITS },
            grid_spacing: Scalar { bits: ONE_BITS },
            samples: 4,
            max_samples: 16,
            shading_mode: ShadingMode::Smooth,
            camera_mode: CameraMode::Perspective,
        }
    }
}

impl ViewportProperties {
    /// Builds the properties panel: its lines from top to bottom, each
    /// parameter with the value that the property has now.
    pub fn build_properties_ui(&self) -> (items: Vec<PanelItem>)
        ensures
            lines(items@) =~~= properties_lines(*self),
    {
        let mut items: Vec<PanelItem> = Vec::new();
        add_line(&mut items, PanelItem::Heading("Viewport Properties".to_owned()));
        add_line(&mut items, PanelItem::Separator);
        add_line(&mut items, PanelItem::Section("Display".to_owned()));
        add_line(&mut items, PanelItem::Label("Background:".to_owned()));
        add_line(
            &mut items,
            PanelItem::Parameter {
                name: "background_color".to_owned(),
                label: "Background:".to_owned(),
                default: NodeData::Color(self.background_color),
                widget: Widget::ColorButton,
            },
        );
        add_line(&mut items, switch_item("enable_wireframe", "Wireframe", self.enable_wireframe));
        add_line(&mut items, switch_item("enable_lighting", "Lighting", self.enable_lighting));
        add_line(&mut items, switch_item("enable_grid", "Grid", self.enable_grid));
        add_line(&mut items, switch_item("enable_axis_gizmo", "Axis Gizmo", self.enable_axis_gizmo));
        if self.enable_grid {
            add_line(
                &mut items,
                PanelItem::Parameter {
                    name: "grid_size".to_owned(),
                    label: "Grid Size".to_owned(),
                    default: NodeData::Float(self.grid_size),
                    widget: Widget::Slider {
                        min: Scalar { bits: ONE_BITS },
                        max: Scalar { bits: HUNDRED_BITS },
                    },
                },
            );
            add_line(
                &mut items,
                PanelItem::Parameter {
                    name: "grid_spacing".to_owned(),
                    label: "Grid Spacing".to_owned(),
                    default: NodeData::Float(self.grid_spacing),
                    widget: Widget::Slider {
                        min: Scalar { bits: TENTH_BITS },
                        max: Scalar { bits: TEN_BITS },
                    },
                },
            );
        }
        let shading: &str = match self.shading_mode {
            ShadingMode::Wireframe => "Wireframe",
            ShadingMode::Flat => "Flat",
            ShadingMode::Smooth => "Smooth",
            ShadingMode::Textured => "Textured",
            ShadingMode::MaterialPreview => "MaterialPreview",
        };
        let camera: &str = match self.camera_mode {
            CameraMode::Perspective => "Perspective",
            CameraMode::Orthographic => "Orthographic",
        };
        add_line(&mut items, PanelItem::Section("Shading".to_owned()));
        add_line(&mut items, PanelItem::Label("Shading Mode:".to_owned()));
        add_line(
            &mut items,
            PanelItem::Parameter {
                name: "shading_mode".to_owned(),
                label: "".to_owned(),
                default: NodeData::String(shading.to_owned()),
                widget: Widget::Choice {
                    options: owned_words(
                        &vec!["Wireframe", "Flat", "Smooth", "Textured", "Material Preview"],
                    ),
                },
            },
        );
        add_line(&mut items, PanelItem::Section("Camera".to_owned()));
        add_line(&mut items, PanelItem::Label("Camera Mode:".to_owned()));
        add_line(
            &mut items,
            PanelItem::Parameter {
                name: "camera_mode".to_owned(),
                label: "".to_owned(),
                default: NodeData::String(camera.to_owned()),
                widget: Widget::Choice { options: owned_words(&vec!["Perspective", "Orthographic"]) },
            },
        );
        add_line(&mut items, PanelItem::Section("Rendering".to_owned()));
        add_line(
            &mut items,
            PanelItem::Parameter {
                name: "samples".to_owned(),
                label: "Anti-aliasing Samples".to_owned(),
                default: NodeData::Integer(self.samples as i64),
                widget: Widget::IntegerDrag {
                    speed: Scalar { bits: ONE_BITS },
                    min: 1,
                    max: self.max_samples as i64,
                },
            },
        );
        add_line(&mut items, PanelItem::Separator);
        add_line(&mut items, PanelItem::Label("Quick Presets:".to_owned()));
        add_line(&mut items, button_item("Performance"));
        add_line(&mut items, button_item("Balanced"));
        add_line(&mut items, button_item("Quality"));
        add_line(&mut items, PanelItem::Separator);
        add_line(&mut items, PanelItem::Label("Navigation:".to_owned()));
        add_line(&mut items, button_item("Reset View"));
        add_line(&mut items, button_item("Fit All"));
        items
    }

    /// Takes a press of a button of the panel.
    pub fn press(&mut self, action: &str)
        ensures
            *final(self) == with_preset(*old(self), action@),
    {
        if same_text(action, "Performance") {
            self.samples = 1;
            self.enable_lighting = false;
        } else if same_text(action, "Balanced") {
            self.samples = 4;
            self.enable_lighting = true;
        } else if same_text(action, "Quality") {
            self.samples = 8;
            self.enable_lighting = true;
        }
    }
}

} // verus!
