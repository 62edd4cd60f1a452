//! What the renderer decides without touching the graphics device: which
//! scene is loaded, what is selected, how things are shaded, which camera is
//! used and which draw calls a frame consists of.

use vstd::prelude::*;
use crate::engine::texts;
use crate::viewport::mesh::{
    create_cube_geometry, create_plane_geometry, create_sphere_geometry, grid_list, is_builtin_mesh,
    quad_list, SPHERE_RINGS, SPHERE_SEGMENTS,
};
use crate::viewport::picking::{scene_in_bounds, USDGeometry};

verus! {

/// How surfaces are drawn.
#[derive(Debug, Clone, Copy, PartialEq, Eq, Structural)]
pub enum ShadingMode {
    Wireframe,
    WireframeOnSurface,
    FlatShaded,
    SmoothShaded,
    MaterialPreview,
    Rendered,
}

/// How finely curved surfaces are refined.
#[derive(Debug, Clone, Copy, PartialEq, Eq, Structural)]
pub enum ComplexityLevel {
    Low,
    Medium,
    High,
    VeryHigh,
}

/// Whose view is rendered: the viewport's own camera or a camera of the
/// scene, named by its prim path.
#[derive(Debug, Clone, PartialEq, Eq)]
pub enum CameraMode {
    Viewport,
    USDCamera(String),
}

/// The camera that a frame is rendered with.
#[derive(Debug, Clone, Copy, PartialEq, Eq, Structural)]
pub enum ActiveCamera {
    /// The viewport's own camera.
    Viewport,
    /// The scene camera at this position in the scene's list of cameras.
    Scene(usize),
}

/// One step of a frame.
#[derive(Debug, Clone, Copy, PartialEq, Eq, Structural)]
pub enum DrawCall {
    /// The edges of the geometry at this position in the scene.
    Wireframe(usize),
    /// The surfaces of the geometry at this position in the scene.
    Mesh(usize),
    Grid,
    AxisGizmo,
}

/// Display settings of the renderer.
#[derive(Debug, Clone)]
pub struct USDRenderSettings {
    pub shading_mode: ShadingMode,
    pub show_guides: bool,
    pub show_render: bool,
    pub show_proxy: bool,
    pub show_purposes: Vec<String>,
    pub complexity: ComplexityLevel,
    pub enable_lighting: bool,
    pub ambient_occlusion: bool,
}

/// The settings of a new renderer: smooth shading at medium complexity, with
/// lighting, showing what is meant for rendering and neither guides nor
/// proxies, for the purposes `default` and `render`.
pub open spec fn is_default_settings(settings: USDRenderSettings) -> bool {
    &&& settings.shading_mode == ShadingMode::SmoothShaded
    &&& !settings.show_guides
    &&& settings.show_render
    &&& !settings.show_proxy
    &&& texts(settings.show_purposes@) == seq!["default"@, "render"@]
    &&& settings.complexity == ComplexityLevel::Medium
    &&& settings.enable_lighting
    &&& !settings.ambient_occlusion
}

impl Default for USDRenderSettings {
    /// Smooth shading at medium complexity, with lighting, showing the
    /// purposes `default` and `render`.
    fn default() -> (settings: USDRenderSettings)
        ensures
            is_default_settings(settings),
    {
        let mut show_purposes: Vec<String> = Vec::new();
        show_purposes.push("default".to_owned());
        show_purposes.push("render".to_owned());
        assert(texts(show_purposes@) =~= seq!["default"@, "render"@]);
        USDRenderSettings {
            shading_mode: ShadingMode::SmoothShaded,
            show_guides: false,
            show_render: true,
            show_proxy: false,
            show_purposes,
            complexity: ComplexityLevel::Medium,
            enable_lighting: true,
            ambient_occlusion: false,
        }
    }
}

/// The scene that the renderer shows: the stage it was loaded from, its
/// geometries and the prim paths of its cameras.
pub struct USDScene {
    pub stage_id: String,
    pub geometries: Vec<USDGeometry>,
    pub cameras: Vec<String>,
}

/// `paths` without every occurrence of `path`.
pub open spec fn without(paths: Seq<Seq<char>>, path: Seq<char>) -> Seq<Seq<char>>
    decreases paths.len(),
{
    if paths.len() == 0 {
        Seq::empty()
    } else if paths.last() == path {
        without(paths.drop_last(), path)
    } else {
        without(paths.drop_last(), path).push(paths.last())
    }
}

/// The draw calls for the first `n` geometries: one for each that is visible
/// and has its buffers uploaded, as edges in the two wireframe modes and as
/// surfaces in every other.
pub open spec fn geometry_calls(
    geometries: Seq<USDGeometry>,
    uploaded: Seq<Seq<char>>,
    mode: ShadingMode,
    n: int,
) -> Seq<DrawCall>
    decreases n,
{
    if n <= 0 {
        Seq::empty()
    } else {
        let g = geometries[n - 1];
        let rest = geometry_calls(geometries, uploaded, mode, n - 1);
        if g.visibility && uploaded.contains(g.prim_path@) {
            if mode == ShadingMode::Wireframe || mode == ShadingMode::WireframeOnSurface {
                rest.push(DrawCall::Wireframe((n - 1) as usize))
            } else {
                rest.push(DrawCall::Mesh((n - 1) as usize))
            }
        } else {
            rest
        }
    }
}

/// A whole frame: the geometries, the grid where lighting is on, which
/// doubles as the grid's switch, and the axis gizmo.
pub open spec fn frame(
    geometries: Seq<USDGeometry>,
    uploaded: Seq<Seq<char>>,
    settings: USDRenderSettings,
) -> Seq<DrawCall> {
    let calls = geometry_calls(
        geometries,
        uploaded,
        settings.shading_mode,
        geometries.len() as int,
    );
    if settings.enable_lighting {
        calls.push(DrawCall::Grid).push(DrawCall::AxisGizmo)
    } else {
        calls.push(DrawCall::AxisGizmo)
    }
}

/// The state of the renderer that does not live on the graphics device.
pub struct USDRenderer {
    pub current_scene: USDScene,
    pub render_settings: USDRenderSettings,
    pub selected_prims: Vec<String>,
    pub camera_mode: CameraMode,
}

fn holds(paths: &Vec<String>, path: &String) -> (r: bool)
    ensures
        r == texts(paths@).contains(path@),
{
    let mut i: usize = 0;
    while i < paths.len()
        invariant
            i <= paths.len(),
            forall|j: int| 0 <= j < i ==> texts(paths@)[j] != path@,
        decreases paths.len() - i,
    {
        if paths[i] == *path {
            assert(texts(paths@)[i as int] == path@);
            return true;
        }
        assert(texts(paths@)[i as int] == paths@[i as int]@);
        i += 1;
    }
    false
}

impl USDRenderer {
    /// The three placeholder meshes that stand in for a stage's content.
    pub open spec fn is_mock_scene(geometries: Seq<USDGeometry>) -> bool {
        &&& geometries.len() == 3
        &&& is_builtin_mesh(geometries[0], "/World/Cube"@, "Cube"@, 24, quad_list(6))
        &&& is_builtin_mesh(
            geometries[1],
            "/World/Sphere"@,
            "Sphere"@,
            561,
            grid_list(SPHERE_RINGS as nat, SPHERE_SEGMENTS as nat),
        )
        &&& is_builtin_mesh(geometries[2], "/World/Plane"@, "Plane"@, 4, quad_list(1))
    }

    /// A renderer with no scene, nothing selected, default settings and the
    /// viewport's own camera.
    pub fn new() -> (renderer: USDRenderer)
        ensures
            renderer.current_scene.stage_id@ == Seq::<char>::empty(),
            renderer.current_scene.geometries@.len() == 0,
            renderer.current_scene.cameras@.len() == 0,
            renderer.selected_prims@.len() == 0,
            renderer.camera_mode == CameraMode::Viewport,
            is_default_settings(renderer.render_settings),
    {
        USDRenderer {
            current_scene: USDScene {
                stage_id: String::new(),
                geometries: Vec::new(),
                cameras: Vec::new(),
            },
            render_settings: USDRenderSettings::default(),
            selected_prims: Vec::new(),
            camera_mode: CameraMode::Viewport,
        }
    }

    /// Adds the placeholder cube, sphere and plane to the scene.
    pub fn create_mock_scene(&mut self, stage_id: &str)
        ensures
            final(self).current_scene.geometries@.len() == old(self).current_scene.geometries@.len()
                + 3,
            final(self).current_scene.geometries@.take(
                old(self).current_scene.geometries@.len() as int,
            ) == old(self).current_scene.geometries@,
            Self::is_mock_scene(
                final(self).current_scene.geometries@.skip(
                    old(self).current_scene.geometries@.len() as int,
                ),
            ),
            final(self).current_scene.stage_id == old(self).current_scene.stage_id,
            final(self).current_scene.cameras == old(self).current_scene.cameras,
            final(self).render_settings == old(self).render_settings,
            final(self).selected_prims == old(self).selected_prims,
            final(self).camera_mode == old(self).camera_mode,
    {
        let ghost before = self.current_scene.geometries@;
        self.current_scene.geometries.push(create_cube_geometry("/World/Cube"));
        self.current_scene.geometries.push(create_sphere_geometry("/World/Sphere"));
        self.current_scene.geometries.push(create_plane_geometry("/World/Plane"));
        assert(self.current_scene.geometries@.take(before.len() as int) =~= before);
    }

    /// Loads the stage `stage_id`: the scene is replaced by the placeholder
    /// scene of that stage. The selection and the settings stay.
    pub fn load_stage(&mut self, stage_id: &str) -> (r: Result<(), String>)
        ensures
            r is Ok,
            final(self).current_scene.stage_id@ == stage_id@,
            Self::is_mock_scene(final(self).current_scene.geometries@),
            scene_in_bounds(final(self).current_scene.geometries@),
            final(self).current_scene.cameras@.len() == 0,
            final(self).render_settings == old(self).render_settings,
            final(self).selected_prims == old(self).selected_prims,
            final(self).camera_mode == old(self).camera_mode,
    {
        self.current_scene = USDScene {
            stage_id: stage_id.to_owned(),
            geometries: Vec::new(),
            cameras: Vec::new(),
        };
        self.create_mock_scene(stage_id);
        assert(self.current_scene.geometries@.skip(0) =~= self.current_scene.geometries@);
        Ok(())
    }

    /// Selects the prim at `prim_path`, unless it is selected already.
    pub fn select_prim(&mut self, prim_path: &str)
        ensures
            texts(final(self).selected_prims@) == if texts(old(self).selected_prims@).contains(
                prim_path@,
            ) {
                texts(old(self).selected_prims@)
            } else {
                texts(old(self).selected_prims@).push(prim_path@)
            },
            final(self).current_scene == old(self).current_scene,
            final(self).render_settings == old(self).render_settings,
            final(self).camera_mode == old(self).camera_mode,
    {
        let path = prim_path.to_owned();
        if !holds(&self.selected_prims, &path) {
            self.selected_prims.push(path);
            assert(texts(self.selected_prims@) =~= texts(old(self).selected_prims@).push(
                prim_path@,
            ));
        }
    }

    /// Takes the prim at `prim_path` out of the selection.
    pub fn deselect_prim(&mut self, prim_path: &str)
        ensures
            texts(final(self).selected_prims@) == without(
                texts(old(self).selected_prims@),
                prim_path@,
            ),
            final(self).current_scene == old(self).current_scene,
            final(self).render_settings == old(self).render_settings,
            final(self).camera_mode == old(self).camera_mode,
    {
        let path = prim_path.to_owned();
        let mut kept: Vec<String> = Vec::new();
        let ghost all = texts(self.selected_prims@);
        let mut i: usize = 0;
        assert(all.take(0) =~= Seq::<Seq<char>>::empty());
        assert(texts(kept@) =~= Seq::<Seq<char>>::empty());
        while i < self.selected_prims.len()
            invariant
                *self == *old(self),
                all == texts(self.selected_prims@),
                path@ == prim_path@,
                i <= self.selected_prims.len(),
                texts(kept@) == without(all.take(i as int), prim_path@),
            decreases self.selected_prims.len() - i,
        {
            let ghost before = texts(kept@);
            proof {
                let next = all.take(i + 1);
                assert(next.drop_last() =~= all.take(i as int));
                assert(next.last() == self.selected_prims@[i as int]@);
            }
            if self.selected_prims[i] != path {
                kept.push(self.selected_prims[i].clone());
                assert(texts(kept@) =~= before.push(self.selected_prims@[i as int]@));
            }
            i += 1;
        }
        assert(all.take(i as int) =~= all);
        self.selected_prims = kept;
    }

    /// Empties the selection.
    pub fn clear_selection(&mut self)
        ensures
            final(self).selected_prims@.len() == 0,
            final(self).current_scene == old(self).current_scene,
            final(self).render_settings == old(self).render_settings,
            final(self).camera_mode == old(self).camera_mode,
    {
        self.selected_prims.clear();
    }

    /// Sets how surfaces are drawn.
    pub fn set_shading_mode(&mut self, mode: ShadingMode)
        ensures
            final(self).render_settings.shading_mode == mode,
            final(self).render_settings.show_guides == old(self).render_settings.show_guides,
            final(self).render_settings.show_render == old(self).render_settings.show_render,
            final(self).render_settings.show_proxy == old(self).render_settings.show_proxy,
            final(self).render_settings.show_purposes == old(self).render_settings.show_purposes,
            final(self).render_settings.complexity == old(self).render_settings.complexity,
            final(self).render_settings.enable_lighting == old(
                self,
            ).render_settings.enable_lighting,
            final(self).render_settings.ambient_occlusion == old(
                self,
            ).render_settings.ambient_occlusion,
            final(self).current_scene == old(self).current_scene,
            final(self).selected_prims == old(self).selected_prims,
            final(self).camera_mode == old(self).camera_mode,
    {
        self.render_settings.shading_mode = mode;
    }

    /// Sets whose view is rendered.
    pub fn set_camera_mode(&mut self, mode: CameraMode)
        ensures
            final(self).camera_mode == mode,
            final(self).current_scene == old(self).current_scene,
            final(self).render_settings == old(self).render_settings,
            final(self).selected_prims == old(self).selected_prims,
    {
        self.camera_mode = mode;
    }

    /// The camera that the mode asks for: the first scene camera at the
    /// mode's prim path, and the viewport's own camera where the mode asks
    /// for it or the scene has no camera at that path.
    pub open spec fn active_camera(&self) -> ActiveCamera {
        match self.camera_mode {
            CameraMode::Viewport => ActiveCamera::Viewport,
            CameraMode::USDCamera(path) => match crate::engine::position(
                texts(self.current_scene.cameras@),
                path@,
            ) {
                Some(i) => ActiveCamera::Scene(i as usize),
                None => ActiveCamera::Viewport,
            },
        }
    }

    /// Picks the camera that the next frame is rendered with.
    pub fn get_active_camera(&self) -> (camera: ActiveCamera)
        ensures
            camera == self.active_camera(),
    {
        match &self.camera_mode {
            CameraMode::Viewport => ActiveCamera::Viewport,
            CameraMode::USDCamera(path) => {
                let ghost all = texts(self.current_scene.cameras@);
                let mut i: usize = 0;
                while i < self.current_scene.cameras.len()
                    invariant
                        i <= self.current_scene.cameras.len(),
                        self.camera_mode == CameraMode::USDCamera(*path),
                        all == texts(self.current_scene.cameras@),
                        forall|j: int| 0 <= j < i ==> all[j] != path@,
                    decreases self.current_scene.cameras.len() - i,
                {
                    if self.current_scene.cameras[i] == *path {
                        proof {
                            assert(all[i as int] == path@);
                            crate::engine::lemma_position(all, path@);
                            let c = crate::engine::position(all, path@).unwrap();
                            assert(c == i) by {
                                if c < i {
                                    assert(all[c] != path@);
                                }
                            }
                        }
                        return ActiveCamera::Scene(i);
                    }
                    assert(all[i as int] == self.current_scene.cameras@[i as int]@);
                    i += 1;
                }
                proof {
                    crate::engine::lemma_position(all, path@);
                }
                ActiveCamera::Viewport
            },
        }
    }

    /// Lists the draw calls of one frame. `uploaded` names the prims whose
    /// vertex and index buffers are on the device.
    pub fn render_to_pass(&self, uploaded: &Vec<String>) -> (calls: Vec<DrawCall>)
        ensures
            calls@ == frame(self.current_scene.geometries@, texts(uploaded@), self.render_settings),
    {
        let mut calls: Vec<DrawCall> = Vec::new();
        let mode = self.render_settings.shading_mode;
        let mut i: usize = 0;
        while i < self.current_scene.geometries.len()
            invariant
                i <= self.current_scene.geometries.len(),
                mode == self.render_settings.shading_mode,
                calls@ == geometry_calls(
                    self.current_scene.geometries@,
                    texts(uploaded@),
                    mode,
                    i as int,
                ),
            decreases self.current_scene.geometries.len() - i,
        {
            let g = &self.current_scene.geometries[i];
            if g.visibility && holds(uploaded, &g.prim_path) {
                match mode {
                    ShadingMode::Wireframe | ShadingMode::WireframeOnSurface => {
                        calls.push(DrawCall::Wireframe(i));
                    },
                    _ => {
                        calls.push(DrawCall::Mesh(i));
                    },
                }
            }
            i += 1;
        }
        if self.render_settings.enable_lighting {
            calls.push(DrawCall::Grid);
        }
        calls.push(DrawCall::AxisGizmo);
        calls
    }
}

/// A prim that was selected is in the selection, and only once: selecting it
/// again changes nothing.
pub proof fn lemma_select_twice(selection: Seq<Seq<char>>, path: Seq<char>)
    ensures
        ({
            let once = if selection.contains(path) {
                selection
            } else {
                selection.push(path)
            };
            once.contains(path) && (if once.contains(path) {
                once
            } else {
                once.push(path)
            }) == once
        }),
{
    if !selection.contains(path) {
        assert(selection.push(path)[selection.len() as int] == path);
    }
}

/// A prim that was deselected is not in the selection any more, and what else
/// was selected still is.
pub proof fn lemma_deselected(selection: Seq<Seq<char>>, path: Seq<char>)
    ensures
        !without(selection, path).contains(path),
        forall|other: Seq<char>|
            other != path ==> (#[trigger] without(selection, path).contains(other)
                <==> selection.contains(other)),
    decreases selection.len(),
{
    if selection.len() > 0 {
        let head = selection.drop_last();
        let last = selection.last();
        lemma_deselected(head, path);
        let out = without(selection, path);
        assert forall|other: Seq<char>| other != path implies (#[trigger] out.contains(other)
            <==> selection.contains(other)) by {
            if selection.contains(other) {
                let i = choose|i: int| 0 <= i < selection.len() && selection[i] == other;
                if i < head.len() {
                    assert(head[i] == other);
                    assert(without(head, path).contains(other));
                    let k = choose|k: int|
                        0 <= k < without(head, path).len() && without(head, path)[k] == other;
                    assert(out[k] == other);
                } else {
                    assert(out[out.len() - 1] == other);
                }
            }
            if out.contains(other) {
                let k = choose|k: int| 0 <= k < out.len() && out[k] == other;
                if k < without(head, path).len() {
                    assert(without(head, path)[k] == other);
                    assert(without(head, path).contains(other));
                    assert(head.contains(other));
                    let i = choose|i: int| 0 <= i < head.len() && head[i] == other;
                    assert(selection[i] == other);
                } else {
                    assert(selection[selection.len() - 1] == other);
                }
            }
        }
        if out.contains(path) {
            let k = choose|k: int| 0 <= k < out.len() && out[k] == path;
            if k < without(head, path).len() {
                assert(without(head, path)[k] == path);
            }
        }
    }
}

} // verus!
