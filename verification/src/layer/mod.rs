//! Layers: what defines one, and what setting one up takes.

use bevy::render::view::RenderLayers;
use vstd::prelude::*;

use crate::camera::{CameraPlan, CameraTarget};
use crate::color::LinearColor;
use crate::consts::{ZIX_MAX, ZIX_MIN};
use crate::screen::LayersRes;
use crate::utils::{blank_screen_extent, screen_extent};
use layer_defns::{
    BgLayer, FgLayer, LightLayer, MainAmbienceLayer, MainDetailLayer, MainStaticLayer, MenuLayer,
    OverlayLayer, SmushLayer, TransitionLayer, LIGHT_KEY, SMUSH_KEY,
};

pub mod layer_defns;

verus! {

/// How this layer should react to the camera moving
#[derive(Clone, Copy, Debug, PartialEq, Eq)]
pub enum LayerPositionMode {
    /// The camera's position will always be the center of the screen
    /// NOTE: Used for the actual world with game objects
    Follow,
    /// (0.0, 0.0) will always be the center of the screen
    /// NOTE: Used for basically everything else (bg/fg so parallax easy, menu, etc.)
    Fixed,
}

/// What shader should be applied to the output of this layer
#[derive(Clone, Copy, Debug, PartialEq, Eq)]
pub enum LayerOutputMode {
    /// Just render to target
    Discarded,
    /// Render to target, then put that target on a sprite in the output render layer
    Unlit { output_rl: usize },
    /// Render to target, then put that target on a lit material in the output render layer
    Lit { base_color: LinearColor, output_rl: usize },
}

/// Key information defining a layer
#[derive(Clone, Copy, Debug, PartialEq, Eq)]
pub struct LayerDefn {
    /// What the layer is called, for labels.
    pub name: &'static str,
    /// A unique key to be given to this layer. It is also the render layer
    /// that things in this layer carry.
    pub key: u32,
    /// In what order should this layer get rendered?
    /// EXAMPLE: Important for things like making sure that certain layers rendered AFTER lighting
    pub render_order: u32,
    /// Is this a screen size layer, or an overlay size level
    pub is_overlay: bool,
    /// At the end of the day, all these layers render to images, which we
    /// stack on top of each other. What should be the ZIX of this image?
    pub zix: u32,
    /// How the layer interacts with our moving dynamic camera
    pub position_mode: LayerPositionMode,
    /// Defines the shader to use on the output of this layer
    pub output_mode: LayerOutputMode,
    /// What the layer's target is cleared to each frame
    pub clear_color: LinearColor,
}

/// A layer that entities can be put on.
pub trait Layer {
    /// What defines the layer.
    spec fn spec_defn() -> LayerDefn;

    /// What defines the layer.
    fn defn() -> (defn: LayerDefn)
        ensures
            defn == Self::spec_defn(),
    ;
}

/// The engine's tag for what is drawn on some render layers and for the
/// cameras that see them. Nothing is known of its inside.
#[verifier::external_type_specification]
#[verifier::external_body]
pub struct ExRenderLayers(RenderLayers);

/// The render layers that a tag names.
pub uninterp spec fn layers_in(render_layers: RenderLayers) -> Set<usize>;

/// Calls `RenderLayers::from_layers`, which starts from a tag that names no
/// layer and adds each layer of the list to it in turn. Believed, not
/// proved: the tag that comes back names the layers of the list and no
/// other.
#[verifier::external_body]
fn from_layers(layers: &[usize]) -> (render_layers: RenderLayers)
    ensures
        layers_in(render_layers) == layers@.to_set(),
{
    RenderLayers::from_layers(layers)
}

/// The tag for things on the one render layer `rl`, and for a camera that
/// sees that layer alone.
pub fn to_render_layers(rl: usize) -> (render_layers: RenderLayers)
    ensures
        layers_in(render_layers) == set![rl],
{
    let layers = [rl];
    proof {
        assert(layers@.to_set() =~= set![rl]);
    }
    from_layers(layers.as_slice())
}

/// Which render layers to attach to things in the layer `L`
pub fn render_layers<L: Layer>() -> (render_layers: RenderLayers)
    ensures
        layers_in(render_layers) == set![L::spec_defn().key as usize],
{
    to_render_layers(L::defn().key as usize)
}

/// What the image that a layer's target is drawn on shows.
#[derive(Clone, Copy, Debug, PartialEq, Eq)]
pub enum QuadSource {
    /// The layer's target as it is, on a sprite.
    Sprite { image: u128 },
    /// The layer's target multiplied by the light, on a mesh: where the
    /// light target is dark the base colour tints the layer instead.
    LitMesh { image: u128, light: u128, base_color: LinearColor },
}

/// The quad that carries a layer's finished target into the next stage.
#[derive(Clone, Copy, Debug, PartialEq, Eq)]
pub struct OutputQuad {
    /// The render layer that the quad is drawn on.
    pub render_layer: usize,
    /// How far forward the quad stands; its other coordinates are zero.
    pub z: u32,
    /// Width and height of the quad.
    pub size: (u32, u32),
    /// What the quad shows.
    pub source: QuadSource,
    /// Whether the quad is rescaled when the window is resized.
    pub needs_resizing: bool,
}

/// What setting one layer up takes: its camera, and its output quad if it
/// has one.
#[derive(Clone, Copy, Debug, PartialEq, Eq)]
pub struct LayerSetup {
    pub camera: CameraPlan,
    pub output: Option<OutputQuad>,
}

impl LayerDefn {
    /// Whether this is the last layer, the one drawn to the window.
    pub open spec fn is_smush(&self) -> bool {
        self.key == SMUSH_KEY
    }

    /// Whether setting the layer up measures the grown screen: for the
    /// target of an overlay layer that is not the last, and for any output
    /// quad.
    pub open spec fn needs_grown_size(&self) -> bool {
        ||| self.is_overlay && !self.is_smush()
        ||| !(self.output_mode is Discarded)
    }

    /// The asset key under which the layer's target image is kept.
    pub open spec fn target_key(&self) -> u128 {
        self.key as u128
    }

    /// The camera of the layer. It draws in the layer's order, sees only the
    /// layer's own render layer, and clears to the layer's clear colour.
    /// The last layer draws to the window, every other to an image of its
    /// resolution class. An overlay camera other than the last is scaled
    /// down by the overlay growth, so that world units stay the same. The
    /// camera follows the dynamic camera exactly when the layer does.
    pub open spec fn camera_spec(&self, res: &LayersRes) -> CameraPlan {
        CameraPlan {
            order: self.render_order as i64,
            target: if self.is_smush() {
                CameraTarget::Window
            } else {
                CameraTarget::Keyed {
                    asset_key: self.target_key(),
                    width: screen_extent(res, self.is_overlay).0 as u32,
                    height: screen_extent(res, self.is_overlay).1 as u32,
                }
            },
            clear_color: self.clear_color,
            near: ZIX_MIN,
            far: ZIX_MAX,
            scale_divisor: if self.is_overlay && !self.is_smush() {
                res.overlay_growth
            } else {
                1
            },
            render_layer: self.key as usize,
            follow: self.position_mode == LayerPositionMode::Follow,
        }
    }

    /// The output quad of the layer, if it has one. It stands at the
    /// layer's stacking index on the render layer that the output mode
    /// names, covers the grown screen, and is rescaled with the window. An
    /// unlit layer shows its target on a sprite; a lit one on a mesh that
    /// also reads the light layer's target and the base colour.
    pub open spec fn output_spec(&self, res: &LayersRes) -> Option<OutputQuad> {
        match self.output_mode {
            LayerOutputMode::Discarded => None,
            LayerOutputMode::Unlit { output_rl } => Some(
                OutputQuad {
                    render_layer: output_rl,
                    z: self.zix,
                    size: (res.grown_size().0 as u32, res.grown_size().1 as u32),
                    source: QuadSource::Sprite { image: self.target_key() },
                    needs_resizing: true,
                },
            ),
            LayerOutputMode::Lit { base_color, output_rl } => Some(
                OutputQuad {
                    render_layer: output_rl,
                    z: self.zix,
                    size: (res.grown_size().0 as u32, res.grown_size().1 as u32),
                    source: QuadSource::LitMesh {
                        image: self.target_key(),
                        light: LIGHT_KEY as u128,
                        base_color,
                    },
                    needs_resizing: true,
                },
            ),
        }
    }

    /// Plans the camera and the output quad of this layer for a screen of
    /// the given sizes.
    pub fn setup(&self, res: &LayersRes) -> (plan: LayerSetup)
        requires
            self.needs_grown_size() ==> res.wf(),
        ensures
            plan.camera == self.camera_spec(res),
            plan.output == self.output_spec(res),
    {
        let is_smush = self.key == SMUSH_KEY;
        let target_key = self.key as u128;
        let render_target = if is_smush {
            CameraTarget::Window
        } else {
            let extent = blank_screen_extent(res, self.is_overlay);
            CameraTarget::Keyed { asset_key: target_key, width: extent.0, height: extent.1 }
        };
        let camera = CameraPlan {
            order: self.render_order as i64,
            target: render_target,
            clear_color: self.clear_color,
            near: ZIX_MIN,
            far: ZIX_MAX,
            scale_divisor: if self.is_overlay && !is_smush {
                res.overlay_growth
            } else {
                1
            },
            render_layer: self.key as usize,
            follow: matches!(self.position_mode, LayerPositionMode::Follow),
        };
        let output = match self.output_mode {
            LayerOutputMode::Discarded => None,
            LayerOutputMode::Unlit { output_rl } => Some(
                OutputQuad {
                    render_layer: output_rl,
                    z: self.zix,
                    size: res.effective_window(),
                    source: QuadSource::Sprite { image: target_key },
                    needs_resizing: true,
                },
            ),
            LayerOutputMode::Lit { base_color, output_rl } => Some(
                OutputQuad {
                    render_layer: output_rl,
                    z: self.zix,
                    size: res.effective_window(),
                    source: QuadSource::LitMesh {
                        image: target_key,
                        light: LIGHT_KEY as u128,
                        base_color,
                    },
                    needs_resizing: true,
                },
            ),
        };
        LayerSetup { camera, output }
    }
}

/// How many layers there are.
pub const NUM_LAYERS: usize = 10;

/// The layer that is set up at the given place: the light layer first, then
/// the layers of the stack from back to front, the smush layer last.
pub open spec fn layer_at(ix: int) -> LayerDefn {
    if ix == 0 {
        LightLayer::spec_defn()
    } else if ix == 1 {
        BgLayer::spec_defn()
    } else if ix == 2 {
        MainAmbienceLayer::spec_defn()
    } else if ix == 3 {
        MainDetailLayer::spec_defn()
    } else if ix == 4 {
        MainStaticLayer::spec_defn()
    } else if ix == 5 {
        FgLayer::spec_defn()
    } else if ix == 6 {
        OverlayLayer::spec_defn()
    } else if ix == 7 {
        MenuLayer::spec_defn()
    } else if ix == 8 {
        TransitionLayer::spec_defn()
    } else {
        SmushLayer::spec_defn()
    }
}

/// All the layers, in the order in which they are set up.
pub open spec fn all_layers_spec() -> Seq<LayerDefn> {
    Seq::new(NUM_LAYERS as nat, |ix: int| layer_at(ix))
}

/// Lists all the layers, in the order in which they are set up. Cameras of
/// equal render order draw in this order.
pub fn all_layers() -> (layers: Vec<LayerDefn>)
    ensures
        layers@ == all_layers_spec(),
{
    let mut layers: Vec<LayerDefn> = Vec::new();
    layers.push(LightLayer::defn());
    layers.push(BgLayer::defn());
    layers.push(MainAmbienceLayer::defn());
    layers.push(MainDetailLayer::defn());
    layers.push(MainStaticLayer::defn());
    layers.push(FgLayer::defn());
    layers.push(OverlayLayer::defn());
    layers.push(MenuLayer::defn());
    layers.push(TransitionLayer::defn());
    layers.push(SmushLayer::defn());
    layers
}

/// Plans every layer, in the order in which the layers are set up.
pub fn setup_all_layers(res: &LayersRes) -> (plans: Vec<LayerSetup>)
    requires
        res.wf(),
    ensures
        plans@.len() == NUM_LAYERS,
        forall|ix: int|
            0 <= ix < NUM_LAYERS ==> {
                &&& (#[trigger] plans@[ix]).camera == layer_at(ix).camera_spec(res)
                &&& plans@[ix].output == layer_at(ix).output_spec(res)
            },
{
    let layers = all_layers();
    let mut plans: Vec<LayerSetup> = Vec::new();
    let mut ix: usize = 0;
    while ix < layers.len()
        invariant
            res.wf(),
            layers@ == all_layers_spec(),
            ix <= layers@.len(),
            plans@.len() == ix,
            forall|done: int|
                0 <= done < ix ==> {
                    &&& (#[trigger] plans@[done]).camera == layer_at(done).camera_spec(res)
                    &&& plans@[done].output == layer_at(done).output_spec(res)
                },
        decreases layers@.len() - ix,
    {
        let plan = layers[ix].setup(res);
        plans.push(plan);
        ix += 1;
    }
    plans
}

/// Of two layers with an output quad, the one with the higher stacking
/// index has its quad further forward. The two quads are equally large and
/// both centred, so the one further forward covers the other all over.
pub proof fn lemma_quads_stack_by_zix(below: LayerDefn, above: LayerDefn, res: LayersRes)
    requires
        below.zix < above.zix,
        below.output_spec(&res) is Some,
        above.output_spec(&res) is Some,
    ensures
        below.output_spec(&res).unwrap().z < above.output_spec(&res).unwrap().z,
        below.output_spec(&res).unwrap().size == above.output_spec(&res).unwrap().size,
{
}

/// The layers as they are declared: keys count up from one and stacking
/// indices rise with them, no layer is drawn before one that is set up
/// earlier, and every layer but the first and the last has an output quad,
/// which lands on the smush layer within the depth that the smush layer's
/// camera keeps.
pub proof fn lemma_layers_in_order(res: LayersRes)
    ensures
        forall|ix: int|
            0 <= ix < NUM_LAYERS ==> {
                &&& (#[trigger] layer_at(ix)).key == ix + 1
                &&& layer_at(ix).zix == ix
            },
        forall|ix: int, jx: int|
            #![trigger layer_at(ix), layer_at(jx)]
            0 <= ix < jx < NUM_LAYERS ==> layer_at(ix).render_order <= layer_at(jx).render_order,
        forall|ix: int|
            0 <= ix < NUM_LAYERS ==> match #[trigger] layer_at(ix).output_spec(&res) {
                Some(quad) => {
                    &&& quad.render_layer == SMUSH_KEY
                    &&& ZIX_MIN < quad.z < ZIX_MAX
                },
                None => ix == 0 || ix == NUM_LAYERS - 1,
            },
{
}

} // verus!
