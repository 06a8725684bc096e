//! The layers themselves, back to front.

use vstd::prelude::*;

use super::{Layer, LayerDefn, LayerOutputMode, LayerPositionMode};
use crate::color::LinearColor;

verus! {

pub const LIGHT_KEY: u32 = 1;

pub const BG_KEY: u32 = 2;

pub const MAIN_AMBIENCE_KEY: u32 = 3;

pub const MAIN_DETAIL_KEY: u32 = 4;

pub const MAIN_STATIC_LAYER: u32 = 5;

pub const FG_KEY: u32 = 6;

pub const OVERLAY_KEY: u32 = 7;

pub const MENU_KEY: u32 = 8;

pub const TRANSITION_KEY: u32 = 9;

pub const SMUSH_KEY: u32 = 10;

/// This is when all the light sources must render + cutout
pub const PRE_LIGHT_RENDER_ORDER: u32 = 1;

/// This is when light renders
pub const LIGHT_RENDER_ORDER: u32 = 2;

/// This is everything that depends on light
pub const POST_LIGHT_RENDER_ORDER: u32 = 3;

/// This is stuff that is smushing together multiple layers, happens last
pub const SMUSH_RENDER_ORDER: u32 = 4;

/// Where every light's cutout is gathered. It is read by the lit layers and
/// has no output quad of its own.
#[derive(Debug, Default)]
pub struct LightLayer;

impl Layer for LightLayer {
    open spec fn spec_defn() -> LayerDefn {
        LayerDefn {
            name: "LightLayer",
            key: LIGHT_KEY,
            render_order: LIGHT_RENDER_ORDER,
            is_overlay: false,
            zix: 0,
            position_mode: LayerPositionMode::Follow,
            output_mode: LayerOutputMode::Discarded,
            clear_color: LinearColor { red: 0, green: 0, blue: 0, alpha: 0 },
        }
    }

    fn defn() -> (defn: LayerDefn) {
        LayerDefn {
            name: "LightLayer",
            key: LIGHT_KEY,
            render_order: LIGHT_RENDER_ORDER,
            is_overlay: false,
            zix: 0,
            position_mode: LayerPositionMode::Follow,
            output_mode: LayerOutputMode::Discarded,
            clear_color: crate::consts::color_none(),
        }
    }
}

/// The backdrop, drawn unlit and fixed to the screen so that parallax is
/// easy.
#[derive(Debug, Default)]
pub struct BgLayer;

impl Layer for BgLayer {
    open spec fn spec_defn() -> LayerDefn {
        LayerDefn {
            name: "BgLayer",
            key: BG_KEY,
            render_order: POST_LIGHT_RENDER_ORDER,
            is_overlay: false,
            zix: 1,
            position_mode: LayerPositionMode::Fixed,
            output_mode: LayerOutputMode::Unlit { output_rl: SMUSH_KEY as usize },
            clear_color: LinearColor { red: 0, green: 0, blue: 0, alpha: 1000 },
        }
    }

    fn defn() -> (defn: LayerDefn) {
        LayerDefn {
            name: "BgLayer",
            key: BG_KEY,
            render_order: POST_LIGHT_RENDER_ORDER,
            is_overlay: false,
            zix: 1,
            position_mode: LayerPositionMode::Fixed,
            output_mode: LayerOutputMode::Unlit { output_rl: SMUSH_KEY as usize },
            clear_color: LinearColor::black(),
        }
    }
}

/// Ambient parts of the world, lit, with a warm tint where no light falls.
#[derive(Debug, Default)]
pub struct MainAmbienceLayer;

impl Layer for MainAmbienceLayer {
    open spec fn spec_defn() -> LayerDefn {
        LayerDefn {
            name: "MainAmbienceLayer",
            key: MAIN_AMBIENCE_KEY,
            render_order: POST_LIGHT_RENDER_ORDER,
            is_overlay: false,
            zix: 2,
            position_mode: LayerPositionMode::Follow,
            output_mode: LayerOutputMode::Lit {
                base_color: LinearColor { red: 500, green: 500, blue: 200, alpha: 1000 },
                output_rl: SMUSH_KEY as usize,
            },
            clear_color: LinearColor { red: 0, green: 0, blue: 0, alpha: 0 },
        }
    }

    fn defn() -> (defn: LayerDefn) {
        LayerDefn {
            name: "MainAmbienceLayer",
            key: MAIN_AMBIENCE_KEY,
            render_order: POST_LIGHT_RENDER_ORDER,
            is_overlay: false,
            zix: 2,
            position_mode: LayerPositionMode::Follow,
            output_mode: LayerOutputMode::Lit {
                base_color: LinearColor::linear_rgb(500, 500, 200),
                output_rl: SMUSH_KEY as usize,
            },
            clear_color: crate::consts::color_none(),
        }
    }
}

/// Details of the world, lit, and dim where no light falls.
#[derive(Debug, Default)]
pub struct MainDetailLayer;

impl Layer for MainDetailLayer {
    open spec fn spec_defn() -> LayerDefn {
        LayerDefn {
            name: "MainDetailLayer",
            key: MAIN_DETAIL_KEY,
            render_order: POST_LIGHT_RENDER_ORDER,
            is_overlay: false,
            zix: 3,
            position_mode: LayerPositionMode::Follow,
            output_mode: LayerOutputMode::Lit {
                base_color: LinearColor { red: 200, green: 200, blue: 200, alpha: 1000 },
                output_rl: SMUSH_KEY as usize,
            },
            clear_color: LinearColor { red: 0, green: 0, blue: 0, alpha: 0 },
        }
    }

    fn defn() -> (defn: LayerDefn) {
        LayerDefn {
            name: "MainDetailLayer",
            key: MAIN_DETAIL_KEY,
            render_order: POST_LIGHT_RENDER_ORDER,
            is_overlay: false,
            zix: 3,
            position_mode: LayerPositionMode::Follow,
            output_mode: LayerOutputMode::Lit {
                base_color: LinearColor::linear_rgb(200, 200, 200),
                output_rl: SMUSH_KEY as usize,
            },
            clear_color: crate::consts::color_none(),
        }
    }
}

/// The solid parts of the world, drawn unlit.
#[derive(Debug, Default)]
pub struct MainStaticLayer;

impl Layer for MainStaticLayer {
    open spec fn spec_defn() -> LayerDefn {
        LayerDefn {
            name: "MainStaticLayer",
            key: MAIN_STATIC_LAYER,
            render_order: POST_LIGHT_RENDER_ORDER,
            is_overlay: false,
            zix: 4,
            position_mode: LayerPositionMode::Follow,
            output_mode: LayerOutputMode::Unlit { output_rl: SMUSH_KEY as usize },
            clear_color: LinearColor { red: 0, green: 0, blue: 0, alpha: 0 },
        }
    }

    fn defn() -> (defn: LayerDefn) {
        LayerDefn {
            name: "MainStaticLayer",
            key: MAIN_STATIC_LAYER,
            render_order: POST_LIGHT_RENDER_ORDER,
            is_overlay: false,
            zix: 4,
            position_mode: LayerPositionMode::Follow,
            output_mode: LayerOutputMode::Unlit { output_rl: SMUSH_KEY as usize },
            clear_color: crate::consts::color_none(),
        }
    }
}

/// What passes in front of the world, fixed to the screen.
#[derive(Debug, Default)]
pub struct FgLayer;

impl Layer for FgLayer {
    open spec fn spec_defn() -> LayerDefn {
        LayerDefn {
            name: "FgLayer",
            key: FG_KEY,
            render_order: POST_LIGHT_RENDER_ORDER,
            is_overlay: false,
            zix: 5,
            position_mode: LayerPositionMode::Fixed,
            output_mode: LayerOutputMode::Unlit { output_rl: SMUSH_KEY as usize },
            clear_color: LinearColor { red: 0, green: 0, blue: 0, alpha: 0 },
        }
    }

    fn defn() -> (defn: LayerDefn) {
        LayerDefn {
            name: "FgLayer",
            key: FG_KEY,
            render_order: POST_LIGHT_RENDER_ORDER,
            is_overlay: false,
            zix: 5,
            position_mode: LayerPositionMode::Fixed,
            output_mode: LayerOutputMode::Unlit { output_rl: SMUSH_KEY as usize },
            clear_color: crate::consts::color_none(),
        }
    }
}

/// Heads-up elements, at the finer overlay resolution.
#[derive(Debug, Default)]
pub struct OverlayLayer;

impl Layer for OverlayLayer {
    open spec fn spec_defn() -> LayerDefn {
        LayerDefn {
            name: "OverlayLayer",
            key: OVERLAY_KEY,
            render_order: POST_LIGHT_RENDER_ORDER,
            is_overlay: true,
            zix: 6,
            position_mode: LayerPositionMode::Fixed,
            output_mode: LayerOutputMode::Unlit { output_rl: SMUSH_KEY as usize },
            clear_color: LinearColor { red: 0, green: 0, blue: 0, alpha: 0 },
        }
    }

    fn defn() -> (defn: LayerDefn) {
        LayerDefn {
            name: "OverlayLayer",
            key: OVERLAY_KEY,
            render_order: POST_LIGHT_RENDER_ORDER,
            is_overlay: true,
            zix: 6,
            position_mode: LayerPositionMode::Fixed,
            output_mode: LayerOutputMode::Unlit { output_rl: SMUSH_KEY as usize },
            clear_color: crate::consts::color_none(),
        }
    }
}

/// Menus, at the finer overlay resolution.
#[derive(Debug, Default)]
pub struct MenuLayer;

impl Layer for MenuLayer {
    open spec fn spec_defn() -> LayerDefn {
        LayerDefn {
            name: "MenuLayer",
            key: MENU_KEY,
            render_order: POST_LIGHT_RENDER_ORDER,
            is_overlay: true,
            zix: 7,
            position_mode: LayerPositionMode::Fixed,
            output_mode: LayerOutputMode::Unlit { output_rl: SMUSH_KEY as usize },
            clear_color: LinearColor { red: 0, green: 0, blue: 0, alpha: 0 },
        }
    }

    fn defn() -> (defn: LayerDefn) {
        LayerDefn {
            name: "MenuLayer",
            key: MENU_KEY,
            render_order: POST_LIGHT_RENDER_ORDER,
            is_overlay: true,
            zix: 7,
            position_mode: LayerPositionMode::Fixed,
            output_mode: LayerOutputMode::Unlit { output_rl: SMUSH_KEY as usize },
            clear_color: crate::consts::color_none(),
        }
    }
}

/// Screen transitions, in front of everything else.
#[derive(Debug, Default)]
pub struct TransitionLayer;

impl Layer for TransitionLayer {
    open spec fn spec_defn() -> LayerDefn {
        LayerDefn {
            name: "TransitionLayer",
            key: TRANSITION_KEY,
            render_order: POST_LIGHT_RENDER_ORDER,
            is_overlay: true,
            zix: 8,
            position_mode: LayerPositionMode::Fixed,
            output_mode: LayerOutputMode::Unlit { output_rl: SMUSH_KEY as usize },
            clear_color: LinearColor { red: 0, green: 0, blue: 0, alpha: 0 },
        }
    }

    fn defn() -> (defn: LayerDefn) {
        LayerDefn {
            name: "TransitionLayer",
            key: TRANSITION_KEY,
            render_order: POST_LIGHT_RENDER_ORDER,
            is_overlay: true,
            zix: 8,
            position_mode: LayerPositionMode::Fixed,
            output_mode: LayerOutputMode::Unlit { output_rl: SMUSH_KEY as usize },
            clear_color: crate::consts::color_none(),
        }
    }
}

/// The last layer, on which the output quads of all the others are
/// stacked. Its white clear colour never shows unless a quad is missing.
#[derive(Debug, Default)]
pub struct SmushLayer;

impl Layer for SmushLayer {
    open spec fn spec_defn() -> LayerDefn {
        LayerDefn {
            name: "SmushLayer",
            key: SMUSH_KEY,
            render_order: SMUSH_RENDER_ORDER,
            is_overlay: true,
            zix: 9,
            position_mode: LayerPositionMode::Fixed,
            output_mode: LayerOutputMode::Discarded,
            clear_color: LinearColor { red: 1000, green: 1000, blue: 1000, alpha: 1000 },
        }
    }

    fn defn() -> (defn: LayerDefn) {
        LayerDefn {
            name: "SmushLayer",
            key: SMUSH_KEY,
            render_order: SMUSH_RENDER_ORDER,
            is_overlay: true,
            zix: 9,
            position_mode: LayerPositionMode::Fixed,
            output_mode: LayerOutputMode::Discarded,
            clear_color: LinearColor::white(),
        }
    }
}

} // verus!
