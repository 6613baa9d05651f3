//! The effects and transitions that the device knows by name.

use vstd::prelude::*;
use crate::text::same_text;

verus! {

/// The effects of the device.
#[derive(Debug, Clone, Copy, PartialEq, Eq, Structural)]
pub enum Effect {
    BrickBreaker,
    PingPong,
    Rainbow,
    ColorWaves,
    TheaterChase,
    Fireworks,
    Matrix,
    SwirlOut,
    SwirlIn,
    Pacifica,
    TwinkleFox,
    PlasmaCloud,
    LookingEyes,
    Ripple,
    Fire,
    HeartBeat,
    Fade,
    /// No effect; the device knows it as `None`.
    NoEffect,
}

/// The name under which the device knows each effect.
pub open spec fn effect_name(e: Effect) -> Seq<char> {
    match e {
        Effect::BrickBreaker => "BrickBreaker"@,
        Effect::PingPong => "PingPong"@,
        Effect::Rainbow => "Rainbow"@,
        Effect::ColorWaves => "ColorWaves"@,
        Effect::TheaterChase => "TheaterChase"@,
        Effect::Fireworks => "Fireworks"@,
        Effect::Matrix => "Matrix"@,
        Effect::SwirlOut => "SwirlOut"@,
        Effect::SwirlIn => "SwirlIn"@,
        Effect::Pacifica => "Pacifica"@,
        Effect::TwinkleFox => "TwinkleFox"@,
        Effect::PlasmaCloud => "PlasmaCloud"@,
        Effect::LookingEyes => "LookingEyes"@,
        Effect::Ripple => "Ripple"@,
        Effect::Fire => "Fire"@,
        Effect::HeartBeat => "HeartBeat"@,
        Effect::Fade => "Fade"@,
        Effect::NoEffect => "None"@,
    }
}

/// The effect that goes by `name`; a name that the device does not
/// know stands for none.
pub open spec fn effect_named(name: Seq<char>) -> Effect {
    if name == "BrickBreaker"@ {
        Effect::BrickBreaker
    } else if name == "PingPong"@ {
        Effect::PingPong
    } else if name == "Rainbow"@ {
        Effect::Rainbow
    } else if name == "ColorWaves"@ {
        Effect::ColorWaves
    } else if name == "TheaterChase"@ {
        Effect::TheaterChase
    } else if name == "Fireworks"@ {
        Effect::Fireworks
    } else if name == "Matrix"@ {
        Effect::Matrix
    } else if name == "SwirlOut"@ {
        Effect::SwirlOut
    } else if name == "SwirlIn"@ {
        Effect::SwirlIn
    } else if name == "Pacifica"@ {
        Effect::Pacifica
    } else if name == "TwinkleFox"@ {
        Effect::TwinkleFox
    } else if name == "PlasmaCloud"@ {
        Effect::PlasmaCloud
    } else if name == "LookingEyes"@ {
        Effect::LookingEyes
    } else if name == "Ripple"@ {
        Effect::Ripple
    } else if name == "Fire"@ {
        Effect::Fire
    } else if name == "HeartBeat"@ {
        Effect::HeartBeat
    } else if name == "Fade"@ {
        Effect::Fade
    } else {
        Effect::NoEffect
    }
}

impl Effect {
    /// The name under which the device knows the effect.
    pub fn as_str(&self) -> (name: &'static str)
        ensures
            name@ == effect_name(*self),
    {
        match self {
            Effect::BrickBreaker => "BrickBreaker",
            Effect::PingPong => "PingPong",
            Effect::Rainbow => "Rainbow",
            Effect::ColorWaves => "ColorWaves",
            Effect::TheaterChase => "TheaterChase",
            Effect::Fireworks => "Fireworks",
            Effect::Matrix => "Matrix",
            Effect::SwirlOut => "SwirlOut",
            Effect::SwirlIn => "SwirlIn",
            Effect::Pacifica => "Pacifica",
            Effect::TwinkleFox => "TwinkleFox",
            Effect::PlasmaCloud => "PlasmaCloud",
            Effect::LookingEyes => "LookingEyes",
            Effect::Ripple => "Ripple",
            Effect::Fire => "Fire",
            Effect::HeartBeat => "HeartBeat",
            Effect::Fade => "Fade",
            Effect::NoEffect => "None",
        }
    }
}

impl From<String> for Effect {
    fn from(name: String) -> (e: Effect) {
        let name = name.as_str();
        if same_text(name, "BrickBreaker") {
            Effect::BrickBreaker
        } else if same_text(name, "PingPong") {
            Effect::PingPong
        } else if same_text(name, "Rainbow") {
            Effect::Rainbow
        } else if same_text(name, "ColorWaves") {
            Effect::ColorWaves
        } else if same_text(name, "TheaterChase") {
            Effect::TheaterChase
        } else if same_text(name, "Fireworks") {
            Effect::Fireworks
        } else if same_text(name, "Matrix") {
            Effect::Matrix
        } else if same_text(name, "SwirlOut") {
            Effect::SwirlOut
        } else if same_text(name, "SwirlIn") {
            Effect::SwirlIn
        } else if same_text(name, "Pacifica") {
            Effect::Pacifica
        } else if same_text(name, "TwinkleFox") {
            Effect::TwinkleFox
        } else if same_text(name, "PlasmaCloud") {
            Effect::PlasmaCloud
        } else if same_text(name, "LookingEyes") {
            Effect::LookingEyes
        } else if same_text(name, "Ripple") {
            Effect::Ripple
        } else if same_text(name, "Fire") {
            Effect::Fire
        } else if same_text(name, "HeartBeat") {
            Effect::HeartBeat
        } else if same_text(name, "Fade") {
            Effect::Fade
        } else {
            Effect::NoEffect
        }
    }
}

impl vstd::std_specs::convert::FromSpecImpl<String> for Effect {
    open spec fn obeys_from_spec() -> bool {
        true
    }

    open spec fn from_spec(name: String) -> Effect {
        effect_named(name@)
    }
}

/// Each effect is found again under its own name.
pub proof fn lemma_effect_names(e: Effect)
    ensures
        effect_named(effect_name(e)) == e,
{
    reveal_strlit("BrickBreaker");
    reveal_strlit("PingPong");
    reveal_strlit("Rainbow");
    reveal_strlit("ColorWaves");
    reveal_strlit("TheaterChase");
    reveal_strlit("Fireworks");
    reveal_strlit("Matrix");
    reveal_strlit("SwirlOut");
    reveal_strlit("SwirlIn");
    reveal_strlit("Pacifica");
    reveal_strlit("TwinkleFox");
    reveal_strlit("PlasmaCloud");
    reveal_strlit("LookingEyes");
    reveal_strlit("Ripple");
    reveal_strlit("Fire");
    reveal_strlit("HeartBeat");
    reveal_strlit("Fade");
    reveal_strlit("None");
    assert("Fire"@.len() == 4 && "Fade"@.len() == 4 && "None"@.len() == 4);
    assert("Fire"@[1] == 'i' && "Fade"@[1] == 'a' && "None"@[1] == 'o');
    assert("Matrix"@.len() == 6 && "Ripple"@.len() == 6);
    assert("Matrix"@[0] == 'M' && "Ripple"@[0] == 'R');
    assert("Rainbow"@.len() == 7 && "SwirlIn"@.len() == 7);
    assert("Rainbow"@[0] == 'R' && "SwirlIn"@[0] == 'S');
    assert("PingPong"@.len() == 8 && "SwirlOut"@.len() == 8 && "Pacifica"@.len() == 8);
    assert("PingPong"@[0] == 'P' && "SwirlOut"@[0] == 'S' && "Pacifica"@[0] == 'P');
    assert("PingPong"@[1] == 'i' && "SwirlOut"@[1] == 'w' && "Pacifica"@[1] == 'a');
    assert("Fireworks"@.len() == 9 && "HeartBeat"@.len() == 9);
    assert("Fireworks"@[0] == 'F' && "HeartBeat"@[0] == 'H');
    assert("ColorWaves"@.len() == 10 && "TwinkleFox"@.len() == 10);
    assert("ColorWaves"@[0] == 'C' && "TwinkleFox"@[0] == 'T');
    assert("PlasmaCloud"@.len() == 11 && "LookingEyes"@.len() == 11);
    assert("PlasmaCloud"@[0] == 'P' && "LookingEyes"@[0] == 'L');
    assert("BrickBreaker"@.len() == 12 && "TheaterChase"@.len() == 12);
    assert("BrickBreaker"@[0] == 'B' && "TheaterChase"@[0] == 'T');
}

/// The transitions between apps.
#[derive(Debug, Clone, Copy, PartialEq, Eq, Structural)]
pub enum Transition {
    Slide,
    Dim,
    Zoom,
    Rotate,
    Pixelize,
    Curtain,
    Ripple,
    Blink,
    Reload,
    Fade,
    /// No transition; the device knows it as `None`.
    NoTransition,
}

/// The name under which the device knows each transition.
pub open spec fn transition_name(e: Transition) -> Seq<char> {
    match e {
        Transition::Slide => "Slide"@,
        Transition::Dim => "Dim"@,
        Transition::Zoom => "Zoom"@,
        Transition::Rotate => "Rotate"@,
        Transition::Pixelize => "Pixelize"@,
        Transition::Curtain => "Curtain"@,
        Transition::Ripple => "Ripple"@,
        Transition::Blink => "Blink"@,
        Transition::Reload => "Reload"@,
        Transition::Fade => "Fade"@,
        Transition::NoTransition => "None"@,
    }
}

/// The transition that goes by `name`; a name that the device does not
/// know stands for none.
pub open spec fn transition_named(name: Seq<char>) -> Transition {
    if name == "Slide"@ {
        Transition::Slide
    } else if name == "Dim"@ {
        Transition::Dim
    } else if name == "Zoom"@ {
        Transition::Zoom
    } else if name == "Rotate"@ {
        Transition::Rotate
    } else if name == "Pixelize"@ {
        Transition::Pixelize
    } else if name == "Curtain"@ {
        Transition::Curtain
    } else if name == "Ripple"@ {
        Transition::Ripple
    } else if name == "Blink"@ {
        Transition::Blink
    } else if name == "Reload"@ {
        Transition::Reload
    } else if name == "Fade"@ {
        Transition::Fade
    } else {
        Transition::NoTransition
    }
}

impl Transition {
    /// The name under which the device knows the transition.
    pub fn as_str(&self) -> (name: &'static str)
        ensures
            name@ == transition_name(*self),
    {
        match self {
            Transition::Slide => "Slide",
            Transition::Dim => "Dim",
            Transition::Zoom => "Zoom",
            Transition::Rotate => "Rotate",
            Transition::Pixelize => "Pixelize",
            Transition::Curtain => "Curtain",
            Transition::Ripple => "Ripple",
            Transition::Blink => "Blink",
            Transition::Reload => "Reload",
            Transition::Fade => "Fade",
            Transition::NoTransition => "None",
        }
    }
}

impl From<String> for Transition {
    fn from(name: String) -> (e: Transition) {
        let name = name.as_str();
        if same_text(name, "Slide") {
            Transition::Slide
        } else if same_text(name, "Dim") {
            Transition::Dim
        } else if same_text(name, "Zoom") {
            Transition::Zoom
        } else if same_text(name, "Rotate") {
            Transition::Rotate
        } else if same_text(name, "Pixelize") {
            Transition::Pixelize
        } else if same_text(name, "Curtain") {
            Transition::Curtain
        } else if same_text(name, "Ripple") {
            Transition::Ripple
        } else if same_text(name, "Blink") {
            Transition::Blink
        } else if same_text(name, "Reload") {
            Transition::Reload
        } else if same_text(name, "Fade") {
            Transition::Fade
        } else {
            Transition::NoTransition
        }
    }
}

impl vstd::std_specs::convert::FromSpecImpl<String> for Transition {
    open spec fn obeys_from_spec() -> bool {
        true
    }

    open spec fn from_spec(name: String) -> Transition {
        transition_named(name@)
    }
}

/// Each transition is found again under its own name.
pub proof fn lemma_transition_names(e: Transition)
    ensures
        transition_named(transition_name(e)) == e,
{
    reveal_strlit("Slide");
    reveal_strlit("Dim");
    reveal_strlit("Zoom");
    reveal_strlit("Rotate");
    reveal_strlit("Pixelize");
    reveal_strlit("Curtain");
    reveal_strlit("Ripple");
    reveal_strlit("Blink");
    reveal_strlit("Reload");
    reveal_strlit("Fade");
    reveal_strlit("None");
    assert("Dim"@.len() == 3);
    assert("Zoom"@.len() == 4 && "Fade"@.len() == 4 && "None"@.len() == 4);
    assert("Zoom"@[0] == 'Z' && "Fade"@[0] == 'F' && "None"@[0] == 'N');
    assert("Slide"@.len() == 5 && "Blink"@.len() == 5);
    assert("Slide"@[0] == 'S' && "Blink"@[0] == 'B');
    assert("Rotate"@.len() == 6 && "Ripple"@.len() == 6 && "Reload"@.len() == 6);
    assert("Rotate"@[1] == 'o' && "Ripple"@[1] == 'i' && "Reload"@[1] == 'e');
    assert("Curtain"@.len() == 7);
    assert("Pixelize"@.len() == 8);
}

} // verus!
