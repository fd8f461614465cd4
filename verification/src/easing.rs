//! Easing curves by name. Sampling a curve is floating-point work and
//! stays with the engine; naming one is decided here.
use vstd::prelude::*;

use crate::text::{concat, strings_equal};

verus! {

/// An easing curve. A cubic Bézier curve keeps its control points as the
/// bits of their `f64` values.
#[derive(Clone, Copy, Debug, PartialEq, Eq, Structural)]
pub enum Easing {
    Linear,
    Ease,
    SmoothStep,
    EaseIn,
    EaseOut,
    EaseInOut,
    EaseOutSine,
    EaseInOutSine,
    Bounce,
    EaseOutBack,
    Spring,
    EaseInQuad,
    EaseOutQuad,
    EaseInOutQuad,
    EaseInCubic,
    EaseOutCubic,
    EaseInOutCubic,
    EaseInQuart,
    EaseOutQuart,
    EaseInOutQuart,
    EaseInQuint,
    EaseOutQuint,
    EaseInOutQuint,
    EaseInSine,
    EaseInExpo,
    EaseOutExpo,
    EaseInOutExpo,
    EaseInCirc,
    EaseOutCirc,
    EaseInOutCirc,
    EaseInBounce,
    EaseOutBounce,
    EaseInOutBounce,
    EaseInBack,
    EaseInOutBack,
    EaseInElastic,
    EaseOutElastic,
    EaseInOutElastic,
    CubicBezier(u64, u64, u64, u64),
}

/// The curve a name stands for; several curves have a second, snake-case name.
pub open spec fn easing_named(name: Seq<char>) -> Option<Easing> {
    if name == ""@ || name == "linear"@ {
        Some(Easing::Linear)
    } else if name == "ease"@ {
        Some(Easing::Ease)
    } else if name == "smoothStep"@ {
        Some(Easing::SmoothStep)
    } else if name == "easeIn"@ || name == "ease_in"@ {
        Some(Easing::EaseIn)
    } else if name == "easeOut"@ || name == "ease_out"@ {
        Some(Easing::EaseOut)
    } else if name == "easeInOut"@ || name == "ease_in_out"@ {
        Some(Easing::EaseInOut)
    } else if name == "easeOutSine"@ {
        Some(Easing::EaseOutSine)
    } else if name == "easeInOutSine"@ {
        Some(Easing::EaseInOutSine)
    } else if name == "bounce"@ {
        Some(Easing::Bounce)
    } else if name == "easeOutBack"@ {
        Some(Easing::EaseOutBack)
    } else if name == "spring"@ {
        Some(Easing::Spring)
    } else if name == "easeInQuad"@ {
        Some(Easing::EaseInQuad)
    } else if name == "easeOutQuad"@ {
        Some(Easing::EaseOutQuad)
    } else if name == "easeInOutQuad"@ {
        Some(Easing::EaseInOutQuad)
    } else if name == "easeInCubic"@ {
        Some(Easing::EaseInCubic)
    } else if name == "easeOutCubic"@ {
        Some(Easing::EaseOutCubic)
    } else if name == "easeInOutCubic"@ {
        Some(Easing::EaseInOutCubic)
    } else if name == "easeInQuart"@ {
        Some(Easing::EaseInQuart)
    } else if name == "easeOutQuart"@ {
        Some(Easing::EaseOutQuart)
    } else if name == "easeInOutQuart"@ {
        Some(Easing::EaseInOutQuart)
    } else if name == "easeInQuint"@ {
        Some(Easing::EaseInQuint)
    } else if name == "easeOutQuint"@ {
        Some(Easing::EaseOutQuint)
    } else if name == "easeInOutQuint"@ {
        Some(Easing::EaseInOutQuint)
    } else if name == "easeInSine"@ {
        Some(Easing::EaseInSine)
    } else if name == "easeInExpo"@ {
        Some(Easing::EaseInExpo)
    } else if name == "easeOutExpo"@ {
        Some(Easing::EaseOutExpo)
    } else if name == "easeInOutExpo"@ {
        Some(Easing::EaseInOutExpo)
    } else if name == "easeInCirc"@ {
        Some(Easing::EaseInCirc)
    } else if name == "easeOutCirc"@ {
        Some(Easing::EaseOutCirc)
    } else if name == "easeInOutCirc"@ {
        Some(Easing::EaseInOutCirc)
    } else if name == "easeInBounce"@ {
        Some(Easing::EaseInBounce)
    } else if name == "easeOutBounce"@ {
        Some(Easing::EaseOutBounce)
    } else if name == "easeInOutBounce"@ {
        Some(Easing::EaseInOutBounce)
    } else if name == "easeInBack"@ {
        Some(Easing::EaseInBack)
    } else if name == "easeInOutBack"@ {
        Some(Easing::EaseInOutBack)
    } else if name == "easeInElastic"@ {
        Some(Easing::EaseInElastic)
    } else if name == "easeOutElastic"@ {
        Some(Easing::EaseOutElastic)
    } else if name == "easeInOutElastic"@ {
        Some(Easing::EaseInOutElastic)
    } else {
        None
    }
}

impl Easing {
    /// The curve a name stands for.
    pub fn named(name: &str) -> (r: Result<Easing, String>)
        ensures
            easing_named(name@) matches Some(e) ==> r == Ok::<Easing, String>(e),
            easing_named(name@) is None ==> r is Err && r->Err_0@ == "unknown easing `"@ + name@
                + "`"@,
    {
        if strings_equal(name, "") || strings_equal(name, "linear") {
            Ok(Easing::Linear)
        } else if strings_equal(name, "ease") {
            Ok(Easing::Ease)
        } else if strings_equal(name, "smoothStep") {
            Ok(Easing::SmoothStep)
        } else if strings_equal(name, "easeIn") || strings_equal(name, "ease_in") {
            Ok(Easing::EaseIn)
        } else if strings_equal(name, "easeOut") || strings_equal(name, "ease_out") {
            Ok(Easing::EaseOut)
        } else if strings_equal(name, "easeInOut") || strings_equal(name, "ease_in_out") {
            Ok(Easing::EaseInOut)
        } else if strings_equal(name, "easeOutSine") {
            Ok(Easing::EaseOutSine)
        } else if strings_equal(name, "easeInOutSine") {
            Ok(Easing::EaseInOutSine)
        } else if strings_equal(name, "bounce") {
            Ok(Easing::Bounce)
        } else if strings_equal(name, "easeOutBack") {
            Ok(Easing::EaseOutBack)
        } else if strings_equal(name, "spring") {
            Ok(Easing::Spring)
        } else if strings_equal(name, "easeInQuad") {
            Ok(Easing::EaseInQuad)
        } else if strings_equal(name, "easeOutQuad") {
            Ok(Easing::EaseOutQuad)
        } else if strings_equal(name, "easeInOutQuad") {
            Ok(Easing::EaseInOutQuad)
        } else if strings_equal(name, "easeInCubic") {
            Ok(Easing::EaseInCubic)
        } else if strings_equal(name, "easeOutCubic") {
            Ok(Easing::EaseOutCubic)
        } else if strings_equal(name, "easeInOutCubic") {
            Ok(Easing::EaseInOutCubic)
        } else if strings_equal(name, "easeInQuart") {
            Ok(Easing::EaseInQuart)
        } else if strings_equal(name, "easeOutQuart") {
            Ok(Easing::EaseOutQuart)
        } else if strings_equal(name, "easeInOutQuart") {
            Ok(Easing::EaseInOutQuart)
        } else if strings_equal(name, "easeInQuint") {
            Ok(Easing::EaseInQuint)
        } else if strings_equal(name, "easeOutQuint") {
            Ok(Easing::EaseOutQuint)
        } else if strings_equal(name, "easeInOutQuint") {
            Ok(Easing::EaseInOutQuint)
        } else if strings_equal(name, "easeInSine") {
            Ok(Easing::EaseInSine)
        } else if strings_equal(name, "easeInExpo") {
            Ok(Easing::EaseInExpo)
        } else if strings_equal(name, "easeOutExpo") {
            Ok(Easing::EaseOutExpo)
        } else if strings_equal(name, "easeInOutExpo") {
            Ok(Easing::EaseInOutExpo)
        } else if strings_equal(name, "easeInCirc") {
            Ok(Easing::EaseInCirc)
        } else if strings_equal(name, "easeOutCirc") {
            Ok(Easing::EaseOutCirc)
        } else if strings_equal(name, "easeInOutCirc") {
            Ok(Easing::EaseInOutCirc)
        } else if strings_equal(name, "easeInBounce") {
            Ok(Easing::EaseInBounce)
        } else if strings_equal(name, "easeOutBounce") {
            Ok(Easing::EaseOutBounce)
        } else if strings_equal(name, "easeInOutBounce") {
            Ok(Easing::EaseInOutBounce)
        } else if strings_equal(name, "easeInBack") {
            Ok(Easing::EaseInBack)
        } else if strings_equal(name, "easeInOutBack") {
            Ok(Easing::EaseInOutBack)
        } else if strings_equal(name, "easeInElastic") {
            Ok(Easing::EaseInElastic)
        } else if strings_equal(name, "easeOutElastic") {
            Ok(Easing::EaseOutElastic)
        } else if strings_equal(name, "easeInOutElastic") {
            Ok(Easing::EaseInOutElastic)
        } else {
            let a = concat("unknown easing `", name);
            Err(concat(a.as_str(), "`"))
        }
    }
}

} // verus!
