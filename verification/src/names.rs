//! The words under which the closed sets of the catalogue are stored.
//!
//! Each set has one word for each of its members. A word that names no
//! member is answered with `None`: it is never read as some default member.

use vstd::prelude::*;
use crate::catalog::GpuClass;
use crate::pricing::DepreciationCurve;

verus! {

/// Whether two texts are made of the same characters.
pub fn same_text(left: &str, right: &str) -> (same: bool)
    ensures
        same == (left@ == right@),
{
    left.to_owned() == right.to_owned()
}

/// The word for an accelerator.
pub open spec fn gpu_class_word(class: GpuClass) -> Seq<char> {
    match class {
        GpuClass::NoGpu => "None"@,
        GpuClass::L4 => "L4"@,
        GpuClass::A100_40G => "A100_40G"@,
        GpuClass::A100_80G => "A100_80G"@,
        GpuClass::H100_80G => "H100_80G"@,
        GpuClass::RTX_4090 => "RTX_4090"@,
        GpuClass::RTX_5090 => "RTX_5090"@,
        GpuClass::Radeon_8060S => "Radeon_8060S"@,
    }
}

/// The accelerator that a word names, if it names one.
pub open spec fn gpu_class_named(word: Seq<char>) -> Option<GpuClass> {
    if word == "None"@ {
        Some(GpuClass::NoGpu)
    } else if word == "L4"@ {
        Some(GpuClass::L4)
    } else if word == "A100_40G"@ {
        Some(GpuClass::A100_40G)
    } else if word == "A100_80G"@ {
        Some(GpuClass::A100_80G)
    } else if word == "H100_80G"@ {
        Some(GpuClass::H100_80G)
    } else if word == "RTX_4090"@ {
        Some(GpuClass::RTX_4090)
    } else if word == "RTX_5090"@ {
        Some(GpuClass::RTX_5090)
    } else if word == "Radeon_8060S"@ {
        Some(GpuClass::Radeon_8060S)
    } else {
        None
    }
}

/// The word for a curve.
pub open spec fn curve_word(curve: DepreciationCurve) -> Seq<char> {
    match curve {
        DepreciationCurve::Linear => "linear"@,
        DepreciationCurve::Exponential => "exponential"@,
        DepreciationCurve::Stepped => "stepped"@,
    }
}

/// The curve that a word names, if it names one.
pub open spec fn curve_named(word: Seq<char>) -> Option<DepreciationCurve> {
    if word == "linear"@ {
        Some(DepreciationCurve::Linear)
    } else if word == "exponential"@ {
        Some(DepreciationCurve::Exponential)
    } else if word == "stepped"@ {
        Some(DepreciationCurve::Stepped)
    } else {
        None
    }
}

impl GpuClass {
    /// The word under which the accelerator is stored.
    pub fn word(&self) -> (word: &'static str)
        ensures
            word@ == gpu_class_word(*self),
    {
        match self {
            GpuClass::NoGpu => "None",
            GpuClass::L4 => "L4",
            GpuClass::A100_40G => "A100_40G",
            GpuClass::A100_80G => "A100_80G",
            GpuClass::H100_80G => "H100_80G",
            GpuClass::RTX_4090 => "RTX_4090",
            GpuClass::RTX_5090 => "RTX_5090",
            GpuClass::Radeon_8060S => "Radeon_8060S",
        }
    }

    /// The accelerator that `word` names, if it names one.
    pub fn named(word: &str) -> (class: Option<GpuClass>)
        ensures
            class == gpu_class_named(word@),
    {
        if same_text(word, "None") {
            Some(GpuClass::NoGpu)
        } else if same_text(word, "L4") {
            Some(GpuClass::L4)
        } else if same_text(word, "A100_40G") {
            Some(GpuClass::A100_40G)
        } else if same_text(word, "A100_80G") {
            Some(GpuClass::A100_80G)
        } else if same_text(word, "H100_80G") {
            Some(GpuClass::H100_80G)
        } else if same_text(word, "RTX_4090") {
            Some(GpuClass::RTX_4090)
        } else if same_text(word, "RTX_5090") {
            Some(GpuClass::RTX_5090)
        } else if same_text(word, "Radeon_8060S") {
            Some(GpuClass::Radeon_8060S)
        } else {
            None
        }
    }
}

impl DepreciationCurve {
    /// The word under which the curve is stored.
    pub fn word(&self) -> (word: &'static str)
        ensures
            word@ == curve_word(*self),
    {
        match self {
            DepreciationCurve::Linear => "linear",
            DepreciationCurve::Exponential => "exponential",
            DepreciationCurve::Stepped => "stepped",
        }
    }

    /// The curve that `word` names, if it names one.
    pub fn named(word: &str) -> (curve: Option<DepreciationCurve>)
        ensures
            curve == curve_named(word@),
    {
        if same_text(word, "linear") {
            Some(DepreciationCurve::Linear)
        } else if same_text(word, "exponential") {
            Some(DepreciationCurve::Exponential)
        } else if same_text(word, "stepped") {
            Some(DepreciationCurve::Stepped)
        } else {
            None
        }
    }
}

/// The words of the accelerators differ from one another.
proof fn lemma_gpu_class_words_differ()
    ensures
        "None"@.len() == 4,
        "L4"@.len() == 2,
        "A100_40G"@.len() == 8 && "A100_40G"@[5] == '4' && "A100_40G"@[0] == 'A',
        "A100_80G"@.len() == 8 && "A100_80G"@[5] == '8' && "A100_80G"@[0] == 'A',
        "H100_80G"@.len() == 8 && "H100_80G"@[0] == 'H',
        "RTX_4090"@.len() == 8 && "RTX_4090"@[0] == 'R' && "RTX_4090"@[4] == '4',
        "RTX_5090"@.len() == 8 && "RTX_5090"@[0] == 'R' && "RTX_5090"@[4] == '5',
        "Radeon_8060S"@.len() == 12,
{
    reveal_strlit("None");
    reveal_strlit("L4");
    reveal_strlit("A100_40G");
    reveal_strlit("A100_80G");
    reveal_strlit("H100_80G");
    reveal_strlit("RTX_4090");
    reveal_strlit("RTX_5090");
    reveal_strlit("Radeon_8060S");
}

/// Each accelerator is read back from its own word, and from no other.
pub proof fn law_gpu_class_word_round_trip(class: GpuClass, word: Seq<char>)
    ensures
        gpu_class_named(gpu_class_word(class)) == Some(class),
        gpu_class_named(word) == Some(class) <==> word == gpu_class_word(class),
{
    lemma_gpu_class_words_differ();
}

/// Each curve is read back from its own word, and from no other.
pub proof fn law_curve_word_round_trip(curve: DepreciationCurve, word: Seq<char>)
    ensures
        curve_named(curve_word(curve)) == Some(curve),
        curve_named(word) == Some(curve) <==> word == curve_word(curve),
{
    reveal_strlit("linear");
    reveal_strlit("exponential");
    reveal_strlit("stepped");
    assert("linear"@.len() == 6);
    assert("exponential"@.len() == 11);
    assert("stepped"@.len() == 7);
}

} // verus!
