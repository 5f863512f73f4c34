use qapish::catalog::GpuClass;
use qapish::names::same_text;
use qapish::pricing::DepreciationCurve;

const CLASSES: [(GpuClass, &str); 8] = [
    (GpuClass::NoGpu, "None"),
    (GpuClass::L4, "L4"),
    (GpuClass::A100_40G, "A100_40G"),
    (GpuClass::A100_80G, "A100_80G"),
    (GpuClass::H100_80G, "H100_80G"),
    (GpuClass::RTX_4090, "RTX_4090"),
    (GpuClass::RTX_5090, "RTX_5090"),
    (GpuClass::Radeon_8060S, "Radeon_8060S"),
];

#[test]
fn gpu_class_words_are_read_back() {
    for (class, word) in CLASSES {
        assert_eq!(class.word(), word);
        assert_eq!(GpuClass::named(word), Some(class));
        assert_eq!(GpuClass::named(class.word()), Some(class));
    }
}

#[test]
fn unknown_gpu_class_word_names_nothing() {
    for word in ["", "none", "l4", "A100", "RTX_4090 ", "RTX 4090", "H100_80G\n", "Radeon"] {
        assert_eq!(GpuClass::named(word), None, "{:?}", word);
    }
}

#[test]
fn curve_words_are_read_back() {
    let curves = [
        (DepreciationCurve::Linear, "linear"),
        (DepreciationCurve::Exponential, "exponential"),
        (DepreciationCurve::Stepped, "stepped"),
    ];
    for (curve, word) in curves {
        assert_eq!(curve.word(), word);
        assert_eq!(DepreciationCurve::named(word), Some(curve));
    }
}

#[test]
fn unknown_curve_word_names_nothing() {
    for word in ["", "Linear", "LINEAR", "step", "stepped ", "exp"] {
        assert_eq!(DepreciationCurve::named(word), None, "{:?}", word);
    }
}

#[test]
fn texts_are_compared_by_their_characters() {
    assert!(same_text("", ""));
    assert!(same_text("stepped", "stepped"));
    assert!(!same_text("stepped", "Stepped"));
    assert!(!same_text("stepped", "steppe"));
    assert!(same_text("é", "\u{e9}"));
}
