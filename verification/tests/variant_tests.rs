use fractals::Fractals;

fn mandelbrot(max_iterations: u32, escape_radius: f64) -> Fractals {
    Fractals::Mandelbrot {
        max_iterations,
        escape_radius: escape_radius.to_bits(),
        colour_gradient: String::from("Sinebow"),
    }
}

fn julia(max_iterations: u32, escape_radius: f64) -> Fractals {
    Fractals::Julia {
        max_iterations,
        escape_radius: escape_radius.to_bits(),
        c_re: (-0.7f64).to_bits(),
        c_im: (0.27015f64).to_bits(),
        colour_gradient: String::from("Magma"),
    }
}

#[test]
fn default_variants_are_well_formed() {
    assert!(mandelbrot(100, 2.0).is_well_formed());
    assert!(julia(100, 2.0).is_well_formed());
    assert!(
        Fractals::Newton { max_iterations: 100, colour_gradient: String::from("Viridis") }
            .is_well_formed()
    );
}

#[test]
fn zero_iterations_are_refused() {
    assert!(!mandelbrot(0, 2.0).is_well_formed());
    assert!(!julia(0, 2.0).is_well_formed());
    assert!(
        !Fractals::Newton { max_iterations: 0, colour_gradient: String::from("Viridis") }
            .is_well_formed()
    );
    assert!(mandelbrot(1, 2.0).is_well_formed());
}

#[test]
fn escape_radius_must_compare_greater_than_zero() {
    // the well-formedness test on the stored bit pattern agrees with the
    // comparison `escape_radius > 0.0` on the value itself
    let cases: [f64; 10] = [
        0.0,
        -0.0,
        2.0,
        -2.0,
        f64::MIN_POSITIVE,
        5e-324,
        f64::INFINITY,
        f64::NEG_INFINITY,
        f64::NAN,
        1e300,
    ];
    for v in cases {
        assert_eq!(mandelbrot(100, v).is_well_formed(), v > 0.0, "{v}");
        assert_eq!(julia(100, v).is_well_formed(), v > 0.0, "{v}");
    }
}
