//! Resolution of colour-ramp names.
//!
//! The renderer knows eight colour ramps by name.  A name that is not one of
//! the eight resolves, silently, to the default ramp (Sinebow); an unknown
//! name is never an error.

use vstd::prelude::*;
use vstd::string::StrSliceExecFns;

verus! {

/// The names of the eight colour ramps, in the order the settings panel
/// offers them.
pub const COLOUR_GRADIENTS: [&'static str; 8] = [
    "Magma",
    "Rainbow",
    "Plasma",
    "Inferno",
    "Viridis",
    "Cividis",
    "Turbo",
    "Sinebow",
];

/// The eight colour ramps the renderer knows by name.
#[derive(Clone, Copy, PartialEq, Eq, Structural, Debug)]
pub enum GradientId {
    Magma,
    Rainbow,
    Plasma,
    Inferno,
    Viridis,
    Cividis,
    Turbo,
    Sinebow,
}

/// The ramp a name denotes: each known name maps to its own ramp, and every
/// other name falls back to the default ramp, Sinebow.
pub open spec fn gradient_id_of(s: Seq<char>) -> GradientId {
    if s == "Magma"@ {
        GradientId::Magma
    } else if s == "Rainbow"@ {
        GradientId::Rainbow
    } else if s == "Plasma"@ {
        GradientId::Plasma
    } else if s == "Inferno"@ {
        GradientId::Inferno
    } else if s == "Viridis"@ {
        GradientId::Viridis
    } else if s == "Cividis"@ {
        GradientId::Cividis
    } else if s == "Turbo"@ {
        GradientId::Turbo
    } else {
        GradientId::Sinebow
    }
}

/// Character-for-character equality of two string slices.
fn str_eq(a: &str, b: &str) -> (r: bool)
    ensures
        r <==> a@ == b@,
{
    let a_len = a.unicode_len();
    let b_len = b.unicode_len();
    if a_len != b_len {
        return false;
    }
    let mut i: usize = 0;
    while i < a_len
        invariant
            i <= a_len,
            a_len == a@.len(),
            b_len == b@.len(),
            a_len == b_len,
            forall|k: int| 0 <= k < i ==> a@[k] == b@[k],
        decreases a_len - i,
    {
        let ca = a.get_char(i);
        let cb = b.get_char(i);
        if ca != cb {
            return false;
        }
        i = i + 1;
    }
    proof {
        assert(a@ =~= b@);
    }
    true
}

/// Resolve a ramp name to the ramp it denotes, falling back to the default
/// ramp for any unrecognised name.
pub fn string_to_colour_gradient(s: &str) -> (g: GradientId)
    ensures
        g == gradient_id_of(s@),
{
    if str_eq(s, "Magma") {
        GradientId::Magma
    } else if str_eq(s, "Rainbow") {
        GradientId::Rainbow
    } else if str_eq(s, "Plasma") {
        GradientId::Plasma
    } else if str_eq(s, "Inferno") {
        GradientId::Inferno
    } else if str_eq(s, "Viridis") {
        GradientId::Viridis
    } else if str_eq(s, "Cividis") {
        GradientId::Cividis
    } else if str_eq(s, "Turbo") {
        GradientId::Turbo
    } else {
        GradientId::Sinebow
    }
}

/// The name each ramp is known by.
pub open spec fn gradient_name_of(g: GradientId) -> Seq<char> {
    match g {
        GradientId::Magma => "Magma"@,
        GradientId::Rainbow => "Rainbow"@,
        GradientId::Plasma => "Plasma"@,
        GradientId::Inferno => "Inferno"@,
        GradientId::Viridis => "Viridis"@,
        GradientId::Cividis => "Cividis"@,
        GradientId::Turbo => "Turbo"@,
        GradientId::Sinebow => "Sinebow"@,
    }
}

/// The name a ramp is known by, suitable for display and for resolving back
/// through [`string_to_colour_gradient`].
pub fn gradient_name(g: GradientId) -> (s: &'static str)
    ensures
        s@ == gradient_name_of(g),
{
    match g {
        GradientId::Magma => "Magma",
        GradientId::Rainbow => "Rainbow",
        GradientId::Plasma => "Plasma",
        GradientId::Inferno => "Inferno",
        GradientId::Viridis => "Viridis",
        GradientId::Cividis => "Cividis",
        GradientId::Turbo => "Turbo",
        GradientId::Sinebow => "Sinebow",
    }
}

/// Ramp names round-trip: every ramp's own name resolves back to that very
/// ramp, so the eight names denote eight distinct ramps.
pub proof fn lemma_gradient_name_round_trip(g: GradientId)
    ensures
        gradient_id_of(gradient_name_of(g)) == g,
{
    reveal_strlit("Magma");
    reveal_strlit("Rainbow");
    reveal_strlit("Plasma");
    reveal_strlit("Inferno");
    reveal_strlit("Viridis");
    reveal_strlit("Cividis");
    reveal_strlit("Turbo");
    reveal_strlit("Sinebow");
    // the eight names begin with eight different letters, so no two of them
    // are the same sequence
    assert("Magma"@[0] == 'M');
    assert("Rainbow"@[0] == 'R');
    assert("Plasma"@[0] == 'P');
    assert("Inferno"@[0] == 'I');
    assert("Viridis"@[0] == 'V');
    assert("Cividis"@[0] == 'C');
    assert("Turbo"@[0] == 'T');
    assert("Sinebow"@[0] == 'S');
    match g {
        GradientId::Magma => assert(gradient_id_of("Magma"@) == GradientId::Magma),
        GradientId::Rainbow => assert(gradient_id_of("Rainbow"@) == GradientId::Rainbow),
        GradientId::Plasma => assert(gradient_id_of("Plasma"@) == GradientId::Plasma),
        GradientId::Inferno => assert(gradient_id_of("Inferno"@) == GradientId::Inferno),
        GradientId::Viridis => assert(gradient_id_of("Viridis"@) == GradientId::Viridis),
        GradientId::Cividis => assert(gradient_id_of("Cividis"@) == GradientId::Cividis),
        GradientId::Turbo => assert(gradient_id_of("Turbo"@) == GradientId::Turbo),
        GradientId::Sinebow => assert(gradient_id_of("Sinebow"@) == GradientId::Sinebow),
    }
}

/// An unrecognised ramp name resolves to the same ramp as the documented
/// default: any name other than the seven non-default names yields Sinebow.
pub proof fn lemma_unknown_gradient_defaults(s: Seq<char>)
    requires
        s != "Magma"@,
        s != "Rainbow"@,
        s != "Plasma"@,
        s != "Inferno"@,
        s != "Viridis"@,
        s != "Cividis"@,
        s != "Turbo"@,
    ensures
        gradient_id_of(s) == GradientId::Sinebow,
{
}

} // verus!
