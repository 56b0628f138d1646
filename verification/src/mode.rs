use vstd::prelude::*;

verus! {

/// Operating mode of the controller: automatic or manual fan control.
///
/// Exactly one value is live at any time; the control loop owns it (or, in
/// the edge-triggered build, a single toggler task is its only writer).
#[derive(Clone, Copy, PartialEq, Eq, Structural, Debug)]
pub enum Mode {
    Auto,
    Manual,
}

impl Mode {
    /// The opposite mode.
    pub open spec fn spec_toggled(self) -> Mode {
        match self {
            Mode::Auto => Mode::Manual,
            Mode::Manual => Mode::Auto,
        }
    }

    /// Flip between `Auto` and `Manual`.
    pub fn toggled(self) -> (r: Mode)
        ensures
            r == self.spec_toggled(),
    {
        match self {
            Mode::Auto => Mode::Manual,
            Mode::Manual => Mode::Auto,
        }
    }
}

/// The mode reached after `n` toggles from `m`.
pub open spec fn toggled_n(m: Mode, n: nat) -> Mode
    decreases n,
{
    if n == 0 {
        m
    } else {
        toggled_n(m, (n - 1) as nat).spec_toggled()
    }
}

/// Toggling twice in a row returns to the starting mode.
pub proof fn lemma_toggle_involution(m: Mode)
    ensures
        m.spec_toggled().spec_toggled() == m,
{
}

/// Toggling the mode an even number of times returns it to its original
/// value, whichever input variant drives the toggles.
pub proof fn lemma_toggle_round_trip(m: Mode, n: nat)
    requires
        n % 2 == 0,
    ensures
        toggled_n(m, n) == m,
    decreases n,
{
    if n >= 2 {
        lemma_toggle_round_trip(m, (n - 2) as nat);
        assert(toggled_n(m, (n - 1) as nat) == toggled_n(m, (n - 2) as nat).spec_toggled());
        lemma_toggle_involution(toggled_n(m, (n - 2) as nat));
    }
}

} // verus!
