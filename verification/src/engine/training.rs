//! Training a persona from real input: which page callbacks carry samples,
//! how long capture may run, and when there is enough data to fit.

use vstd::prelude::*;
use crate::engine::error::EngineError;
use crate::text::{decimal, str_eq, u64_decimal};

verus! {

/// The page binding the injected recorder reports samples through.
pub const BINDING_NAME: &'static str = "__truewrightTrainReport";

/// The longest a training capture runs before it stops by itself.
pub const MAX_TRAINING_DURATION_MS: u64 = 300000;

/// The fewest usable mouse movements a fit needs.
pub const MIN_MOVEMENTS_FOR_FIT: usize = 3;

/// The fewest keystrokes a fit needs.
pub const MIN_KEYSTROKES_FOR_FIT: usize = 5;

/// How many captured samples a fit actually used.
pub struct FitStats {
    pub movements_used: usize,
    pub keystrokes_used: usize,
}

/// Whether a binding call carries a training sample.
pub fn is_training_report(binding_name: &str) -> (r: bool)
    ensures
        r == (binding_name@ == BINDING_NAME@),
{
    str_eq(binding_name, BINDING_NAME)
}

/// The message of a fit refused for want of data.
pub open spec fn not_enough_data(movements: nat, keystrokes: nat) -> Seq<char> {
    "not enough training data to fit a persona: "@ + decimal(movements) + " usable mouse movement(s) (need "@
        + decimal(MIN_MOVEMENTS_FOR_FIT as nat) + "), "@ + decimal(keystrokes) + " keystroke(s) (need "@
        + decimal(MIN_KEYSTROKES_FOR_FIT as nat) + ")"@
}

/// Decides whether `usable_movements` movements and `keystrokes`
/// keystrokes are enough to fit a persona: if so, the counts the fit will
/// use; if not, a `Training` error saying what was captured and what is
/// needed, and nothing is saved.
pub fn check_fit_data(usable_movements: usize, keystrokes: usize) -> (r: Result<FitStats, EngineError>)
    ensures
        usable_movements >= MIN_MOVEMENTS_FOR_FIT && keystrokes >= MIN_KEYSTROKES_FOR_FIT ==> (r matches Ok(s)
            && s.movements_used == usable_movements && s.keystrokes_used == keystrokes),
        usable_movements < MIN_MOVEMENTS_FOR_FIT || keystrokes < MIN_KEYSTROKES_FOR_FIT ==> (r matches Err(EngineError::Training(m))
            && m@ == not_enough_data(usable_movements as nat, keystrokes as nat)),
{
    if usable_movements < MIN_MOVEMENTS_FOR_FIT || keystrokes < MIN_KEYSTROKES_FOR_FIT {
        let mut m = "not enough training data to fit a persona: ".to_owned();
        let a = u64_decimal(usable_movements as u64);
        m.append(a.as_str());
        m.append(" usable mouse movement(s) (need ");
        let b = u64_decimal(MIN_MOVEMENTS_FOR_FIT as u64);
        m.append(b.as_str());
        m.append("), ");
        let c = u64_decimal(keystrokes as u64);
        m.append(c.as_str());
        m.append(" keystroke(s) (need ");
        let d = u64_decimal(MIN_KEYSTROKES_FOR_FIT as u64);
        m.append(d.as_str());
        m.append(")");
        return Err(EngineError::Training(m));
    }
    Ok(FitStats { movements_used: usable_movements, keystrokes_used: keystrokes })
}

} // verus!
