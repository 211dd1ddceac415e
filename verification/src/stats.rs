//! A monotonic counter of completed-or-skipped phases and its derived
//! display values.

use vstd::prelude::*;

use crate::display::{decimal_string, spec_decimal};

verus! {

/// Counts every phase transition, whether the phase expired naturally or
/// was skipped. Work and break phases alternate, so the counter's parity
/// gives the position inside the current work/break pair and its half
/// gives the number of completed pairs.
#[derive(Default)]
pub struct Stats(pub usize);

/// The ordinal of the current phase inside its work/break pair: `1` on an
/// even counter, `2` on an odd one.
pub open spec fn spec_phase_ordinal(counter: nat) -> nat {
    counter % 2 + 1
}

/// The number of completed work/break pairs after `counter` transitions.
pub open spec fn spec_pair_count(counter: nat) -> nat {
    counter / 2
}

impl Stats {
    /// Advances the counter by exactly one; called once per phase
    /// transition.
    pub fn increment(&mut self)
        requires
            old(self).0 < usize::MAX,
        ensures
            final(self).0 == old(self).0 + 1,
    {
        self.0 += 1;
    }

    /// Returns `(ordinal, total)` for the fixed work/break pairing:
    /// the ordinal alternates between 1 and 2, the total is always 2.
    pub fn get_phase_count(&self) -> (r: (i8, i8))
        ensures
            r.0 == spec_phase_ordinal(self.0 as nat),
            r.1 == 2,
            r.0 == 1 || r.0 == 2,
    {
        ((self.0 % 2 + 1) as i8, 2)
    }

    /// The number of completed work/break pairs.
    pub fn get_count(&self) -> (r: usize)
        ensures
            r == spec_pair_count(self.0 as nat),
    {
        self.0 / 2
    }

    /// The stats bar text: the ordinal within the pair, the pair size and
    /// the completed-pair count, as `ordinal/total:pairs`.
    pub fn to_text(&self) -> (r: String)
        ensures
            r@ == spec_stats_line(self.0 as nat),
    {
        proof {
            reveal_strlit("/");
            reveal_strlit(":");
        }
        let (ordinal, total) = self.get_phase_count();
        let mut out = decimal_string(ordinal as u64);
        out.append("/");
        let total_text = decimal_string(total as u64);
        out.append(total_text.as_str());
        out.append(":");
        let pairs_text = decimal_string(self.get_count() as u64);
        out.append(pairs_text.as_str());
        proof {
            assert(out@ =~= spec_stats_line(self.0 as nat));
        }
        out
    }
}

/// The stats bar line, `ordinal/total:pairs`, for example `1/2:0` at the
/// start of a sitting.
pub open spec fn spec_stats_line(counter: nat) -> Seq<char> {
    spec_decimal(spec_phase_ordinal(counter)) + seq!['/'] + spec_decimal(2) + seq![':']
        + spec_decimal(spec_pair_count(counter))
}

/// The phase ordinal alternates between 1 and 2 from one transition to the
/// next, and the pair count grows by exactly one for every two transitions.
pub proof fn lemma_stats_alternation(counter: nat)
    ensures
        spec_phase_ordinal(counter) != spec_phase_ordinal(counter + 1),
        spec_phase_ordinal(counter + 2) == spec_phase_ordinal(counter),
        spec_pair_count(counter + 2) == spec_pair_count(counter) + 1,
{
}

} // verus!
