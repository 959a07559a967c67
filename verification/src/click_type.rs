//! Buttons, click strengths, and the inter-event-time classifier.

use vstd::prelude::*;

verus! {

/// A button of the host game. `Left` and `Right` are the "platformer"
/// buttons; `Jump` is not.
#[derive(Clone, Copy, PartialEq, Eq, Structural, Debug)]
pub enum Button {
    Jump,
    Left,
    Right,
}

impl Button {
    /// Decodes the host's 1-based button code. Codes outside `1..=3` are a
    /// programming error on the adapter side and are excluded here.
    pub fn from_u8(b: u8) -> (r: Self)
        requires
            1 <= b <= 3,
        ensures
            b == 1 ==> r == Button::Jump,
            b == 2 ==> r == Button::Left,
            b == 3 ==> r == Button::Right,
    {
        match b {
            1 => Button::Jump,
            2 => Button::Left,
            _ => Button::Right,
        }
    }

    pub open spec fn spec_is_platformer(self) -> bool {
        self == Button::Left || self == Button::Right
    }

    /// True for the two platformer buttons.
    #[verifier::when_used_as_spec(spec_is_platformer)]
    pub fn is_platformer(self) -> (r: bool)
        ensures
            r == self.spec_is_platformer(),
    {
        matches!(self, Button::Left | Button::Right)
    }
}

/// The three classification thresholds, in microseconds of inter-event gap.
/// Valid settings are strictly ordered: `hard > regular > soft`.
#[derive(Clone, Copy, PartialEq, Eq, Structural, Debug)]
pub struct Timings {
    pub hard: u64,
    pub regular: u64,
    pub soft: u64,
}

impl Timings {
    pub open spec fn wf(self) -> bool {
        self.hard > self.regular && self.regular > self.soft
    }
}

impl Default for Timings {
    /// 2 s / 0.15 s / 0.025 s.
    fn default() -> (r: Self)
        ensures
            r == (Timings { hard: 2_000_000, regular: 150_000, soft: 25_000 }),
            r.wf(),
    {
        Timings { hard: 2_000_000, regular: 150_000, soft: 25_000 }
    }
}

/// One of the eight real click categories, or `Skip` as a "no preference,
/// skip" sentinel.
#[derive(Clone, Copy, PartialEq, Eq, Structural, Debug, Default)]
pub enum ClickType {
    HardClick,
    HardRelease,
    Click,
    Release,
    SoftClick,
    SoftRelease,
    MicroClick,
    MicroRelease,
    #[default]
    Skip,
}

impl ClickType {
    pub open spec fn spec_is_release(self) -> bool {
        self == ClickType::HardRelease || self == ClickType::Release
            || self == ClickType::SoftRelease || self == ClickType::MicroRelease
    }

    #[verifier::when_used_as_spec(spec_is_release)]
    pub fn is_release(self) -> (r: bool)
        ensures
            r == self.spec_is_release(),
    {
        matches!(
            self,
            ClickType::HardRelease
                | ClickType::Release
                | ClickType::SoftRelease
                | ClickType::MicroRelease
        )
    }

    pub open spec fn spec_is_click(self) -> bool {
        self == ClickType::HardClick || self == ClickType::Click
            || self == ClickType::SoftClick || self == ClickType::MicroClick
    }

    #[verifier::when_used_as_spec(spec_is_click)]
    pub fn is_click(self) -> (r: bool)
        ensures
            r == self.spec_is_click(),
    {
        matches!(
            self,
            ClickType::HardClick | ClickType::Click | ClickType::SoftClick | ClickType::MicroClick
        )
    }

    /// Strength of a category: micro 0, soft 1, regular 2, hard 3
    /// (`Skip` has no strength and is mapped below them all).
    pub open spec fn strength(self) -> int {
        match self {
            ClickType::HardClick | ClickType::HardRelease => 3,
            ClickType::Click | ClickType::Release => 2,
            ClickType::SoftClick | ClickType::SoftRelease => 1,
            ClickType::MicroClick | ClickType::MicroRelease => 0,
            ClickType::Skip => -1,
        }
    }

    /// The classification table: strict comparison against each threshold,
    /// largest first, so a gap equal to a threshold lands in the lower bin.
    pub open spec fn spec_from_time(push: bool, time_us: u64, timings: Timings) -> ClickType {
        if time_us > timings.hard {
            if push {
                ClickType::HardClick
            } else {
                ClickType::HardRelease
            }
        } else if time_us > timings.regular {
            if push {
                ClickType::Click
            } else {
                ClickType::Release
            }
        } else if time_us > timings.soft {
            if push {
                ClickType::SoftClick
            } else {
                ClickType::SoftRelease
            }
        } else {
            if push {
                ClickType::MicroClick
            } else {
                ClickType::MicroRelease
            }
        }
    }

    /// Classifies a press (`push == true`) or release by the gap in
    /// microseconds since the previous event of the same kind.
    pub fn from_time(push: bool, time_us: u64, timings: &Timings) -> (r: Self)
        ensures
            r == ClickType::spec_from_time(push, time_us, *timings),
    {
        if time_us > timings.hard {
            if push {
                ClickType::HardClick
            } else {
                ClickType::HardRelease
            }
        } else if time_us > timings.regular {
            if push {
                ClickType::Click
            } else {
                ClickType::Release
            }
        } else if time_us > timings.soft {
            if push {
                ClickType::SoftClick
            } else {
                ClickType::SoftRelease
            }
        } else if push {
            ClickType::MicroClick
        } else {
            ClickType::MicroRelease
        }
    }

    /// Same-parity-first fallback order: the four strengths of the event's
    /// own parity starting at the event's strength and walking away, then
    /// the other parity in the analogous order. `Skip` yields eight `Skip`s.
    pub open spec fn preferred_spec(self) -> Seq<ClickType> {
        match self {
            ClickType::HardClick => seq![
                ClickType::HardClick,
                ClickType::Click,
                ClickType::SoftClick,
                ClickType::MicroClick,
                ClickType::HardRelease,
                ClickType::Release,
                ClickType::SoftRelease,
                ClickType::MicroRelease,
            ],
            ClickType::HardRelease => seq![
                ClickType::HardRelease,
                ClickType::Release,
                ClickType::SoftRelease,
                ClickType::MicroRelease,
                ClickType::HardClick,
                ClickType::Click,
                ClickType::SoftClick,
                ClickType::MicroClick,
            ],
            ClickType::Click => seq![
                ClickType::Click,
                ClickType::HardClick,
                ClickType::SoftClick,
                ClickType::MicroClick,
                ClickType::Release,
                ClickType::HardRelease,
                ClickType::SoftRelease,
                ClickType::MicroRelease,
            ],
            ClickType::Release => seq![
                ClickType::Release,
                ClickType::HardRelease,
                ClickType::SoftRelease,
                ClickType::MicroRelease,
                ClickType::Click,
                ClickType::HardClick,
                ClickType::SoftClick,
                ClickType::MicroClick,
            ],
            ClickType::SoftClick => seq![
                ClickType::SoftClick,
                ClickType::MicroClick,
                ClickType::Click,
                ClickType::HardClick,
                ClickType::SoftRelease,
                ClickType::MicroRelease,
                ClickType::Release,
                ClickType::HardRelease,
            ],
            ClickType::SoftRelease => seq![
                ClickType::SoftRelease,
                ClickType::MicroRelease,
                ClickType::Release,
                ClickType::HardRelease,
                ClickType::SoftClick,
                ClickType::MicroClick,
                ClickType::Click,
                ClickType::HardClick,
            ],
            ClickType::MicroClick => seq![
                ClickType::MicroClick,
                ClickType::SoftClick,
                ClickType::Click,
                ClickType::HardClick,
                ClickType::MicroRelease,
                ClickType::SoftRelease,
                ClickType::Release,
                ClickType::HardRelease,
            ],
            ClickType::MicroRelease => seq![
                ClickType::MicroRelease,
                ClickType::SoftRelease,
                ClickType::Release,
                ClickType::HardRelease,
                ClickType::MicroClick,
                ClickType::SoftClick,
                ClickType::Click,
                ClickType::HardClick,
            ],
            ClickType::Skip => seq![
                ClickType::Skip,
                ClickType::Skip,
                ClickType::Skip,
                ClickType::Skip,
                ClickType::Skip,
                ClickType::Skip,
                ClickType::Skip,
                ClickType::Skip,
            ],
        }
    }

    /// The intra-bank preference list consulted for fallback.
    pub fn preferred(self) -> (r: [ClickType; 8])
        ensures
            r@ == self.preferred_spec(),
    {
        let r: [ClickType; 8] = match self {
            ClickType::HardClick => [
                ClickType::HardClick,
                ClickType::Click,
                ClickType::SoftClick,
                ClickType::MicroClick,
                ClickType::HardRelease,
                ClickType::Release,
                ClickType::SoftRelease,
                ClickType::MicroRelease,
            ],
            ClickType::HardRelease => [
                ClickType::HardRelease,
                ClickType::Release,
                ClickType::SoftRelease,
                ClickType::MicroRelease,
                ClickType::HardClick,
                ClickType::Click,
                ClickType::SoftClick,
                ClickType::MicroClick,
            ],
            ClickType::Click => [
                ClickType::Click,
                ClickType::HardClick,
                ClickType::SoftClick,
                ClickType::MicroClick,
                ClickType::Release,
                ClickType::HardRelease,
                ClickType::SoftRelease,
                ClickType::MicroRelease,
            ],
            ClickType::Release => [
                ClickType::Release,
                ClickType::HardRelease,
                ClickType::SoftRelease,
                ClickType::MicroRelease,
                ClickType::Click,
                ClickType::HardClick,
                ClickType::SoftClick,
                ClickType::MicroClick,
            ],
            ClickType::SoftClick => [
                ClickType::SoftClick,
                ClickType::MicroClick,
                ClickType::Click,
                ClickType::HardClick,
                ClickType::SoftRelease,
                ClickType::MicroRelease,
                ClickType::Release,
                ClickType::HardRelease,
            ],
            ClickType::SoftRelease => [
                ClickType::SoftRelease,
                ClickType::MicroRelease,
                ClickType::Release,
                ClickType::HardRelease,
                ClickType::SoftClick,
                ClickType::MicroClick,
                ClickType::Click,
                ClickType::HardClick,
            ],
            ClickType::MicroClick => [
                ClickType::MicroClick,
                ClickType::SoftClick,
                ClickType::Click,
                ClickType::HardClick,
                ClickType::MicroRelease,
                ClickType::SoftRelease,
                ClickType::Release,
                ClickType::HardRelease,
            ],
            ClickType::MicroRelease => [
                ClickType::MicroRelease,
                ClickType::SoftRelease,
                ClickType::Release,
                ClickType::HardRelease,
                ClickType::MicroClick,
                ClickType::SoftClick,
                ClickType::Click,
                ClickType::HardClick,
            ],
            ClickType::Skip => [
                ClickType::Skip,
                ClickType::Skip,
                ClickType::Skip,
                ClickType::Skip,
                ClickType::Skip,
                ClickType::Skip,
                ClickType::Skip,
                ClickType::Skip,
            ],
        };
        proof {
            assert(r@ =~= self.preferred_spec());
        }
        r
    }
}

/// The classifier's parity always matches the event: a press maps to a
/// click, a release to a release, never to `Skip`.
pub proof fn lemma_from_time_parity(push: bool, time_us: u64, timings: Timings)
    ensures
        ClickType::spec_from_time(push, time_us, timings).is_click() == push,
        ClickType::spec_from_time(push, time_us, timings).is_release() == !push,
        ClickType::spec_from_time(push, time_us, timings) != ClickType::Skip,
{
}

/// The classifier is monotone in the gap: a larger gap never yields a
/// weaker strength.
pub proof fn lemma_from_time_monotone(push: bool, t1: u64, t2: u64, timings: Timings)
    requires
        t1 <= t2,
    ensures
        ClickType::spec_from_time(push, t1, timings).strength()
            <= ClickType::spec_from_time(push, t2, timings).strength(),
{
}

/// The preference list of a real category starts with that category,
/// repeats no entry, keeps the event's parity in its first four entries,
/// and never contains `Skip`.
pub proof fn lemma_preferred_properties(ct: ClickType)
    requires
        ct != ClickType::Skip,
    ensures
        ct.preferred_spec().len() == 8,
        ct.preferred_spec()[0] == ct,
        forall|i: int, j: int|
            0 <= i < j < 8 ==> ct.preferred_spec()[i] != ct.preferred_spec()[j],
        forall|i: int| 0 <= i < 4 ==> ct.preferred_spec()[i].is_click() == ct.is_click(),
        forall|i: int| 0 <= i < 8 ==> ct.preferred_spec()[i] != ClickType::Skip,
{
}

} // verus!
