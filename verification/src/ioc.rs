//! Findings produced by an audit, and their severity.

use vstd::prelude::*;

verus! {

/// How serious a finding is, from a confirmed protection up to a confirmed risk.
#[derive(Clone, Copy, Debug, PartialEq, Eq, Structural, PartialOrd, Ord, Hash)]
pub enum SuspicionLevel {
    Good,
    Low,
    Medium,
    High,
}

impl SuspicionLevel {
    /// Position of the level in the severity order, `Good` being the lowest.
    pub open spec fn rank_spec(self) -> nat {
        match self {
            SuspicionLevel::Good => 0,
            SuspicionLevel::Low => 1,
            SuspicionLevel::Medium => 2,
            SuspicionLevel::High => 3,
        }
    }

    /// Position of the level in the severity order, `Good` being the lowest.
    pub fn rank(self) -> (r: u8)
        ensures
            r == self.rank_spec(),
    {
        match self {
            SuspicionLevel::Good => 0,
            SuspicionLevel::Low => 1,
            SuspicionLevel::Medium => 2,
            SuspicionLevel::High => 3,
        }
    }

    /// Whether the level reports a risk rather than a confirmed protection.
    pub open spec fn is_risk_spec(self) -> bool {
        self != SuspicionLevel::Good
    }

    /// Whether the level reports a risk rather than a confirmed protection.
    pub fn is_risk(self) -> (risk: bool)
        ensures
            risk == self.is_risk_spec(),
    {
        match self {
            SuspicionLevel::Good => false,
            _ => true,
        }
    }
}

/// One audit finding: a severity and a description for a human reader.
#[derive(Clone, Debug, PartialEq, Eq)]
pub struct Suspicion {
    pub level: SuspicionLevel,
    pub description: String,
}

/// What a [`Suspicion`] says, with its text as a sequence of characters.
pub struct SuspicionView {
    pub level: SuspicionLevel,
    pub description: Seq<char>,
}

impl View for Suspicion {
    type V = SuspicionView;

    open spec fn view(&self) -> SuspicionView {
        SuspicionView { level: self.level, description: self.description@ }
    }
}

/// The findings of a list, each by its view, in the list's order.
pub open spec fn views(list: Seq<Suspicion>) -> Seq<SuspicionView> {
    list.map_values(|s: Suspicion| s@)
}

} // verus!
