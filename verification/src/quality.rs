//! The user's stream quality preference.

use vstd::prelude::*;
use crate::text::{str_eq, to_ascii_lowercase, trim, lower_spec, trim_spec};

verus! {

/// Which stream quality to pick.
#[derive(Debug, PartialEq, Eq)]
pub enum QualityPreference {
    /// The first (highest ranked) stream.
    Best,
    /// The last stream with a numeric quality.
    Worst,
    /// The first stream whose quality label contains this text.
    Exact(String),
}

impl Clone for QualityPreference {
    fn clone(&self) -> (r: Self)
        ensures
            r == *self,
    {
        match self {
            QualityPreference::Best => QualityPreference::Best,
            QualityPreference::Worst => QualityPreference::Worst,
            QualityPreference::Exact(v) => QualityPreference::Exact(v.clone()),
        }
    }
}

impl Default for QualityPreference {
    fn default() -> (r: Self)
        ensures
            r == QualityPreference::Best,
    {
        QualityPreference::Best
    }
}

/// Abstract value of a quality preference.
pub enum QualityModel {
    Best,
    Worst,
    Exact(Seq<char>),
}

impl QualityPreference {
    /// The abstract value of this preference.
    pub open spec fn model(&self) -> QualityModel {
        match self {
            QualityPreference::Best => QualityModel::Best,
            QualityPreference::Worst => QualityModel::Worst,
            QualityPreference::Exact(v) => QualityModel::Exact(v@),
        }
    }

    /// The preference a configuration value denotes.
    pub open spec fn parse_spec(value: Seq<char>) -> QualityModel {
        let t = lower_spec(trim_spec(value));
        if t == Seq::<char>::empty() || t == "best"@ {
            QualityModel::Best
        } else if t == "worst"@ {
            QualityModel::Worst
        } else {
            QualityModel::Exact(t)
        }
    }

    /// Reads a configuration value: surrounding whitespace is ignored and
    /// case does not matter; an empty value or `best` means `Best`, `worst`
    /// means `Worst`, anything else is an exact (lower-cased) label.
    pub fn parse(value: &str) -> (r: Self)
        ensures
            r.model() == Self::parse_spec(value@),
    {
        let t = to_ascii_lowercase(trim(value).as_str());
        let best = "best";
        let worst = "worst";
        proof {
            reveal_strlit("best");
            reveal_strlit("worst");
        }
        if t.as_str().is_empty() || str_eq(t.as_str(), best) {
            assert(t@ =~= Seq::<char>::empty() || t@ == "best"@);
            QualityPreference::Best
        } else if str_eq(t.as_str(), worst) {
            QualityPreference::Worst
        } else {
            QualityPreference::Exact(t)
        }
    }

    /// The text shown for a preference.
    pub open spec fn label_spec(&self) -> Seq<char> {
        match self {
            QualityPreference::Best => "best"@,
            QualityPreference::Worst => "worst"@,
            QualityPreference::Exact(v) => v@,
        }
    }

    /// The text shown for this preference: `best`, `worst` or the exact label.
    pub fn label(&self) -> (r: &str)
        ensures
            r@ == self.label_spec(),
    {
        match self {
            QualityPreference::Best => "best",
            QualityPreference::Worst => "worst",
            QualityPreference::Exact(v) => v.as_str(),
        }
    }

    /// The label as an owned string (what displaying the preference shows).
    pub fn to_label_string(&self) -> (r: String)
        ensures
            r@ == self.label_spec(),
    {
        String::from_str(self.label())
    }

    /// Whether two preferences are the same.
    pub fn same_as(&self, other: &Self) -> (r: bool)
        ensures
            r == (self.model() == other.model()),
    {
        match (self, other) {
            (QualityPreference::Best, QualityPreference::Best) => true,
            (QualityPreference::Worst, QualityPreference::Worst) => true,
            (QualityPreference::Exact(a), QualityPreference::Exact(b)) => str_eq(a.as_str(), b.as_str()),
            _ => false,
        }
    }
}

} // verus!
