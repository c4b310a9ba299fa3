//! The rule table that an audit consults: which setting, under which condition, raises which
//! finding.

use vstd::prelude::*;
use crate::ioc::{Suspicion, SuspicionLevel, SuspicionView};
use crate::text::same_text;

verus! {

/// How a rule reads the value of its setting.
#[derive(Clone, Copy, Debug, PartialEq, Eq, Structural)]
pub enum Condition {
    /// The rule fires when the value is the expected one.
    Equals,
    /// The rule fires when the value is anything but the expected one.
    Differs,
}

/// One row of the table: a setting's exact key, a condition on its value, and the finding that
/// is raised when the condition holds.
#[derive(Clone, Copy, Debug)]
pub struct Rule {
    pub key: &'static str,
    pub condition: Condition,
    pub expected: &'static str,
    pub level: SuspicionLevel,
    pub description: &'static str,
}

/// A [`Rule`] with its texts as sequences of characters.
pub struct RuleView {
    pub key: Seq<char>,
    pub condition: Condition,
    pub expected: Seq<char>,
    pub level: SuspicionLevel,
    pub description: Seq<char>,
}

impl RuleView {
    /// Whether the rule applies to the entry `key`, `value` and its condition holds.
    pub open spec fn fires(self, key: Seq<char>, value: Seq<char>) -> bool {
        self.key == key && match self.condition {
            Condition::Equals => value == self.expected,
            Condition::Differs => value != self.expected,
        }
    }

    /// The finding that the rule raises when it fires.
    pub open spec fn finding(self) -> SuspicionView {
        SuspicionView { level: self.level, description: self.description }
    }
}

impl View for Rule {
    type V = RuleView;

    open spec fn view(&self) -> RuleView {
        RuleView {
            key: self.key@,
            condition: self.condition,
            expected: self.expected@,
            level: self.level,
            description: self.description@,
        }
    }
}

impl Rule {
    /// Whether the rule applies to the entry `key`, `value` and its condition holds.
    pub fn fires(&self, key: &str, value: &str) -> (fired: bool)
        ensures
            fired == self@.fires(key@, value@),
    {
        if !same_text(self.key, key) {
            return false;
        }
        let expected = same_text(value, self.expected);
        match self.condition {
            Condition::Equals => expected,
            Condition::Differs => !expected,
        }
    }

    /// The finding that the rule raises when it fires.
    pub fn finding(&self) -> (found: Suspicion)
        ensures
            found@ == self@.finding(),
    {
        Suspicion { level: self.level, description: self.description.to_owned() }
    }
}

/// The rules of a table, each by its view, in the table's order.
pub open spec fn rule_views(table: Seq<Rule>) -> Seq<RuleView> {
    table.map_values(|r: Rule| r@)
}

/// The finding of the first rule of `table` that fires on the entry, if any does.
pub open spec fn first_finding(table: Seq<RuleView>, key: Seq<char>, value: Seq<char>) -> Option<
    SuspicionView,
>
    decreases table.len(),
{
    if table.len() == 0 {
        None
    } else if table[0].fires(key, value) {
        Some(table[0].finding())
    } else {
        first_finding(table.drop_first(), key, value)
    }
}

/// Evaluates one entry against `table`: the finding of the first rule that fires, or nothing
/// where none does. A key that no rule names raises nothing.
pub fn evaluate(table: &Vec<Rule>, key: &str, value: &str) -> (found: Option<Suspicion>)
    ensures
        match found {
            Some(f) => first_finding(rule_views(table@), key@, value@) == Some(f@),
            None => first_finding(rule_views(table@), key@, value@).is_none(),
        },
{
    let ghost all = rule_views(table@);
    let mut i: usize = 0;
    assert(all.skip(0) == all);
    while i < table.len()
        invariant
            i <= table@.len(),
            all == rule_views(table@),
            first_finding(all, key@, value@) == first_finding(all.skip(i as int), key@, value@),
        decreases table@.len() - i,
    {
        let ghost rest = all.skip(i as int);
        assert(rest[0] == table@[i as int]@);
        assert(rest.drop_first() == all.skip(i + 1));
        if table[i].fires(key, value) {
            return Some(table[i].finding());
        }
        i = i + 1;
    }
    None
}

/// The finding that the built-in rules raise on one entry, if any.
///
/// Three settings are known, and each is read against the value `1`:
/// - `package_verifier_enable`: any other value is a high risk, `1` raises nothing;
/// - `package_verifier_user_consent`: `1` confirms a protection, any other value is a high risk;
/// - `upload_apk_enable`: any other value is a high risk, `1` raises nothing.
///
/// Every other key raises nothing, whatever its value.
pub open spec fn finding(key: Seq<char>, value: Seq<char>) -> Option<SuspicionView> {
    if key == "package_verifier_enable"@ {
        if value != "1"@ {
            Some(
                SuspicionView {
                    level: SuspicionLevel::High,
                    description: "Google Play Protect is turned off"@,
                },
            )
        } else {
            None
        }
    } else if key == "package_verifier_user_consent"@ {
        if value == "1"@ {
            Some(
                SuspicionView {
                    level: SuspicionLevel::Good,
                    description: "Scanning apps with Google Play Protect is enabled"@,
                },
            )
        } else {
            Some(
                SuspicionView {
                    level: SuspicionLevel::High,
                    description: "Scanning apps with Google Play Protect is disabled"@,
                },
            )
        }
    } else if key == "upload_apk_enable"@ {
        if value != "1"@ {
            Some(
                SuspicionView {
                    level: SuspicionLevel::High,
                    description: "Automatic upload of suspicious apps to Google Play has been disabled"@,
                },
            )
        } else {
            None
        }
    } else {
        None
    }
}

/// The built-in table, row by row.
pub open spec fn standard_table() -> Seq<RuleView> {
    seq![
        RuleView {
            key: "package_verifier_enable"@,
            condition: Condition::Differs,
            expected: "1"@,
            level: SuspicionLevel::High,
            description: "Google Play Protect is turned off"@,
        },
        RuleView {
            key: "package_verifier_user_consent"@,
            condition: Condition::Equals,
            expected: "1"@,
            level: SuspicionLevel::Good,
            description: "Scanning apps with Google Play Protect is enabled"@,
        },
        RuleView {
            key: "package_verifier_user_consent"@,
            condition: Condition::Differs,
            expected: "1"@,
            level: SuspicionLevel::High,
            description: "Scanning apps with Google Play Protect is disabled"@,
        },
        RuleView {
            key: "upload_apk_enable"@,
            condition: Condition::Differs,
            expected: "1"@,
            level: SuspicionLevel::High,
            description: "Automatic upload of suspicious apps to Google Play has been disabled"@,
        },
    ]
}

/// The built-in table.
pub fn standard_rules() -> (table: Vec<Rule>)
    ensures
        rule_views(table@) == standard_table(),
{
    let mut table: Vec<Rule> = Vec::new();
    table.push(
        Rule {
            key: "package_verifier_enable",
            condition: Condition::Differs,
            expected: "1",
            level: SuspicionLevel::High,
            description: "Google Play Protect is turned off",
        },
    );
    table.push(
        Rule {
            key: "package_verifier_user_consent",
            condition: Condition::Equals,
            expected: "1",
            level: SuspicionLevel::Good,
            description: "Scanning apps with Google Play Protect is enabled",
        },
    );
    table.push(
        Rule {
            key: "package_verifier_user_consent",
            condition: Condition::Differs,
            expected: "1",
            level: SuspicionLevel::High,
            description: "Scanning apps with Google Play Protect is disabled",
        },
    );
    table.push(
        Rule {
            key: "upload_apk_enable",
            condition: Condition::Differs,
            expected: "1",
            level: SuspicionLevel::High,
            description: "Automatic upload of suspicious apps to Google Play has been disabled",
        },
    );
    assert(rule_views(table@) =~= standard_table());
    table
}

/// On every entry the built-in table raises exactly what [`finding`] states.
pub proof fn lemma_standard_table(key: Seq<char>, value: Seq<char>)
    ensures
        first_finding(standard_table(), key, value) == finding(key, value),
{
    reveal_strlit("package_verifier_enable");
    reveal_strlit("package_verifier_user_consent");
    reveal_strlit("upload_apk_enable");
    let t0 = standard_table();
    let t1 = t0.drop_first();
    let t2 = t1.drop_first();
    let t3 = t2.drop_first();
    assert(t1[0] == t0[1] && t2[0] == t0[2] && t3[0] == t0[3] && t3.drop_first().len() == 0);
    reveal_with_fuel(first_finding, 5);
    assert("package_verifier_enable"@.len() == 23);
    assert("package_verifier_user_consent"@.len() == 29);
    assert("upload_apk_enable"@.len() == 17);
}

} // verus!
