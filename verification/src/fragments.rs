//! Semantic fragments of a project blueprint: minimal data structures with
//! validation rules, assembled later into blueprint files.

use vstd::prelude::*;

use crate::strutil::{str_eq, word_count, count_words};

verus! {

/// The view of a `Result<(), String>` validation outcome.
pub open spec fn validation_view(r: Result<(), String>) -> Result<(), Seq<char>> {
    match r {
        Ok(()) => Ok(()),
        Err(m) => Err(m@),
    }
}

/// The domain fragment: the primary domain with a few qualifiers.
#[derive(Debug, Clone)]
pub struct DomainFragment {
    pub primary: String,
    pub secondary_concerns: Vec<String>,
    pub scale_category: String,
    pub data_sensitivity: String,
}

impl DomainFragment {
    /// What validation returns: the primary domain must be present.
    pub open spec fn validate_spec(self) -> Result<(), Seq<char>> {
        if self.primary@.len() == 0 {
            Err("Primary domain required"@)
        } else {
            Ok(())
        }
    }

    /// Check the fragment: the primary domain is required.
    pub fn validate(&self) -> (r: Result<(), String>)
        ensures
            validation_view(r) == self.validate_spec(),
    {
        if self.primary.as_str().is_empty() {
            Err(String::from_str("Primary domain required"))
        } else {
            Ok(())
        }
    }
}

impl Default for DomainFragment {
    fn default() -> (r: DomainFragment)
        ensures
            r.primary@.len() == 0,
            r.secondary_concerns@.len() == 0,
            r.scale_category@.len() == 0,
            r.data_sensitivity@.len() == 0,
    {
        DomainFragment {
            primary: String::new(),
            secondary_concerns: Vec::new(),
            scale_category: String::new(),
            data_sensitivity: String::new(),
        }
    }
}

/// The flow fragment: a flat list of actions.
#[derive(Debug, Clone)]
pub struct FlowFragment {
    pub actions: Vec<String>,
}

/// The first flow action from index `i` on that is too long, as a
/// validation outcome.
pub open spec fn flow_check_from(actions: Seq<Seq<char>>, i: int) -> Result<(), Seq<char>>
    decreases actions.len() - i,
{
    if i < 0 || i >= actions.len() {
        Ok(())
    } else if word_count(actions[i]) > 3 {
        Err("Action too long: "@ + actions[i])
    } else {
        flow_check_from(actions, i + 1)
    }
}

impl FlowFragment {
    /// What validation returns: at least one action, none over three words.
    pub open spec fn validate_spec(self) -> Result<(), Seq<char>> {
        if self.actions@.len() == 0 {
            Err("At least 1 action required"@)
        } else {
            flow_check_from(self.actions@.map_values(|a: String| a@), 0)
        }
    }

    /// Check the fragment: at least one action is required, and each
    /// action may hold at most three words.
    pub fn validate(&self) -> (r: Result<(), String>)
        ensures
            validation_view(r) == self.validate_spec(),
    {
        let ghost av = self.actions@.map_values(|a: String| a@);
        let n = self.actions.len();
        if n == 0 {
            return Err(String::from_str("At least 1 action required"));
        }
        let mut i: usize = 0;
        while i < n
            invariant
                av == self.actions@.map_values(|a: String| a@),
                n == self.actions@.len(),
                i <= n,
                flow_check_from(av, 0) == flow_check_from(av, i as int),
            decreases n - i,
        {
            let action = &self.actions[i];
            if count_words(action.as_str()) > 3 {
                let mut msg = String::from_str("Action too long: ");
                msg.append(action.as_str());
                proof {
                    assert(av[i as int] == action@);
                }
                return Err(msg);
            }
            i = i + 1;
        }
        Ok(())
    }
}

impl Default for FlowFragment {
    fn default() -> (r: FlowFragment)
        ensures
            r.actions@.len() == 0,
    {
        FlowFragment { actions: Vec::new() }
    }
}

/// Whether `c` is one of the recognized constraint categories.
pub open spec fn valid_category(c: Seq<char>) -> bool {
    c == "platform"@ || c == "language"@ || c == "framework"@ || c == "compliance"@
        || c == "performance"@ || c == "security"@
}

/// Whether one constraint entry passes validation: a known category and a
/// value of at most fifteen characters.
pub open spec fn constraint_entry_ok(e: (Seq<char>, Seq<char>)) -> bool {
    valid_category(e.0) && e.1.len() <= 15
}

/// The validation outcome for the constraint entries from index `i` on.
pub open spec fn constraint_check_from(entries: Seq<(Seq<char>, Seq<char>)>, i: int) -> Result<
    (),
    Seq<char>,
>
    decreases entries.len() - i,
{
    if i < 0 || i >= entries.len() {
        Ok(())
    } else if !valid_category(entries[i].0) {
        Err("Invalid category: "@ + entries[i].0)
    } else if entries[i].1.len() > 15 {
        Err("Value too long for "@ + entries[i].0 + ": "@ + entries[i].1)
    } else {
        constraint_check_from(entries, i + 1)
    }
}

/// The constraint fragment: category–value pairs. The categories act as
/// keys; entries are kept in insertion order.
#[derive(Debug, Clone)]
pub struct ConstraintFragment {
    pub constraints: Vec<(String, String)>,
}

impl ConstraintFragment {
    /// The entry values in order.
    pub open spec fn entries_view(self) -> Seq<(Seq<char>, Seq<char>)> {
        self.constraints@.map_values(|e: (String, String)| (e.0@, e.1@))
    }

    /// What validation returns: every category known, every value at most
    /// fifteen characters.
    pub open spec fn validate_spec(self) -> Result<(), Seq<char>> {
        constraint_check_from(self.entries_view(), 0)
    }

    /// Check the fragment: each category must be one of the recognized
    /// ones, and each value at most fifteen characters long.
    pub fn validate(&self) -> (r: Result<(), String>)
        ensures
            validation_view(r) == self.validate_spec(),
    {
        let ghost ev = self.entries_view();
        let n = self.constraints.len();
        let mut i: usize = 0;
        while i < n
            invariant
                ev == self.entries_view(),
                n == self.constraints@.len(),
                i <= n,
                constraint_check_from(ev, 0) == constraint_check_from(ev, i as int),
            decreases n - i,
        {
            let category = &self.constraints[i].0;
            let value = &self.constraints[i].1;
            proof {
                assert(ev[i as int] == (category@, value@));
            }
            let c = category.as_str();
            let known = str_eq(c, "platform") || str_eq(c, "language") || str_eq(c, "framework")
                || str_eq(c, "compliance") || str_eq(c, "performance") || str_eq(c, "security");
            if !known {
                let mut msg = String::from_str("Invalid category: ");
                msg.append(category.as_str());
                return Err(msg);
            }
            if value.as_str().unicode_len() > 15 {
                let mut msg = String::from_str("Value too long for ");
                msg.append(category.as_str());
                msg.append(": ");
                msg.append(value.as_str());
                proof {
                    assert(msg@ =~= "Value too long for "@ + category@ + ": "@ + value@);
                }
                return Err(msg);
            }
            i = i + 1;
        }
        Ok(())
    }
}

impl Default for ConstraintFragment {
    fn default() -> (r: ConstraintFragment)
        ensures
            r.constraints@.len() == 0,
    {
        ConstraintFragment { constraints: Vec::new() }
    }
}

/// Whether one example scenario passes validation: input and output each
/// at most forty characters.
pub open spec fn scenario_ok(e: (Seq<char>, Seq<char>)) -> bool {
    e.0.len() <= 40 && e.1.len() <= 40
}

/// The validation outcome for the scenarios from index `i` on.
pub open spec fn example_check_from(scenarios: Seq<(Seq<char>, Seq<char>)>, i: int) -> Result<
    (),
    Seq<char>,
>
    decreases scenarios.len() - i,
{
    if i < 0 || i >= scenarios.len() {
        Ok(())
    } else if !scenario_ok(scenarios[i]) {
        Err("Example too long (max 40 chars)"@)
    } else {
        example_check_from(scenarios, i + 1)
    }
}

/// The example fragment: input–output pairs.
#[derive(Debug, Clone)]
pub struct ExampleFragment {
    pub scenarios: Vec<(String, String)>,
}

impl ExampleFragment {
    /// The scenario values in order.
    pub open spec fn scenarios_view(self) -> Seq<(Seq<char>, Seq<char>)> {
        self.scenarios@.map_values(|e: (String, String)| (e.0@, e.1@))
    }

    /// What validation returns: at least one scenario, each side at most
    /// forty characters.
    pub open spec fn validate_spec(self) -> Result<(), Seq<char>> {
        if self.scenarios@.len() == 0 {
            Err("At least 1 example required"@)
        } else {
            example_check_from(self.scenarios_view(), 0)
        }
    }

    /// Check the fragment: at least one scenario is required, and each
    /// input and output may hold at most forty characters.
    pub fn validate(&self) -> (r: Result<(), String>)
        ensures
            validation_view(r) == self.validate_spec(),
    {
        let ghost sv = self.scenarios_view();
        let n = self.scenarios.len();
        if n == 0 {
            return Err(String::from_str("At least 1 example required"));
        }
        let mut i: usize = 0;
        while i < n
            invariant
                sv == self.scenarios_view(),
                n == self.scenarios@.len(),
                i <= n,
                example_check_from(sv, 0) == example_check_from(sv, i as int),
            decreases n - i,
        {
            let input = &self.scenarios[i].0;
            let output = &self.scenarios[i].1;
            proof {
                assert(sv[i as int] == (input@, output@));
            }
            if input.as_str().unicode_len() > 40 || output.as_str().unicode_len() > 40 {
                return Err(String::from_str("Example too long (max 40 chars)"));
            }
            i = i + 1;
        }
        Ok(())
    }
}

impl Default for ExampleFragment {
    fn default() -> (r: ExampleFragment)
        ensures
            r.scenarios@.len() == 0,
    {
        ExampleFragment { scenarios: Vec::new() }
    }
}

/// A complete project blueprint: all four fragments together.
#[derive(Debug, Clone)]
pub struct ProjectBlueprint {
    pub domain: DomainFragment,
    pub flow: FlowFragment,
    pub constraints: ConstraintFragment,
    pub examples: ExampleFragment,
}

impl ProjectBlueprint {
    /// What validation returns: the first failing fragment's message, in
    /// the order domain, flow, constraints, examples.
    pub open spec fn validate_spec(self) -> Result<(), Seq<char>> {
        if self.domain.validate_spec() is Err {
            self.domain.validate_spec()
        } else if self.flow.validate_spec() is Err {
            self.flow.validate_spec()
        } else if self.constraints.validate_spec() is Err {
            self.constraints.validate_spec()
        } else {
            self.examples.validate_spec()
        }
    }

    /// Check every fragment, reporting the first failure.
    pub fn validate(&self) -> (r: Result<(), String>)
        ensures
            validation_view(r) == self.validate_spec(),
    {
        match self.domain.validate() {
            Err(m) => {
                return Err(m);
            },
            Ok(()) => {},
        }
        match self.flow.validate() {
            Err(m) => {
                return Err(m);
            },
            Ok(()) => {},
        }
        match self.constraints.validate() {
            Err(m) => {
                return Err(m);
            },
            Ok(()) => {},
        }
        match self.examples.validate() {
            Err(m) => {
                return Err(m);
            },
            Ok(()) => {},
        }
        Ok(())
    }
}

/// The generated blueprint files, one string per fragment.
#[derive(Debug, Clone)]
pub struct SbpFiles {
    pub domain_sbp: String,
    pub flow_sbp: String,
    pub constraints_sbp: String,
    pub examples_sbp: String,
}

} // verus!
