//! The blueprint file assembler: converts validated semantic fragments
//! into deterministic blueprint file text.

use vstd::prelude::*;

use crate::fragments::{
    ConstraintFragment, DomainFragment, ExampleFragment, FlowFragment, ProjectBlueprint, SbpFiles,
};
use crate::strutil::{dec_rep, usize_to_string};

verus! {

/// One indented line per concern.
pub open spec fn concern_lines_from(cs: Seq<Seq<char>>, i: int) -> Seq<char>
    decreases cs.len() - i,
{
    if i < 0 || i >= cs.len() {
        Seq::empty()
    } else {
        "    "@ + cs[i] + "\n"@ + concern_lines_from(cs, i + 1)
    }
}

/// The domain file text: the primary domain, then the optional concern
/// list, scale and sensitivity entries.
pub open spec fn domain_sbp_spec(
    primary: Seq<char>,
    concerns: Seq<Seq<char>>,
    scale: Seq<char>,
    sensitivity: Seq<char>,
) -> Seq<char> {
    "DOMAIN {\n"@ + "  primary: "@ + primary + "\n"@ + (if concerns.len() > 0 {
        "  concerns: [\n"@ + concern_lines_from(concerns, 0) + "  ]\n"@
    } else {
        Seq::empty()
    }) + (if scale.len() > 0 {
        "  scale: "@ + scale + "\n"@
    } else {
        Seq::empty()
    }) + (if sensitivity.len() > 0 {
        "  sensitivity: "@ + sensitivity + "\n"@
    } else {
        Seq::empty()
    }) + "}\n"@
}

/// One numbered line per action, capped at the first ten.
pub open spec fn flow_lines_from(acts: Seq<Seq<char>>, i: int) -> Seq<char>
    decreases acts.len() - i,
{
    if i < 0 || i >= acts.len() || i >= 10 {
        Seq::empty()
    } else {
        "    "@ + dec_rep(i + 1) + ": "@ + acts[i] + "\n"@ + flow_lines_from(acts, i + 1)
    }
}

/// The flow file text: the numbered action list.
pub open spec fn flow_sbp_spec(acts: Seq<Seq<char>>) -> Seq<char> {
    "FLOW {\n"@ + "  actions: [\n"@ + flow_lines_from(acts, 0) + "  ]\n"@ + "}\n"@
}

/// One indented line per constraint entry.
pub open spec fn constraint_lines_from(es: Seq<(Seq<char>, Seq<char>)>, i: int) -> Seq<char>
    decreases es.len() - i,
{
    if i < 0 || i >= es.len() {
        Seq::empty()
    } else {
        "  "@ + es[i].0 + ": "@ + es[i].1 + "\n"@ + constraint_lines_from(es, i + 1)
    }
}

/// The constraints file text.
pub open spec fn constraints_sbp_spec(es: Seq<(Seq<char>, Seq<char>)>) -> Seq<char> {
    "CONSTRAINTS {\n"@ + constraint_lines_from(es, 0) + "}\n"@
}

/// `s` with every double quote preceded by a backslash.
pub open spec fn escape_quotes_from(s: Seq<char>, i: int) -> Seq<char>
    decreases s.len() - i,
{
    if i < 0 || i >= s.len() {
        Seq::empty()
    } else {
        (if s[i] == '"' {
            seq!['\\', '"']
        } else {
            seq![s[i]]
        }) + escape_quotes_from(s, i + 1)
    }
}

/// One numbered block per scenario, capped at the first three, with the
/// input and output quoted and escaped.
pub open spec fn example_blocks_from(es: Seq<(Seq<char>, Seq<char>)>, i: int) -> Seq<char>
    decreases es.len() - i,
{
    if i < 0 || i >= es.len() || i >= 3 {
        Seq::empty()
    } else {
        "    "@ + dec_rep(i + 1) + " {\n      input: \""@ + escape_quotes_from(es[i].0, 0)
            + "\"\n      output: \""@ + escape_quotes_from(es[i].1, 0) + "\"\n    }\n"@
            + example_blocks_from(es, i + 1)
    }
}

/// The examples file text.
pub open spec fn examples_sbp_spec(es: Seq<(Seq<char>, Seq<char>)>) -> Seq<char> {
    "EXAMPLES {\n"@ + "  scenarios: [\n"@ + example_blocks_from(es, 0) + "  ]\n"@ + "}\n"@
}

/// Escape every double quote in `s` with a backslash.
fn escape_quotes(s: &str) -> (r: String)
    ensures
        r@ == escape_quotes_from(s@, 0),
{
    let n = s.unicode_len();
    let mut out = String::new();
    let mut i: usize = 0;
    while i < n
        invariant
            n == s@.len(),
            i <= n,
            out@ + escape_quotes_from(s@, i as int) =~= escape_quotes_from(s@, 0),
        decreases n - i,
    {
        let c = s.get_char(i);
        if c == '"' {
            out.push('\\');
            out.push('"');
        } else {
            out.push(c);
        }
        proof {
            assert(out@ + escape_quotes_from(s@, i + 1) =~= escape_quotes_from(s@, 0));
        }
        i = i + 1;
    }
    out
}

/// Assembles blueprint files from validated fragments.
#[derive(Debug, Clone, Copy, PartialEq, Eq, Structural)]
pub struct SbpAssembler;

impl SbpAssembler {
    pub fn new() -> (r: SbpAssembler)
        ensures
            r == SbpAssembler,
    {
        SbpAssembler
    }

    /// Convert a blueprint into its four files, rejecting an invalid
    /// blueprint with its first validation failure.
    pub fn assemble(&self, blueprint: &ProjectBlueprint) -> (r: Result<SbpFiles, String>)
        ensures
            r matches Err(m) ==> blueprint.validate_spec() matches Err(e) && m@
                == "Invalid blueprint: "@ + e,
            r matches Ok(files) ==> {
                &&& blueprint.validate_spec() is Ok
                &&& files.domain_sbp@ == domain_sbp_spec(
                    blueprint.domain.primary@,
                    blueprint.domain.secondary_concerns@.map_values(|c: String| c@),
                    blueprint.domain.scale_category@,
                    blueprint.domain.data_sensitivity@,
                )
                &&& files.flow_sbp@ == flow_sbp_spec(
                    blueprint.flow.actions@.map_values(|a: String| a@),
                )
                &&& files.constraints_sbp@ == constraints_sbp_spec(
                    blueprint.constraints.entries_view(),
                )
                &&& files.examples_sbp@ == examples_sbp_spec(blueprint.examples.scenarios_view())
            },
    {
        match blueprint.validate() {
            Err(e) => {
                let mut msg = String::from_str("Invalid blueprint: ");
                msg.append(e.as_str());
                Err(msg)
            },
            Ok(()) => {
                let domain_sbp = self.assemble_domain_sbp(&blueprint.domain);
                let flow_sbp = self.assemble_flow_sbp(&blueprint.flow);
                let constraints_sbp = self.assemble_constraints_sbp(&blueprint.constraints);
                let examples_sbp = self.assemble_examples_sbp(&blueprint.examples);
                Ok(SbpFiles { domain_sbp, flow_sbp, constraints_sbp, examples_sbp })
            },
        }
    }

    /// Build the domain file from a domain fragment.
    pub fn assemble_domain_sbp(&self, fragment: &DomainFragment) -> (r: String)
        ensures
            r@ == domain_sbp_spec(
                fragment.primary@,
                fragment.secondary_concerns@.map_values(|c: String| c@),
                fragment.scale_category@,
                fragment.data_sensitivity@,
            ),
    {
        let ghost cv = fragment.secondary_concerns@.map_values(|c: String| c@);
        let mut sbp = String::from_str("DOMAIN {\n");
        sbp.append("  primary: ");
        sbp.append(fragment.primary.as_str());
        sbp.append("\n");

        if fragment.secondary_concerns.len() > 0 {
            sbp.append("  concerns: [\n");
            let ghost head = sbp@;
            let n = fragment.secondary_concerns.len();
            let mut i: usize = 0;
            while i < n
                invariant
                    cv == fragment.secondary_concerns@.map_values(|c: String| c@),
                    n == fragment.secondary_concerns@.len(),
                    i <= n,
                    sbp@ + concern_lines_from(cv, i as int) =~= head + concern_lines_from(cv, 0),
                decreases n - i,
            {
                sbp.append("    ");
                sbp.append(fragment.secondary_concerns[i].as_str());
                sbp.append("\n");
                proof {
                    assert(sbp@ + concern_lines_from(cv, i + 1) =~= head + concern_lines_from(
                        cv,
                        0,
                    ));
                }
                i = i + 1;
            }
            sbp.append("  ]\n");
        }

        if fragment.scale_category.as_str().unicode_len() > 0 {
            sbp.append("  scale: ");
            sbp.append(fragment.scale_category.as_str());
            sbp.append("\n");
        }

        if fragment.data_sensitivity.as_str().unicode_len() > 0 {
            sbp.append("  sensitivity: ");
            sbp.append(fragment.data_sensitivity.as_str());
            sbp.append("\n");
        }

        sbp.append("}\n");
        proof {
            assert(sbp@ =~= domain_sbp_spec(
                fragment.primary@,
                cv,
                fragment.scale_category@,
                fragment.data_sensitivity@,
            ));
        }
        sbp
    }

    /// Build the flow file from a flow fragment, numbering at most the
    /// first ten actions.
    pub fn assemble_flow_sbp(&self, fragment: &FlowFragment) -> (r: String)
        ensures
            r@ == flow_sbp_spec(fragment.actions@.map_values(|a: String| a@)),
    {
        let ghost av = fragment.actions@.map_values(|a: String| a@);
        let mut sbp = String::from_str("FLOW {\n");
        sbp.append("  actions: [\n");
        let ghost head = sbp@;

        let n = fragment.actions.len();
        let limit = if n < 10 {
            n
        } else {
            10
        };
        let mut i: usize = 0;
        while i < limit
            invariant
                av == fragment.actions@.map_values(|a: String| a@),
                n == fragment.actions@.len(),
                limit == (if n < 10 {
                    n as int
                } else {
                    10int
                }),
                i <= limit,
                sbp@ + flow_lines_from(av, i as int) =~= head + flow_lines_from(av, 0),
            decreases limit - i,
        {
            sbp.append("    ");
            sbp.append(usize_to_string(i + 1).as_str());
            sbp.append(": ");
            sbp.append(fragment.actions[i].as_str());
            sbp.append("\n");
            proof {
                assert(sbp@ + flow_lines_from(av, i + 1) =~= head + flow_lines_from(av, 0));
            }
            i = i + 1;
        }

        sbp.append("  ]\n");
        sbp.append("}\n");
        proof {
            assert(flow_lines_from(av, limit as int) =~= Seq::<char>::empty());
            assert(sbp@ =~= flow_sbp_spec(av));
        }
        sbp
    }

    /// Build the constraints file from a constraint fragment.
    pub fn assemble_constraints_sbp(&self, fragment: &ConstraintFragment) -> (r: String)
        ensures
            r@ == constraints_sbp_spec(fragment.entries_view()),
    {
        let ghost ev = fragment.entries_view();
        let mut sbp = String::from_str("CONSTRAINTS {\n");
        let ghost head = sbp@;

        let n = fragment.constraints.len();
        let mut i: usize = 0;
        while i < n
            invariant
                ev == fragment.entries_view(),
                n == fragment.constraints@.len(),
                i <= n,
                sbp@ + constraint_lines_from(ev, i as int) =~= head + constraint_lines_from(
                    ev,
                    0,
                ),
            decreases n - i,
        {
            sbp.append("  ");
            sbp.append(fragment.constraints[i].0.as_str());
            sbp.append(": ");
            sbp.append(fragment.constraints[i].1.as_str());
            sbp.append("\n");
            proof {
                assert(ev[i as int] == (fragment.constraints@[i as int].0@, fragment.constraints@[
                    i as int].1@));
                assert(sbp@ + constraint_lines_from(ev, i + 1) =~= head + constraint_lines_from(
                    ev,
                    0,
                ));
            }
            i = i + 1;
        }

        sbp.append("}\n");
        proof {
            assert(sbp@ =~= constraints_sbp_spec(ev));
        }
        sbp
    }

    /// Build the examples file from an example fragment, numbering at most
    /// the first three scenarios and escaping quotes in each.
    pub fn assemble_examples_sbp(&self, fragment: &ExampleFragment) -> (r: String)
        ensures
            r@ == examples_sbp_spec(fragment.scenarios_view()),
    {
        let ghost sv = fragment.scenarios_view();
        let mut sbp = String::from_str("EXAMPLES {\n");
        sbp.append("  scenarios: [\n");
        let ghost head = sbp@;

        let n = fragment.scenarios.len();
        let limit = if n < 3 {
            n
        } else {
            3
        };
        let mut i: usize = 0;
        while i < limit
            invariant
                sv == fragment.scenarios_view(),
                n == fragment.scenarios@.len(),
                limit == (if n < 3 {
                    n as int
                } else {
                    3int
                }),
                i <= limit,
                sbp@ + example_blocks_from(sv, i as int) =~= head + example_blocks_from(sv, 0),
            decreases limit - i,
        {
            let escaped_input = escape_quotes(fragment.scenarios[i].0.as_str());
            let escaped_output = escape_quotes(fragment.scenarios[i].1.as_str());
            sbp.append("    ");
            sbp.append(usize_to_string(i + 1).as_str());
            sbp.append(" {\n      input: \"");
            sbp.append(escaped_input.as_str());
            sbp.append("\"\n      output: \"");
            sbp.append(escaped_output.as_str());
            sbp.append("\"\n    }\n");
            proof {
                assert(sv[i as int] == (fragment.scenarios@[i as int].0@, fragment.scenarios@[
                    i as int].1@));
                assert(sbp@ + example_blocks_from(sv, i + 1) =~= head + example_blocks_from(
                    sv,
                    0,
                ));
            }
            i = i + 1;
        }

        sbp.append("  ]\n");
        sbp.append("}\n");
        proof {
            assert(example_blocks_from(sv, limit as int) =~= Seq::<char>::empty());
            assert(sbp@ =~= examples_sbp_spec(sv));
        }
        sbp
    }
}

} // verus!
