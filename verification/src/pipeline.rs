//! The fragment-extraction pipeline: the response validator and the four
//! parsers that turn a model's plain-text answers into semantic fragments.
//!
//! Querying the model is asynchronous network work and lives with the
//! embedding application; it hands the response text to the parsers here.

use vstd::prelude::*;

use crate::fragments::{ConstraintFragment, DomainFragment, ExampleFragment, FlowFragment};
use crate::strutil::{
    contains_spec, contains_str, count_lines, find_char_from, lemma_next_occurrence, lines_spec,
    next_occurrence, split_lines, starts_with, starts_with_spec, str_eq, strings_view, trim_spec,
    trim_str,
};

verus! {

/// The piece of `l` between its first and second colon; everything after
/// the first colon when there is no second; empty when there is no colon.
pub open spec fn second_colon_piece(l: Seq<char>) -> Seq<char> {
    let i1 = next_occurrence(l, ':', 0);
    if i1 >= l.len() {
        Seq::empty()
    } else {
        let i2 = next_occurrence(l, ':', i1 + 1);
        l.subrange(i1 + 1, if i2 < l.len() {
            i2
        } else {
            l.len() as int
        })
    }
}

/// Cut the piece of `l` between its first and second colon.
fn second_colon_piece_of(l: &str) -> (r: String)
    ensures
        r@ == second_colon_piece(l@),
{
    let n = l.unicode_len();
    let i1 = find_char_from(l, ':', 0);
    proof {
        lemma_next_occurrence(l@, ':', 0);
    }
    if i1 >= n {
        return String::new();
    }
    let i2 = find_char_from(l, ':', i1 + 1);
    proof {
        lemma_next_occurrence(l@, ':', i1 + 1);
    }
    let end = if i2 < n {
        i2
    } else {
        n
    };
    l.substring_char(i1 + 1, end).to_owned()
}

/// The trimmed, non-empty, comma-separated pieces of `s` from position `p`
/// on, stopping once `taken` reaches three collected pieces.
pub open spec fn concerns_from(s: Seq<char>, p: int, taken: int) -> Seq<Seq<char>>
    decreases s.len() - p,
        via concerns_from_decreases
{
    if p < 0 || p > s.len() || taken >= 3 {
        Seq::empty()
    } else {
        let i = next_occurrence(s, ',', p);
        let t = trim_spec(s.subrange(p, i));
        if i >= s.len() {
            if t.len() > 0 {
                seq![t]
            } else {
                Seq::empty()
            }
        } else {
            (if t.len() > 0 {
                seq![t]
            } else {
                Seq::empty()
            }) + concerns_from(s, i + 1, taken + (if t.len() > 0 {
                1int
            } else {
                0int
            }))
        }
    }
}

#[via_fn]
proof fn concerns_from_decreases(s: Seq<char>, p: int, taken: int) {
    if 0 <= p <= s.len() && taken < 3 {
        lemma_next_occurrence(s, ',', p);
    }
}

/// Split `piece` at commas, trim each part, drop the empty ones, and keep
/// at most the first three.
fn parse_concerns(piece: &str) -> (r: Vec<String>)
    ensures
        strings_view(r@) == concerns_from(piece@, 0, 0),
{
    let n = piece.unicode_len();
    let mut out: Vec<String> = Vec::new();
    let mut taken: usize = 0;
    let mut p: usize = 0;
    let mut done = false;
    while !done
        invariant
            n == piece@.len(),
            p <= n,
            taken <= 3,
            taken == out@.len(),
            !done ==> strings_view(out@) + concerns_from(piece@, p as int, taken as int)
                =~= concerns_from(piece@, 0, 0),
            done ==> strings_view(out@) =~= concerns_from(piece@, 0, 0),
        decreases n - p + 1, (if done {
            0int
        } else {
            1int
        }),
    {
        if taken >= 3 {
            done = true;
        } else {
            let i = find_char_from(piece, ',', p);
            proof {
                lemma_next_occurrence(piece@, ',', p as int);
            }
            let seg = piece.substring_char(p, i);
            let t = trim_str(seg);
            let keep = t.as_str().unicode_len() > 0;
            let ghost before = strings_view(out@);
            if keep {
                out.push(t);
                taken = taken + 1;
            }
            proof {
                assert(strings_view(out@) =~= before + (if keep {
                    seq![trim_spec(piece@.subrange(p as int, i as int))]
                } else {
                    Seq::<Seq<char>>::empty()
                }));
            }
            if i >= n {
                done = true;
                proof {
                    assert(strings_view(out@) =~= concerns_from(piece@, 0, 0));
                }
            } else {
                p = i + 1;
            }
        }
    }
    out
}

/// The accumulated domain fields: primary, concerns, scale, sensitivity.
pub type DomainFields = (Seq<char>, Seq<Seq<char>>, Seq<char>, Seq<char>);

/// One response line applied to the accumulated domain fields: a line with
/// a recognized prefix overwrites its field, any other line is ignored.
pub open spec fn apply_domain_line(acc: DomainFields, l: Seq<char>) -> DomainFields {
    if starts_with_spec(l, "domain:"@) {
        (trim_spec(second_colon_piece(l)), acc.1, acc.2, acc.3)
    } else if starts_with_spec(l, "concerns:"@) {
        (acc.0, concerns_from(second_colon_piece(l), 0, 0), acc.2, acc.3)
    } else if starts_with_spec(l, "scale:"@) {
        (acc.0, acc.1, trim_spec(second_colon_piece(l)), acc.3)
    } else if starts_with_spec(l, "sensitivity:"@) {
        (acc.0, acc.1, acc.2, trim_spec(second_colon_piece(l)))
    } else {
        acc
    }
}

/// The domain fields after applying the lines from index `i` on.
pub open spec fn parse_domain_from(lines: Seq<Seq<char>>, i: int, acc: DomainFields) -> DomainFields
    decreases lines.len() - i,
{
    if i < 0 || i >= lines.len() {
        acc
    } else {
        parse_domain_from(lines, i + 1, apply_domain_line(acc, lines[i]))
    }
}

/// The empty domain fields every parse starts from.
pub open spec fn empty_domain_fields() -> DomainFields {
    (Seq::empty(), Seq::empty(), Seq::empty(), Seq::empty())
}

/// The trimmed, non-empty lines from index `i` on.
pub open spec fn nonblank_lines_from(lines: Seq<Seq<char>>, i: int) -> Seq<Seq<char>>
    decreases lines.len() - i,
{
    if i < 0 || i >= lines.len() {
        Seq::empty()
    } else {
        (if trim_spec(lines[i]).len() > 0 {
            seq![trim_spec(lines[i])]
        } else {
            Seq::empty()
        }) + nonblank_lines_from(lines, i + 1)
    }
}

/// The entries with `k` set to `v`: the first entry already keyed `k` is
/// overwritten, otherwise the pair is appended.
pub open spec fn upsert(es: Seq<(Seq<char>, Seq<char>)>, k: Seq<char>, v: Seq<char>) -> Seq<
    (Seq<char>, Seq<char>),
> {
    let j = find_key(es, k, 0);
    if j < es.len() {
        es.update(j, (k, v))
    } else {
        es.push((k, v))
    }
}

/// The first index at or after `i` whose entry is keyed `k`, or the length
/// when there is none.
pub open spec fn find_key(es: Seq<(Seq<char>, Seq<char>)>, k: Seq<char>, i: int) -> int
    decreases es.len() - i,
{
    if i < 0 || i >= es.len() {
        es.len() as int
    } else if es[i].0 == k {
        i
    } else {
        find_key(es, k, i + 1)
    }
}

proof fn lemma_find_key(es: Seq<(Seq<char>, Seq<char>)>, k: Seq<char>, i: int)
    requires
        0 <= i <= es.len(),
    ensures
        i <= find_key(es, k, i) <= es.len(),
        find_key(es, k, i) < es.len() ==> es[find_key(es, k, i)].0 == k,
        forall|j: int| i <= j < find_key(es, k, i) ==> es[j].0 != k,
    decreases es.len() - i,
{
    if i < es.len() && es[i].0 != k {
        lemma_find_key(es, k, i + 1);
    }
}

/// One response line applied to the constraint entries: a line with a
/// colon upserts its trimmed key and value, any other line is ignored.
pub open spec fn apply_constraint_line(es: Seq<(Seq<char>, Seq<char>)>, l: Seq<char>) -> Seq<
    (Seq<char>, Seq<char>),
> {
    let i = next_occurrence(l, ':', 0);
    if i >= l.len() {
        es
    } else {
        upsert(es, trim_spec(l.subrange(0, i)), trim_spec(l.subrange(i + 1, l.len() as int)))
    }
}

/// The constraint entries after applying the lines from index `i` on.
pub open spec fn parse_constraints_from(
    lines: Seq<Seq<char>>,
    i: int,
    es: Seq<(Seq<char>, Seq<char>)>,
) -> Seq<(Seq<char>, Seq<char>)>
    decreases lines.len() - i,
{
    if i < 0 || i >= lines.len() {
        es
    } else {
        parse_constraints_from(lines, i + 1, apply_constraint_line(es, lines[i]))
    }
}

/// The example pairs read from consecutive line pairs from index `i` on:
/// a pair whose first line starts `INPUT:` and second `OUTPUT:` yields the
/// trimmed remainders; a trailing unpaired line is ignored.
pub open spec fn examples_from(lines: Seq<Seq<char>>, i: int) -> Seq<(Seq<char>, Seq<char>)>
    decreases lines.len() - i,
{
    if i < 0 || i + 1 >= lines.len() {
        Seq::empty()
    } else {
        (if starts_with_spec(lines[i], "INPUT:"@) && starts_with_spec(lines[i + 1], "OUTPUT:"@) {
            seq![
                (
                    trim_spec(lines[i].skip("INPUT:"@.len() as int)),
                    trim_spec(lines[i + 1].skip("OUTPUT:"@.len() as int)),
                ),
            ]
        } else {
            Seq::empty()
        }) + examples_from(lines, i + 2)
    }
}

/// Executes the fragment-extraction steps on response text the embedding
/// application obtained from the model.
#[derive(Debug, Clone, Copy, PartialEq, Eq, Structural)]
pub struct InitPipeline;

impl InitPipeline {
    pub fn new() -> (r: InitPipeline)
        ensures
            r == InitPipeline,
    {
        InitPipeline
    }

    /// Whether a response obeys the format constraints: non-empty, at most
    /// fifteen lines, and free of markdown fences, bold markers and
    /// headers.
    pub fn validate_response(&self, response: &str) -> (r: bool)
        ensures
            r == (response@.len() > 0 && lines_spec(response@).len() <= 15 && !contains_spec(
                response@,
                "```"@,
            ) && !contains_spec(response@, "**"@) && !contains_spec(response@, "##"@)),
    {
        if response.unicode_len() == 0 {
            return false;
        }
        if count_lines(response) > 15 {
            return false;
        }
        !contains_str(response, "```") && !contains_str(response, "**") && !contains_str(
            response,
            "##",
        )
    }

    /// Read the domain fragment from a response: the last `domain:`,
    /// `concerns:`, `scale:` and `sensitivity:` lines fill the fields, the
    /// concerns split at commas and capped at three.
    pub fn parse_domain_fragment(&self, response: &str) -> (r: Result<DomainFragment, String>)
        ensures
            r matches Ok(f) ==> {
                let fields = parse_domain_from(lines_spec(response@), 0, empty_domain_fields());
                &&& f.primary@ == fields.0
                &&& strings_view(f.secondary_concerns@) == fields.1
                &&& f.scale_category@ == fields.2
                &&& f.data_sensitivity@ == fields.3
            },
            r is Ok,
    {
        let lines = split_lines(response);
        let ghost lv = lines_spec(response@);

        let mut fragment = DomainFragment::default();
        proof {
            assert(fragment.primary@ =~= Seq::<char>::empty());
            assert(strings_view(fragment.secondary_concerns@) =~= Seq::<Seq<char>>::empty());
            assert(fragment.scale_category@ =~= Seq::<char>::empty());
            assert(fragment.data_sensitivity@ =~= Seq::<char>::empty());
        }
        let n = lines.len();
        let mut i: usize = 0;
        while i < n
            invariant
                lv == strings_view(lines@),
                n == lines@.len(),
                i <= n,
                parse_domain_from(lv, i as int, (fragment.primary@, strings_view(
                    fragment.secondary_concerns@,
                ), fragment.scale_category@, fragment.data_sensitivity@))
                    == parse_domain_from(lv, 0, empty_domain_fields()),
            decreases n - i,
        {
            let line = &lines[i];
            let ghost acc = (
                fragment.primary@,
                strings_view(fragment.secondary_concerns@),
                fragment.scale_category@,
                fragment.data_sensitivity@,
            );
            proof {
                assert(lv[i as int] == line@);
            }
            if starts_with(line.as_str(), "domain:") {
                let piece = second_colon_piece_of(line.as_str());
                fragment.primary = trim_str(piece.as_str());
            } else if starts_with(line.as_str(), "concerns:") {
                let piece = second_colon_piece_of(line.as_str());
                fragment.secondary_concerns = parse_concerns(piece.as_str());
            } else if starts_with(line.as_str(), "scale:") {
                let piece = second_colon_piece_of(line.as_str());
                fragment.scale_category = trim_str(piece.as_str());
            } else if starts_with(line.as_str(), "sensitivity:") {
                let piece = second_colon_piece_of(line.as_str());
                fragment.data_sensitivity = trim_str(piece.as_str());
            }
            proof {
                assert((fragment.primary@, strings_view(fragment.secondary_concerns@),
                fragment.scale_category@, fragment.data_sensitivity@) == apply_domain_line(
                    acc,
                    lv[i as int],
                ));
            }
            i = i + 1;
        }
        Ok(fragment)
    }

    /// Read the flow fragment from a response: every trimmed, non-empty
    /// line is one action.
    pub fn parse_flow_fragment(&self, response: &str) -> (r: Result<FlowFragment, String>)
        ensures
            r matches Ok(f) ==> strings_view(f.actions@) == nonblank_lines_from(
                lines_spec(response@),
                0,
            ),
            r is Ok,
    {
        let lines = split_lines(response);
        let ghost lv = lines_spec(response@);

        let mut actions: Vec<String> = Vec::new();
        let n = lines.len();
        let mut i: usize = 0;
        while i < n
            invariant
                lv == strings_view(lines@),
                n == lines@.len(),
                i <= n,
                strings_view(actions@) + nonblank_lines_from(lv, i as int) =~= nonblank_lines_from(
                    lv,
                    0,
                ),
            decreases n - i,
        {
            proof {
                assert(lv[i as int] == lines@[i as int]@);
            }
            let t = trim_str(lines[i].as_str());
            let ghost before = strings_view(actions@);
            if t.as_str().unicode_len() > 0 {
                actions.push(t);
                proof {
                    assert(strings_view(actions@) =~= before + seq![trim_spec(lv[i as int])]);
                }
            }
            proof {
                assert(strings_view(actions@) + nonblank_lines_from(lv, i + 1)
                    =~= nonblank_lines_from(lv, 0));
            }
            i = i + 1;
        }
        Ok(FlowFragment { actions })
    }

    /// Read the constraint fragment from a response: each line with a
    /// colon contributes its trimmed key and value, later lines
    /// overwriting earlier ones with the same key.
    pub fn parse_constraint_fragment(&self, response: &str) -> (r: Result<
        ConstraintFragment,
        String,
    >)
        ensures
            r matches Ok(f) ==> f.entries_view() == parse_constraints_from(
                lines_spec(response@),
                0,
                Seq::empty(),
            ),
            r is Ok,
    {
        let lines = split_lines(response);
        let ghost lv = lines_spec(response@);

        let mut fragment = ConstraintFragment::default();
        proof {
            assert(fragment.entries_view() =~= Seq::<(Seq<char>, Seq<char>)>::empty());
        }
        let n = lines.len();
        let mut i: usize = 0;
        while i < n
            invariant
                lv == strings_view(lines@),
                n == lines@.len(),
                i <= n,
                parse_constraints_from(lv, i as int, fragment.entries_view())
                    == parse_constraints_from(lv, 0, Seq::empty()),
            decreases n - i,
        {
            let line = &lines[i];
            proof {
                assert(lv[i as int] == line@);
            }
            let ln = line.as_str().unicode_len();
            let ci = find_char_from(line.as_str(), ':', 0);
            proof {
                lemma_next_occurrence(line@, ':', 0);
            }
            if ci < ln {
                let key = trim_str(line.as_str().substring_char(0, ci));
                let value = trim_str(line.as_str().substring_char(ci + 1, ln));
                self.upsert_entry(&mut fragment, key, value);
            }
            i = i + 1;
        }
        Ok(fragment)
    }

    /// Set `key` to `value` among the entries: overwrite the first entry
    /// with that key, or append the pair when the key is new.
    fn upsert_entry(&self, fragment: &mut ConstraintFragment, key: String, value: String)
        ensures
            final(fragment).entries_view() == upsert(old(fragment).entries_view(), key@, value@),
    {
        let ghost ev = fragment.entries_view();
        let n = fragment.constraints.len();
        let mut j: usize = 0;
        while j < n
            invariant
                ev == fragment.entries_view(),
                ev == old(fragment).entries_view(),
                n == fragment.constraints@.len(),
                j <= n,
                find_key(ev, key@, 0) == find_key(ev, key@, j as int),
            decreases n - j,
        {
            proof {
                assert(ev[j as int] == (fragment.constraints@[j as int].0@, fragment.constraints@[
                    j as int].1@));
            }
            if str_eq(fragment.constraints[j].0.as_str(), key.as_str()) {
                proof {
                    assert(find_key(ev, key@, j as int) == j);
                }
                let ghost kv = (key@, value@);
                fragment.constraints.set(j, (key, value));
                proof {
                    assert(fragment.entries_view() =~= ev.update(j as int, kv));
                }
                return;
            }
            j = j + 1;
        }
        proof {
            assert(find_key(ev, key@, 0) == ev.len());
        }
        let ghost kv = (key@, value@);
        fragment.constraints.push((key, value));
        proof {
            assert(fragment.entries_view() =~= ev.push(kv));
        }
    }

    /// Read the example fragment from a response: consecutive line pairs
    /// tagged `INPUT:` and `OUTPUT:` become scenarios.
    pub fn parse_example_fragment(&self, response: &str) -> (r: Result<ExampleFragment, String>)
        ensures
            r matches Ok(f) ==> f.scenarios_view() == examples_from(lines_spec(response@), 0),
            r is Ok,
    {
        let lines = split_lines(response);
        let ghost lv = lines_spec(response@);

        let mut fragment = ExampleFragment::default();
        proof {
            assert(fragment.scenarios_view() =~= Seq::<(Seq<char>, Seq<char>)>::empty());
        }
        let n = lines.len();
        let mut i: usize = 0;
        while i + 1 < n
            invariant
                lv == strings_view(lines@),
                n == lines@.len(),
                i % 2 == 0,
                fragment.scenarios_view() + examples_from(lv, i as int) =~= examples_from(lv, 0),
            decreases n - i,
        {
            let input = &lines[i];
            let output = &lines[i + 1];
            proof {
                assert(lv[i as int] == input@);
                assert(lv[i + 1] == output@);
            }
            let ghost before = fragment.scenarios_view();
            proof {
                reveal_strlit("INPUT:");
                reveal_strlit("OUTPUT:");
                assert("INPUT:"@.len() == 6);
                assert("OUTPUT:"@.len() == 7);
            }
            if starts_with(input.as_str(), "INPUT:") && starts_with(output.as_str(), "OUTPUT:") {
                let in_len = input.as_str().unicode_len();
                let out_len = output.as_str().unicode_len();
                let input_val = trim_str(input.as_str().substring_char(6, in_len));
                let output_val = trim_str(output.as_str().substring_char(7, out_len));
                fragment.scenarios.push((input_val, output_val));
                proof {
                    reveal_strlit("INPUT:");
                    reveal_strlit("OUTPUT:");
                    assert(input@.subrange(6, input@.len() as int) =~= input@.skip(
                        "INPUT:"@.len() as int,
                    ));
                    assert(output@.subrange(7, output@.len() as int) =~= output@.skip(
                        "OUTPUT:"@.len() as int,
                    ));
                    assert(fragment.scenarios_view() =~= before + seq![
                        (
                            trim_spec(lv[i as int].skip("INPUT:"@.len() as int)),
                            trim_spec(lv[i + 1].skip("OUTPUT:"@.len() as int)),
                        ),
                    ]);
                }
            }
            proof {
                assert(fragment.scenarios_view() + examples_from(lv, i + 2) =~= examples_from(
                    lv,
                    0,
                ));
            }
            i = i + 2;
        }
        Ok(fragment)
    }
}

} // verus!
