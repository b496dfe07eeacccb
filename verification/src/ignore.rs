//! Ignore rules: which entry names the traversal excludes.
//!
//! A rule file lists one name per line; an entry whose name equals a
//! rule in scope is excluded, together with everything below it. A
//! rule file is scoped to its own directory's subtree: the walk keeps
//! the union of the rules of the ancestor directories in scope and
//! asks [`IgnoreRules::is_excluded`] before descending. Blank lines
//! and lines opening with `#` carry no rule and are dropped without
//! aborting anything.

use vstd::prelude::*;

use crate::strops::{push_char, str_eq};
use crate::walk::lemma_filter_push;
use vstd::string::StrSliceExecFns;

verus! {

/// Splits the characters still to read into lines, continuing the
/// line `cur` that is under construction, and appending the finished
/// lines to `acc`. A trailing line without a final newline still
/// counts; a final newline adds no empty line.
pub open spec fn lines_acc(s: Seq<char>, cur: Seq<char>, acc: Seq<Seq<char>>) -> Seq<Seq<char>>
    decreases s.len(),
{
    if s.len() == 0 {
        if cur.len() > 0 {
            acc.push(cur)
        } else {
            acc
        }
    } else if s[0] == '\n' {
        lines_acc(s.drop_first(), Seq::empty(), acc.push(cur))
    } else {
        lines_acc(s.drop_first(), cur.push(s[0]), acc)
    }
}

/// The lines of a rule file's text, split at newline characters.
pub open spec fn split_lines(s: Seq<char>) -> Seq<Seq<char>> {
    lines_acc(s, Seq::empty(), Seq::empty())
}

/// Whether a line of a rule file carries a rule: it is not blank and
/// does not open with the comment mark.
pub open spec fn line_is_rule(line: Seq<char>) -> bool {
    line.len() > 0 && line[0] != '#'
}

/// The rules a rule file's text carries, in their order in the file.
pub open spec fn rules_of_text(s: Seq<char>) -> Seq<Seq<char>> {
    split_lines(s).filter(|line: Seq<char>| line_is_rule(line))
}

/// Whether some rule in scope equals this name.
pub open spec fn excluded_name(name: Seq<char>, rules: Seq<Seq<char>>) -> bool {
    exists|i: int| 0 <= i < rules.len() && rules[i] == name
}

/// The exclusion rules in scope at some directory: the union, in
/// reading order, of the rules of the rule files on the path from the
/// root down to it.
pub struct IgnoreRules {
    pub names: Vec<String>,
}

impl IgnoreRules {
    /// The rules as character sequences.
    pub open spec fn rule_views(self) -> Seq<Seq<char>> {
        self.names@.map_values(|n: String| n@)
    }

    /// An empty scope: nothing is excluded.
    pub fn new() -> (r: IgnoreRules)
        ensures
            r.rule_views() == Seq::<Seq<char>>::empty(),
    {
        let r = IgnoreRules { names: Vec::new() };
        proof {
            assert(r.rule_views() =~= Seq::<Seq<char>>::empty());
        }
        r
    }

    /// Appends the rules carried by one rule file's text to the scope,
    /// dropping blank and comment lines.
    pub fn add_rule_text(&mut self, text: &str)
        ensures
            final(self).rule_views() == old(self).rule_views() + rules_of_text(text@),
    {
        let mut lines = split_lines_exec(text);
        let ghost before = self.rule_views();
        let ghost all = lines@.map_values(|l: String| l@);
        let mut taken: usize = 0;
        proof {
            reveal(Seq::filter);
            assert(all.take(0) =~= Seq::<Seq<char>>::empty());
            assert(self.rule_views() =~= before + all.take(0).filter(
                |line: Seq<char>| line_is_rule(line),
            ));
        }
        while lines.len() > 0
            invariant
                all.len() >= lines.len(),
                lines@.map_values(|l: String| l@) == all.skip(all.len() - lines.len()),
                self.rule_views() == before + all.take(all.len() - lines.len()).filter(
                    |line: Seq<char>| line_is_rule(line),
                ),
            decreases lines.len(),
        {
            let ghost k = all.len() - lines.len();
            let ghost old_lines = lines@;
            let line = lines.remove(0);
            proof {
                assert(old_lines.map_values(|l: String| l@)[0] == old_lines[0]@);
                assert(line@ == all[k as int]);
                assert forall|j: int| 0 <= j < lines@.len() implies lines@[j]@ == all[k + 1
                    + j] by {
                    assert(old_lines.map_values(|l: String| l@)[j + 1] == old_lines[j + 1]@);
                }
                assert(lines@.map_values(|l: String| l@) =~= all.skip(k + 1));
                assert(all.take(k + 1) =~= all.take(k as int).push(all[k as int]));
                lemma_filter_push(
                    all.take(k as int),
                    |l: Seq<char>| line_is_rule(l),
                    all[k as int],
                );
            }
            let keep = if line.unicode_len() == 0 {
                false
            } else {
                line.get_char(0) != '#'
            };
            if keep {
                let ghost old_names = self.names@;
                self.names.push(line);
                proof {
                    assert(self.rule_views() =~= old_names.map_values(|n: String| n@).push(
                        all[k as int],
                    ));
                }
            }
        }
        proof {
            assert(all.take(all.len() as int) =~= all);
        }
    }

    /// The exclusion test the walk applies to every entry name before
    /// descending: excluded exactly when some rule in scope equals the
    /// name.
    pub fn is_excluded(&self, name: &str) -> (r: bool)
        ensures
            r == excluded_name(name@, self.rule_views()),
    {
        let mut i: usize = 0;
        while i < self.names.len()
            invariant
                i <= self.names@.len(),
                forall|j: int| 0 <= j < i ==> self.names@[j]@ != name@,
            decreases self.names@.len() - i,
        {
            if str_eq(self.names[i].as_str(), name) {
                proof {
                    assert(self.rule_views()[i as int] == name@);
                }
                return true;
            }
            i = i + 1;
        }
        proof {
            assert forall|j: int| 0 <= j < self.rule_views().len() implies self.rule_views()[j]
                != name@ by {
                assert(self.names@[j]@ != name@);
            }
        }
        false
    }
}

/// Splits a rule file's text into its lines.
pub fn split_lines_exec(text: &str) -> (r: Vec<String>)
    ensures
        r@.map_values(|l: String| l@) == split_lines(text@),
{
    let mut out: Vec<String> = Vec::new();
    let mut cur = String::new();
    let mut i: usize = 0;
    let n = text.unicode_len();
    proof {
        assert(text@.skip(0) =~= text@);
        assert(out@.map_values(|l: String| l@) =~= Seq::<Seq<char>>::empty());
        assert(cur@ =~= Seq::<char>::empty());
    }
    while i < n
        invariant
            n == text@.len(),
            i <= n,
            split_lines(text@) == lines_acc(
                text@.skip(i as int),
                cur@,
                out@.map_values(|l: String| l@),
            ),
        decreases n - i,
    {
        let c = text.get_char(i);
        proof {
            assert(text@.skip(i as int)[0] == text@[i as int]);
            assert(text@.skip(i as int).drop_first() =~= text@.skip(i + 1));
        }
        if c == '\n' {
            let ghost old_out = out@;
            let ghost old_cur = cur@;
            out.push(cur);
            cur = String::new();
            proof {
                assert(out@.map_values(|l: String| l@) =~= old_out.map_values(
                    |l: String| l@,
                ).push(old_cur));
                assert(cur@ =~= Seq::<char>::empty());
            }
        } else {
            push_char(&mut cur, c);
        }
        i = i + 1;
    }
    proof {
        assert(text@.skip(n as int) =~= Seq::<char>::empty());
    }
    if cur.unicode_len() > 0 {
        let ghost old_out = out@;
        let ghost old_cur = cur@;
        out.push(cur);
        proof {
            assert(out@.map_values(|l: String| l@) =~= old_out.map_values(|l: String| l@).push(
                old_cur,
            ));
        }
    }
    out
}

} // verus!
