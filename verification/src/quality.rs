//! Quality-gate checkers: a cyclomatic-complexity line heuristic, a scanner
//! for self-admitted technical debt (SATD) markers, a registry of named
//! code rules, and a SARIF-shaped report of violations. Every checker's
//! result is specified exactly over the characters of its input.

use vstd::prelude::*;
use vstd::string::{StringExecFns, StrSliceExecFns};
use crate::chars::{
    chars_of, push_text, texts_view, lemma_texts_view_len, lemma_texts_view_index, find_newline,
    lemma_find_newline, find_nl, copy_range, trim_spec, trim_bounds, starts_with_spec,
    starts_with_vec, contains_spec, contains_vec, join_from, join_spec,
};
use crate::text::{dec_rep, append_decimal};

verus! {

/// Why a quality gate rejected its input. (Coverage and dead-code gates
/// work on fractional percentages and live with the embedding, outside
/// the verified core.)
#[derive(Debug)]
pub enum QualityError {
    ComplexityExceeded(u32, u32),
    SatdViolation(String),
}

/// One point when the trimmed line opens a branch.
pub open spec fn branch_score(t: Seq<char>) -> nat {
    if starts_with_spec(t, "if "@) || starts_with_spec(t, "else if "@) {
        1
    } else {
        0
    }
}

/// One point when the trimmed line opens a loop.
pub open spec fn loop_score(t: Seq<char>) -> nat {
    if starts_with_spec(t, "for "@) || starts_with_spec(t, "while "@) {
        1
    } else {
        0
    }
}

/// One point when the trimmed line opens a match.
pub open spec fn match_score(t: Seq<char>) -> nat {
    if starts_with_spec(t, "match "@) {
        1
    } else {
        0
    }
}

/// One point when the trimmed line carries a boolean connective.
pub open spec fn logic_score(t: Seq<char>) -> nat {
    if contains_spec(t, " && "@) || contains_spec(t, " || "@) {
        1
    } else {
        0
    }
}

/// The complexity contribution of one line.
pub open spec fn line_score(line: Seq<char>) -> nat {
    branch_score(trim_spec(line)) + loop_score(trim_spec(line)) + match_score(trim_spec(line))
        + logic_score(trim_spec(line))
}

/// The summed line scores of the text from index `i` on, one line per
/// line-feed-separated segment.
pub open spec fn cyclo_from(s: Seq<char>, i: int) -> nat
    decreases s.len() + 1 - i via cyclo_from_decreases
{
    if i >= s.len() || i < 0 {
        0
    } else {
        let j = find_newline(s, i);
        line_score(s.subrange(i, j)) + cyclo_from(s, j + 1)
    }
}

#[via_fn]
proof fn cyclo_from_decreases(s: Seq<char>, i: int) {
    if 0 <= i < s.len() {
        lemma_find_newline(s, i);
    }
}

/// The cyclomatic-complexity heuristic: one, plus each line's score.
pub open spec fn cyclomatic_of(s: Seq<char>) -> nat {
    1 + cyclo_from(s, 0)
}

/// Checks cyclomatic complexity against a configured ceiling.
#[derive(Debug, Clone)]
pub struct ComplexityChecker {
    max_complexity: u32,
}

impl View for ComplexityChecker {
    type V = nat;

    closed spec fn view(&self) -> nat {
        self.max_complexity as nat
    }
}

/// The score of one line, bounded by four.
fn score_line(line: &Vec<char>) -> (r: u32)
    ensures
        r as nat == line_score(line@),
        r <= 4,
{
    let bounds = trim_bounds(line);
    let t = copy_range(line, bounds.0, bounds.1);
    let mut sc: u32 = 0;
    let p_if = chars_of("if ");
    let p_elif = chars_of("else if ");
    if starts_with_vec(&t, &p_if) || starts_with_vec(&t, &p_elif) {
        sc = sc + 1;
    }
    let p_for = chars_of("for ");
    let p_while = chars_of("while ");
    if starts_with_vec(&t, &p_for) || starts_with_vec(&t, &p_while) {
        sc = sc + 1;
    }
    let p_match = chars_of("match ");
    if starts_with_vec(&t, &p_match) {
        sc = sc + 1;
    }
    let p_and = chars_of(" && ");
    let p_or = chars_of(" || ");
    if contains_vec(&t, &p_and) || contains_vec(&t, &p_or) {
        sc = sc + 1;
    }
    sc
}

impl ComplexityChecker {
    /// A checker with the given complexity ceiling.
    pub fn new(max_complexity: u32) -> (r: ComplexityChecker)
        ensures
            r@ == max_complexity as nat,
    {
        ComplexityChecker { max_complexity }
    }

    /// Accepts a measured complexity exactly when it does not exceed the
    /// ceiling; the error names both numbers.
    pub fn check(&self, complexity: u32) -> (r: Result<(), QualityError>)
        ensures
            match r {
                Ok(_) => complexity as nat <= self@,
                Err(e) => {
                    &&& complexity as nat > self@
                    &&& e matches QualityError::ComplexityExceeded(c, m) && c == complexity
                        && m as nat == self@
                },
            },
    {
        if complexity > self.max_complexity {
            Err(QualityError::ComplexityExceeded(complexity, self.max_complexity))
        } else {
            Ok(())
        }
    }

    /// The cyclomatic-complexity heuristic of `code`: one, plus a point
    /// per line that opens a branch, a loop or a match or carries a
    /// boolean connective.
    pub fn calculate_cyclomatic(&self, code: &str) -> (r: u32)
        requires
            code@.len() <= 1_000_000_000,
        ensures
            r as nat == cyclomatic_of(code@),
    {
        let cs = chars_of(code);
        let n = cs.len();
        let mut total: u32 = 1;
        let mut i: usize = 0;
        while i < n
            invariant
                n == cs@.len(),
                cs@ == code@,
                n <= 1_000_000_000,
                0 <= i <= n + 1,
                total as nat <= 1 + 4 * i,
                total as nat + cyclo_from(cs@, i as int) == cyclomatic_of(cs@),
            decreases n + 1 - i,
        {
            let j = find_nl(&cs, i);
            let line_v = copy_range(&cs, i, j);
            let sc = score_line(&line_v);
            total = total + sc;
            i = j + 1;
        }
        total
    }
}

/// The markers the SATD scanner looks for.
pub open spec fn satd_patterns() -> Seq<Seq<char>> {
    seq!["TODO"@, "FIXME"@, "HACK"@, "XXX"@, "REFACTOR"@, "OPTIMIZE"@]
}

/// The text recorded for a hit: the one-based line number and the trimmed
/// line.
pub open spec fn violation_text(lineno: nat, line: Seq<char>) -> Seq<char> {
    "Line "@ + dec_rep(lineno) + ": "@ + trim_spec(line)
}

/// The violations of one line: one record per pattern (from `k` on) that
/// occurs in the line, in pattern order.
pub open spec fn line_hits_from(
    pats: Seq<Seq<char>>,
    line: Seq<char>,
    lineno: nat,
    k: int,
) -> Seq<Seq<char>>
    decreases pats.len() - k,
{
    if k >= pats.len() {
        Seq::empty()
    } else {
        (if contains_spec(line, pats[k]) {
            seq![violation_text(lineno, line)]
        } else {
            Seq::empty()
        }) + line_hits_from(pats, line, lineno, k + 1)
    }
}

/// The violations of the text from index `i` on, line `lineno` first.
pub open spec fn scan_from(s: Seq<char>, pats: Seq<Seq<char>>, i: int, lineno: nat) -> Seq<
    Seq<char>,
>
    decreases s.len() + 1 - i via scan_from_decreases
{
    if i >= s.len() || i < 0 {
        Seq::empty()
    } else {
        let j = find_newline(s, i);
        line_hits_from(pats, s.subrange(i, j), lineno, 0) + scan_from(s, pats, j + 1, lineno + 1)
    }
}

#[via_fn]
proof fn scan_from_decreases(s: Seq<char>, pats: Seq<Seq<char>>, i: int, lineno: nat) {
    if 0 <= i < s.len() {
        lemma_find_newline(s, i);
    }
}

/// Every violation of the text, first line first.
pub open spec fn scan_spec(s: Seq<char>, pats: Seq<Seq<char>>) -> Seq<Seq<char>> {
    scan_from(s, pats, 0, 1)
}

/// Scans source text for self-admitted technical debt markers.
#[derive(Debug, Clone)]
pub struct SatdScanner {
    patterns: Vec<String>,
}

impl View for SatdScanner {
    type V = Seq<Seq<char>>;

    closed spec fn view(&self) -> Seq<Seq<char>> {
        texts_view(self.patterns@)
    }
}

impl SatdScanner {
    /// A scanner looking for the six usual debt markers.
    pub fn new() -> (r: SatdScanner)
        ensures
            r@ == satd_patterns(),
    {
        let mut patterns: Vec<String> = Vec::new();
        proof {
            assert(texts_view(patterns@) =~= Seq::<Seq<char>>::empty());
        }
        push_text(&mut patterns, "TODO");
        push_text(&mut patterns, "FIXME");
        push_text(&mut patterns, "HACK");
        push_text(&mut patterns, "XXX");
        push_text(&mut patterns, "REFACTOR");
        push_text(&mut patterns, "OPTIMIZE");
        proof {
            assert(texts_view(patterns@) =~= satd_patterns());
        }
        SatdScanner { patterns }
    }

    /// Scans `code`: for each line (one-based) and each marker occurring
    /// in it, in marker order, records "Line N: " followed by the trimmed
    /// line.
    pub fn scan(&self, code: &str) -> (r: Vec<String>)
        requires
            code@.len() < usize::MAX,
        ensures
            texts_view(r@) == scan_spec(code@, self@),
    {
        let cs = chars_of(code);
        let ghost pats = self@;
        let mut out: Vec<String> = Vec::new();
        let n = cs.len();
        let mut i: usize = 0;
        let mut lineno: usize = 1;
        proof {
            assert(texts_view(out@) =~= Seq::<Seq<char>>::empty());
            assert(texts_view(out@) + scan_from(cs@, pats, 0, 1) =~= scan_from(cs@, pats, 0, 1));
        }
        while i < n
            invariant
                n == cs@.len(),
                cs@ == code@,
                n < usize::MAX,
                pats == self@,
                self@ == texts_view(self.patterns@),
                0 <= i <= n + 1,
                1 <= lineno <= i + 1,
                texts_view(out@) + scan_from(cs@, pats, i as int, lineno as nat) == scan_spec(
                    cs@,
                    pats,
                ),
            decreases n + 1 - i,
        {
            let j = find_nl(&cs, i);
            let line_v = copy_range(&cs, i, j);
            let ghost line = cs@.subrange(i as int, j as int);
            let bounds = trim_bounds(&line_v);
            let m = self.patterns.len();
            let mut p: usize = 0;
            proof {
                lemma_texts_view_len(self.patterns@);
            }
            while p < m
                invariant
                    n == cs@.len(),
                    cs@ == code@,
                    n < usize::MAX,
                    pats == self@,
                    self@ == texts_view(self.patterns@),
                    m == self.patterns@.len(),
                    pats.len() == m,
                    0 <= i <= n,
                    i <= j <= n,
                    line == cs@.subrange(i as int, j as int),
                    line_v@ == line,
                    bounds.0 <= bounds.1 <= line.len(),
                    line.subrange(bounds.0 as int, bounds.1 as int) == trim_spec(line),
                    1 <= lineno <= i + 1,
                    0 <= p <= m,
                    texts_view(out@) + line_hits_from(pats, line, lineno as nat, p as int)
                        + scan_from(cs@, pats, j as int + 1, lineno as nat + 1) == scan_spec(
                        cs@,
                        pats,
                    ),
                decreases m - p,
            {
                let pat_v = chars_of(self.patterns[p].as_str());
                proof {
                    lemma_texts_view_index(self.patterns@, p as int);
                }
                let ghost pre_out = out@;
                if contains_vec(&line_v, &pat_v) {
                    let mut t = String::from_str("Line ");
                    append_decimal(&mut t, lineno as u64);
                    t.append(": ");
                    let piece = code.substring_char(i + bounds.0, i + bounds.1);
                    proof {
                        assert(code@.subrange(
                            i as int + bounds.0 as int,
                            i as int + bounds.1 as int,
                        ) =~= line.subrange(bounds.0 as int, bounds.1 as int));
                    }
                    t.append(piece);
                    proof {
                        assert(t@ == violation_text(lineno as nat, line));
                    }
                    out.push(t);
                    proof {
                        assert(out@.drop_last() =~= pre_out);
                        assert(texts_view(out@) == texts_view(pre_out).push(
                            violation_text(lineno as nat, line),
                        ));
                        assert(texts_view(out@) + line_hits_from(
                            pats,
                            line,
                            lineno as nat,
                            p as int + 1,
                        ) =~= texts_view(pre_out) + line_hits_from(
                            pats,
                            line,
                            lineno as nat,
                            p as int,
                        ));
                    }
                } else {
                    proof {
                        assert(texts_view(out@) + line_hits_from(
                            pats,
                            line,
                            lineno as nat,
                            p as int + 1,
                        ) =~= texts_view(pre_out) + line_hits_from(
                            pats,
                            line,
                            lineno as nat,
                            p as int,
                        ));
                    }
                }
                p = p + 1;
            }
            proof {
                assert(line_hits_from(pats, line, lineno as nat, m as int)
                    =~= Seq::<Seq<char>>::empty());
                assert(texts_view(out@) + scan_from(cs@, pats, j as int + 1, lineno as nat + 1)
                    =~= texts_view(out@) + line_hits_from(pats, line, lineno as nat, m as int)
                    + scan_from(cs@, pats, j as int + 1, lineno as nat + 1));
            }
            i = j + 1;
            lineno = lineno + 1;
        }
        proof {
            assert(texts_view(out@) + scan_from(cs@, pats, i as int, lineno as nat) =~= texts_view(
                out@,
            ));
        }
        out
    }

    /// Accepts clean code; dirty code is rejected with every violation,
    /// joined by commas, in the error.
    pub fn check(&self, code: &str) -> (r: Result<(), QualityError>)
        requires
            code@.len() < usize::MAX,
        ensures
            match r {
                Ok(_) => scan_spec(code@, self@).len() == 0,
                Err(e) => {
                    &&& scan_spec(code@, self@).len() > 0
                    &&& e matches QualityError::SatdViolation(m) && m@ == join_spec(
                        scan_spec(code@, self@),
                        ", "@,
                    )
                },
            },
    {
        let violations = self.scan(code);
        proof {
            lemma_texts_view_len(violations@);
        }
        if violations.len() > 0 {
            let joined = join_comma(&violations);
            Err(QualityError::SatdViolation(joined))
        } else {
            Ok(())
        }
    }
}

/// Joins the strings with ", " between consecutive entries.
fn join_comma(parts: &Vec<String>) -> (r: String)
    ensures
        r@ == join_spec(texts_view(parts@), ", "@),
{
    let ghost pv = texts_view(parts@);
    proof {
        lemma_texts_view_len(parts@);
    }
    let n = parts.len();
    let mut acc = String::new();
    let mut k: usize = 0;
    proof {
        assert(acc@ + join_from(pv, ", "@, 0) =~= join_from(pv, ", "@, 0));
    }
    while k < n
        invariant
            n == parts@.len(),
            pv == texts_view(parts@),
            pv.len() == n,
            0 <= k <= n,
            acc@ + join_from(pv, ", "@, k as int) == join_spec(pv, ", "@),
        decreases n - k,
    {
        let ghost pre = acc@;
        acc.append(parts[k].as_str());
        proof {
            lemma_texts_view_index(parts@, k as int);
        }
        if k + 1 < n {
            acc.append(", ");
            proof {
                assert(acc@ + join_from(pv, ", "@, k as int + 1) =~= pre + join_from(
                    pv,
                    ", "@,
                    k as int,
                ));
            }
        } else {
            proof {
                assert(acc@ + join_from(pv, ", "@, k as int + 1) =~= pre + join_from(
                    pv,
                    ", "@,
                    k as int,
                ));
            }
        }
        k = k + 1;
    }
    proof {
        assert(acc@ + join_from(pv, ", "@, n as int) =~= acc@);
    }
    acc
}

/// A named predicate a body of code must satisfy.
#[derive(Debug, Clone)]
pub enum RulePred {
    /// The code is non-empty.
    NonEmpty,
    /// The code has at most the given number of characters.
    MaxLen(usize),
    /// The code contains the given text.
    ContainsText(String),
    /// The code does not contain the given text.
    FreeOfText(String),
}

/// What a rule means.
pub open spec fn rule_holds(p: RulePred, code: Seq<char>) -> bool {
    match p {
        RulePred::NonEmpty => code.len() > 0,
        RulePred::MaxLen(n) => code.len() <= n,
        RulePred::ContainsText(t) => contains_spec(code, t@),
        RulePred::FreeOfText(t) => !contains_spec(code, t@),
    }
}

/// Decides [`rule_holds`].
fn eval_rule(p: &RulePred, cs: &Vec<char>) -> (r: bool)
    ensures
        r == rule_holds(*p, cs@),
{
    match p {
        RulePred::NonEmpty => cs.len() > 0,
        RulePred::MaxLen(n) => cs.len() <= *n,
        RulePred::ContainsText(t) => {
            let tv = chars_of(t.as_str());
            contains_vec(cs, &tv)
        },
        RulePred::FreeOfText(t) => {
            let tv = chars_of(t.as_str());
            !contains_vec(cs, &tv)
        },
    }
}

/// One registered rule.
#[derive(Debug, Clone)]
pub struct NamedRule {
    pub name: String,
    pub pred: RulePred,
}

/// The abstract value of a registered rule.
#[verifier::ext_equal]
pub struct RuleModel {
    pub name: Seq<char>,
    pub pred: RulePred,
}

/// The abstract values of a rule list, in order.
pub open spec fn rules_view(v: Seq<NamedRule>) -> Seq<RuleModel>
    decreases v.len(),
{
    if v.len() == 0 {
        Seq::empty()
    } else {
        rules_view(v.drop_last()).push(
            RuleModel { name: v.last().name@, pred: v.last().pred },
        )
    }
}

/// `rules_view` keeps length and maps elementwise.
pub proof fn lemma_rules_view_index(v: Seq<NamedRule>, k: int)
    requires
        0 <= k < v.len(),
    ensures
        rules_view(v).len() == v.len(),
        rules_view(v)[k] == (RuleModel { name: v[k].name@, pred: v[k].pred }),
    decreases v.len(),
{
    lemma_rules_view_len(v);
    if k < v.len() - 1 {
        lemma_rules_view_index(v.drop_last(), k);
    }
}

pub proof fn lemma_rules_view_len(v: Seq<NamedRule>)
    ensures
        rules_view(v).len() == v.len(),
    decreases v.len(),
{
    if v.len() > 0 {
        lemma_rules_view_len(v.drop_last());
    }
}

/// The names of the rules (from `k` on) that `code` fails, in
/// registration order.
pub open spec fn failed_from(rules: Seq<RuleModel>, code: Seq<char>, k: int) -> Seq<Seq<char>>
    decreases rules.len() - k,
{
    if k >= rules.len() {
        Seq::empty()
    } else {
        (if rule_holds(rules[k].pred, code) {
            Seq::empty()
        } else {
            seq![rules[k].name]
        }) + failed_from(rules, code, k + 1)
    }
}

/// The names of every rule `code` fails.
pub open spec fn failed_rules(rules: Seq<RuleModel>, code: Seq<char>) -> Seq<Seq<char>> {
    failed_from(rules, code, 0)
}

/// An ordered registry of named code rules. Evaluation reports, in
/// registration order, the names of the rules the code fails.
#[derive(Debug, Clone)]
pub struct RuleEngine {
    rules: Vec<NamedRule>,
}

impl View for RuleEngine {
    type V = Seq<RuleModel>;

    closed spec fn view(&self) -> Seq<RuleModel> {
        rules_view(self.rules@)
    }
}

impl RuleEngine {
    /// An engine with no rules.
    pub fn new() -> (r: RuleEngine)
        ensures
            r@ == Seq::<RuleModel>::empty(),
    {
        let rules: Vec<NamedRule> = Vec::new();
        proof {
            assert(rules_view(rules@) =~= Seq::<RuleModel>::empty());
        }
        RuleEngine { rules }
    }

    /// Registers one named rule at the end of the registry.
    pub fn register_rule(&mut self, name: String, pred: RulePred)
        ensures
            final(self)@ == old(self)@.push(RuleModel { name: name@, pred }),
    {
        self.rules.push(NamedRule { name, pred });
        proof {
            assert(self.rules@.drop_last() =~= old(self).rules@);
        }
    }

    /// The names of the rules that `code` fails, in registration order.
    pub fn evaluate(&self, code: &str) -> (r: Vec<String>)
        ensures
            texts_view(r@) == failed_rules(self@, code@),
    {
        let cs = chars_of(code);
        let ghost rm = self@;
        proof {
            lemma_rules_view_len(self.rules@);
        }
        let n = self.rules.len();
        let mut out: Vec<String> = Vec::new();
        let mut k: usize = 0;
        proof {
            assert(texts_view(out@) =~= Seq::<Seq<char>>::empty());
            assert(texts_view(out@) + failed_from(rm, cs@, 0) =~= failed_from(rm, cs@, 0));
        }
        while k < n
            invariant
                n == self.rules@.len(),
                rm == self@,
                self@ == rules_view(self.rules@),
                rm.len() == n,
                cs@ == code@,
                0 <= k <= n,
                texts_view(out@) + failed_from(rm, cs@, k as int) == failed_rules(rm, cs@),
            decreases n - k,
        {
            proof {
                lemma_rules_view_index(self.rules@, k as int);
            }
            let ghost pre_out = out@;
            if !eval_rule(&self.rules[k].pred, &cs) {
                out.push(self.rules[k].name.clone());
                proof {
                    assert(out@.drop_last() =~= pre_out);
                    assert(texts_view(out@) + failed_from(rm, cs@, k as int + 1) =~= texts_view(
                        pre_out,
                    ) + failed_from(rm, cs@, k as int));
                }
            } else {
                proof {
                    assert(texts_view(out@) + failed_from(rm, cs@, k as int + 1) =~= texts_view(
                        pre_out,
                    ) + failed_from(rm, cs@, k as int));
                }
            }
            k = k + 1;
        }
        proof {
            assert(texts_view(out@) + failed_from(rm, cs@, n as int) =~= texts_view(out@));
        }
        out
    }
}

/// A SARIF-shaped report.
#[derive(Debug, Clone)]
pub struct SarifReport {
    pub version: String,
    pub runs: Vec<SarifRun>,
}

#[derive(Debug, Clone)]
pub struct SarifRun {
    pub tool: SarifTool,
    pub results: Vec<SarifResult>,
}

#[derive(Debug, Clone)]
pub struct SarifTool {
    pub driver: SarifDriver,
}

#[derive(Debug, Clone)]
pub struct SarifDriver {
    pub name: String,
    pub version: String,
}

#[derive(Debug, Clone)]
pub struct SarifResult {
    pub message: SarifMessage,
    pub level: String,
}

#[derive(Debug, Clone)]
pub struct SarifMessage {
    pub text: String,
}

/// Wraps the violations in a single-run SARIF report: one error-level
/// result per violation, in order, under the quality-gates driver.
pub fn generate_sarif_report(violations: Vec<String>) -> (r: SarifReport)
    ensures
        r.version@ == "2.1.0"@,
        r.runs@.len() == 1,
        r.runs@[0].tool.driver.name@ == "quality-gates"@,
        r.runs@[0].tool.driver.version@ == "0.1.0"@,
        r.runs@[0].results@.len() == violations@.len(),
        forall|k: int|
            0 <= k < violations@.len() ==> (#[trigger] r.runs@[0].results@[k]).message.text@
                == violations@[k]@ && r.runs@[0].results@[k].level@ == "error"@,
{
    let n = violations.len();
    let mut results: Vec<SarifResult> = Vec::new();
    let mut k: usize = 0;
    while k < n
        invariant
            n == violations@.len(),
            0 <= k <= n,
            results@.len() == k,
            forall|q: int|
                0 <= q < k ==> (#[trigger] results@[q]).message.text@ == violations@[q]@
                    && results@[q].level@ == "error"@,
        decreases n - k,
    {
        results.push(
            SarifResult {
                message: SarifMessage { text: violations[k].clone() },
                level: String::from_str("error"),
            },
        );
        k = k + 1;
    }
    let mut runs: Vec<SarifRun> = Vec::new();
    runs.push(
        SarifRun {
            tool: SarifTool {
                driver: SarifDriver {
                    name: String::from_str("quality-gates"),
                    version: String::from_str("0.1.0"),
                },
            },
            results,
        },
    );
    SarifReport { version: String::from_str("2.1.0"), runs }
}

} // verus!
