//! Small analysis collaborators around the workflow core: a symbolic
//! prover over a fixed axiom list, and the size-parameter holders of the
//! mapping-scope and verified-kernel components. Their fractional scoring
//! formulas work on floating-point numbers and live with the embedding;
//! the structures and the prover's decision are verified here.

use vstd::prelude::*;
use vstd::string::{StringExecFns, StringSliceAdditionalSpecFns};
use crate::chars::{texts_view, lemma_texts_view_index, lemma_texts_view_len, push_text};

verus! {

/// One of the listed texts is exactly `t`.
pub open spec fn contains_text(ts: Seq<Seq<char>>, t: Seq<char>) -> bool {
    exists|k: int| 0 <= k < ts.len() && ts[k] == t
}

/// Proves statements against a fixed list of axioms; very short
/// statements are taken on faith.
pub struct SymbolicProver {
    axioms: Vec<String>,
}

impl View for SymbolicProver {
    type V = Seq<Seq<char>>;

    closed spec fn view(&self) -> Seq<Seq<char>> {
        texts_view(self.axioms@)
    }
}

/// The prover accepts a statement that names an axiom, or whose UTF-8
/// encoding is shorter than ten bytes.
pub open spec fn proves(axioms: Seq<Seq<char>>, statement: &str) -> bool {
    contains_text(axioms, statement@) || (statement.spec_bytes().len() as usize) < 10
}

impl SymbolicProver {
    /// A prover knowing the three classical axioms.
    pub fn new() -> (r: SymbolicProver)
        ensures
            r@ == seq!["identity"@, "excluded_middle"@, "non_contradiction"@],
    {
        let mut axioms: Vec<String> = Vec::new();
        proof {
            assert(texts_view(axioms@) =~= Seq::<Seq<char>>::empty());
        }
        push_text(&mut axioms, "identity");
        push_text(&mut axioms, "excluded_middle");
        push_text(&mut axioms, "non_contradiction");
        proof {
            assert(texts_view(axioms@) =~= seq![
                "identity"@,
                "excluded_middle"@,
                "non_contradiction"@,
            ]);
        }
        SymbolicProver { axioms }
    }

    /// Decides [`proves`]: the statement is an axiom, or short enough to
    /// be taken on faith.
    pub fn prove(&self, statement: &str) -> (r: bool)
        ensures
            r == proves(self@, statement),
    {
        let stmt = String::from_str(statement);
        let n = self.axioms.len();
        proof {
            lemma_texts_view_len(self.axioms@);
        }
        let mut k: usize = 0;
        while k < n
            invariant
                n == self.axioms@.len(),
                self@ == texts_view(self.axioms@),
                self@.len() == n,
                stmt@ == statement@,
                0 <= k <= n,
                forall|q: int| 0 <= q < k ==> self@[q] != statement@,
            decreases n - k,
        {
            proof {
                lemma_texts_view_index(self.axioms@, k as int);
            }
            if self.axioms[k] == stmt {
                proof {
                    assert(contains_text(self@, statement@));
                }
                return true;
            }
            k = k + 1;
        }
        proof {
            assert(forall|q: int| 0 <= q < self@.len() ==> self@[q] != statement@);
            assert(!contains_text(self@, statement@));
        }
        statement.len() < 10
    }
}

/// Holds the input/output complexity budget of the mapping-scope
/// component.
pub struct MappingScope {
    io_complexity: usize,
}

impl View for MappingScope {
    type V = nat;

    closed spec fn view(&self) -> nat {
        self.io_complexity as nat
    }
}

impl MappingScope {
    /// A scope with the given input/output complexity budget.
    pub fn new(io_complexity: usize) -> (r: MappingScope)
        ensures
            r@ == io_complexity as nat,
    {
        MappingScope { io_complexity }
    }

    /// The configured input/output complexity budget.
    pub fn io_complexity(&self) -> (r: usize)
        ensures
            r as nat == self@,
    {
        self.io_complexity
    }
}

/// The kernel of trusted axiom names the hybrid architecture consults.
pub struct VerifiedKernel {
    axioms: Vec<String>,
}

impl View for VerifiedKernel {
    type V = Seq<Seq<char>>;

    closed spec fn view(&self) -> Seq<Seq<char>> {
        texts_view(self.axioms@)
    }
}

impl VerifiedKernel {
    /// A kernel knowing the three equivalence axioms.
    pub fn new() -> (r: VerifiedKernel)
        ensures
            r@ == seq!["reflexivity"@, "symmetry"@, "transitivity"@],
    {
        let mut axioms: Vec<String> = Vec::new();
        proof {
            assert(texts_view(axioms@) =~= Seq::<Seq<char>>::empty());
        }
        push_text(&mut axioms, "reflexivity");
        push_text(&mut axioms, "symmetry");
        push_text(&mut axioms, "transitivity");
        proof {
            assert(texts_view(axioms@) =~= seq!["reflexivity"@, "symmetry"@, "transitivity"@]);
        }
        VerifiedKernel { axioms }
    }

    /// Whether the input mentions one of the kernel's axioms.
    pub fn knows(&self, input: &str) -> (r: bool)
        ensures
            r == exists|k: int|
                0 <= k < self@.len() && crate::chars::contains_spec(input@, #[trigger] self@[k]),
    {
        let cs = crate::chars::chars_of(input);
        let n = self.axioms.len();
        proof {
            lemma_texts_view_len(self.axioms@);
        }
        let mut k: usize = 0;
        while k < n
            invariant
                n == self.axioms@.len(),
                self@ == texts_view(self.axioms@),
                self@.len() == n,
                cs@ == input@,
                0 <= k <= n,
                forall|q: int| 0 <= q < k ==> !crate::chars::contains_spec(input@, #[trigger] self@[q]),
            decreases n - k,
        {
            proof {
                lemma_texts_view_index(self.axioms@, k as int);
            }
            let axiom_chars = crate::chars::chars_of(self.axioms[k].as_str());
            if crate::chars::contains_vec(&cs, &axiom_chars) {
                return true;
            }
            k = k + 1;
        }
        false
    }
}

/// Holds the complexity ceiling of a domain-scope analysis.
pub struct DomainScope {
    max_complexity: usize,
}

impl View for DomainScope {
    type V = nat;

    closed spec fn view(&self) -> nat {
        self.max_complexity as nat
    }
}

impl DomainScope {
    /// A scope with the given complexity ceiling.
    pub fn new(max_complexity: usize) -> (r: DomainScope)
        ensures
            r@ == max_complexity as nat,
    {
        DomainScope { max_complexity }
    }

    /// The configured complexity ceiling.
    pub fn max_complexity(&self) -> (r: usize)
        ensures
            r as nat == self@,
    {
        self.max_complexity
    }
}

} // verus!
