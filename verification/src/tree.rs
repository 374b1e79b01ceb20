//! The typed tree reconstructor.
//!
//! The external chart-parsing engine hands back a weakly-typed tree: string
//! labels on the branches and bare placeholders at the terminal positions.
//! The tokenizer hands back, separately, the ordered sequence of lexical
//! tokens the sentence was made of.  Reconstruction walks the generic tree
//! depth first, classifies every branch label through the grammar symbol
//! catalog, and consumes one token from the supply per terminal position, so
//! that the typed result mirrors the generic tree's shape exactly and its
//! leaves are the supplied tokens in order — none skipped, duplicated or
//! reordered.

use vstd::prelude::*;

use crate::errors::AccessError;
use crate::errors::ReconstructError;
use crate::symbol::Symbol;
use crate::symbol::any_symbol_of;

verus! {

/// One lexical token of the original sentence: its surface text, as the
/// external tokenizer produced it.  Tokens are moved into the reconstructed
/// tree and never altered by it.
#[derive(Debug, Clone, PartialEq, Eq)]
pub struct Token {
    pub word: String,
}

/// A node of the external engine's weakly-typed parse tree: either a
/// terminal placeholder, which carries no reusable lexical content, or a
/// branch holding a bare string label and its ordered children.
#[derive(Debug)]
pub enum ParseNode {
    Terminal,
    Branch(String, Vec<ParseNode>),
}

/// The strongly-typed tree: branches carry a catalog symbol, leaves carry
/// the original lexical tokens.
#[derive(Debug)]
pub enum SymbolTree {
    Terminal(Token),
    Branch(Symbol, Vec<SymbolTree>),
}

/// How many terminal positions a generic tree has.
pub open spec fn leaf_count(g: ParseNode) -> nat
    decreases g,
{
    match g {
        ParseNode::Terminal => 1,
        ParseNode::Branch(_, children) => leaf_count_seq(children@),
    }
}

/// Terminal positions of a forest of generic trees, left to right.
pub open spec fn leaf_count_seq(cs: Seq<ParseNode>) -> nat
    decreases cs,
{
    if cs.len() == 0 {
        0
    } else {
        leaf_count(cs[0]) + leaf_count_seq(cs.drop_first())
    }
}

/// Every branch label of the generic tree is in the catalog.
pub open spec fn labels_ok(g: ParseNode) -> bool
    decreases g,
{
    match g {
        ParseNode::Terminal => true,
        ParseNode::Branch(label, children) => any_symbol_of(label@) is Some && forall|i: int|
            0 <= i < children@.len() ==> labels_ok(#[trigger] children@[i]),
    }
}

/// The tokens at the leaves of a typed tree, read left to right, depth
/// first: the production order of the original sentence.
pub open spec fn leaves(t: SymbolTree) -> Seq<Token>
    decreases t,
{
    match t {
        SymbolTree::Terminal(tok) => seq![tok],
        SymbolTree::Branch(_, children) => leaves_seq(children@),
    }
}

/// The leaves of a forest of typed trees, left to right.
pub open spec fn leaves_seq(ts: Seq<SymbolTree>) -> Seq<Token>
    decreases ts,
{
    if ts.len() == 0 {
        Seq::empty()
    } else {
        leaves(ts[0]) + leaves_seq(ts.drop_first())
    }
}

/// The typed tree mirrors the generic tree: same shape at every position —
/// terminal against leaf, branch against branch with the same number of
/// children in the same order — and every branch symbol is the catalog's
/// classification of the generic label.
pub open spec fn mirrors(g: ParseNode, t: SymbolTree) -> bool
    decreases g,
{
    match g {
        ParseNode::Terminal => t is Terminal,
        ParseNode::Branch(label, gkids) => match t {
            SymbolTree::Terminal(_) => false,
            SymbolTree::Branch(sym, tkids) => any_symbol_of(label@) == Some(sym)
                && gkids@.len() == tkids@.len() && forall|i: int|
                0 <= i < gkids@.len() ==> mirrors(gkids@[i], #[trigger] tkids@[i]),
        },
    }
}

/// What reconstructing one generic tree does to a token supply: the
/// remaining supply on success, or the first failure met in a depth-first,
/// classify-before-children walk.
pub open spec fn outcome(g: ParseNode, toks: Seq<Token>) -> Result<Seq<Token>, ReconstructError>
    decreases g,
{
    match g {
        ParseNode::Terminal => if toks.len() == 0 {
            Err(ReconstructError::SupplyExhausted)
        } else {
            Ok(toks.drop_first())
        },
        ParseNode::Branch(label, children) => if any_symbol_of(label@) is None {
            Err(ReconstructError::UnknownLabel)
        } else {
            outcome_seq(children@, toks)
        },
    }
}

/// What reconstructing a forest does to a token supply, child by child,
/// left to right.
pub open spec fn outcome_seq(cs: Seq<ParseNode>, toks: Seq<Token>) -> Result<
    Seq<Token>,
    ReconstructError,
>
    decreases cs,
{
    if cs.len() == 0 {
        Ok(toks)
    } else {
        match outcome(cs[0], toks) {
            Ok(rest) => outcome_seq(cs.drop_first(), rest),
            Err(e) => Err(e),
        }
    }
}

proof fn lemma_leaves_seq_push(ts: Seq<SymbolTree>, t: SymbolTree)
    ensures
        leaves_seq(ts.push(t)) == leaves_seq(ts) + leaves(t),
    decreases ts,
{
    if ts.len() == 0 {
        assert(ts.push(t)[0] == t);
        assert(ts.push(t).drop_first() =~= Seq::<SymbolTree>::empty());
        assert(leaves_seq(ts.push(t)) == leaves(t) + leaves_seq(Seq::<SymbolTree>::empty()));
        assert(leaves(t) + Seq::<Token>::empty() =~= leaves(t));
        assert(leaves_seq(ts) + leaves(t) =~= leaves(t));
    } else {
        assert(ts.push(t).drop_first() =~= ts.drop_first().push(t));
        lemma_leaves_seq_push(ts.drop_first(), t);
        assert(leaves(ts[0]) + (leaves_seq(ts.drop_first()) + leaves(t)) =~= (leaves(ts[0])
            + leaves_seq(ts.drop_first())) + leaves(t));
    }
}

/// Law: a successful reconstruction consumes exactly the generic tree's
/// terminal positions, in order — the remaining supply is the input supply
/// minus its first `leaf_count` tokens.
pub proof fn lemma_outcome_ok(g: ParseNode, toks: Seq<Token>)
    ensures
        outcome(g, toks) matches Ok(rest) ==> leaf_count(g) <= toks.len() && rest == toks.skip(
            leaf_count(g) as int,
        ),
    decreases g,
{
    match g {
        ParseNode::Terminal => {
            if toks.len() > 0 {
                assert(toks.drop_first() =~= toks.skip(1));
            }
        },
        ParseNode::Branch(label, children) => {
            lemma_outcome_seq_ok(children@, toks);
        },
    }
}

/// Law: reconstructing a forest consumes exactly its terminal positions.
pub proof fn lemma_outcome_seq_ok(cs: Seq<ParseNode>, toks: Seq<Token>)
    ensures
        outcome_seq(cs, toks) matches Ok(rest) ==> leaf_count_seq(cs) <= toks.len() && rest
            == toks.skip(leaf_count_seq(cs) as int),
    decreases cs,
{
    if cs.len() == 0 {
        assert(toks.skip(0) =~= toks);
    } else {
        lemma_outcome_ok(cs[0], toks);
        match outcome(cs[0], toks) {
            Ok(r1) => {
                lemma_outcome_seq_ok(cs.drop_first(), r1);
                if outcome_seq(cs.drop_first(), r1) is Ok {
                    assert(toks.skip(leaf_count(cs[0]) as int).skip(
                        leaf_count_seq(cs.drop_first()) as int,
                    ) =~= toks.skip(leaf_count_seq(cs) as int));
                }
            },
            Err(_) => {},
        }
    }
}

/// Law: when every branch label is in the catalog, reconstruction is decided
/// by the token supply alone — it succeeds, consuming exactly `leaf_count`
/// tokens, whenever the supply covers the terminal positions, and fails with
/// supply exhaustion, and with no other error, whenever it does not.
pub proof fn lemma_outcome_total(g: ParseNode, toks: Seq<Token>)
    requires
        labels_ok(g),
    ensures
        leaf_count(g) <= toks.len() ==> outcome(g, toks) == Ok::<Seq<Token>, ReconstructError>(
            toks.skip(leaf_count(g) as int),
        ),
        toks.len() < leaf_count(g) ==> outcome(g, toks) == Err::<Seq<Token>, ReconstructError>(
            ReconstructError::SupplyExhausted,
        ),
    decreases g,
{
    match g {
        ParseNode::Terminal => {
            if toks.len() > 0 {
                assert(toks.drop_first() =~= toks.skip(1));
            }
        },
        ParseNode::Branch(label, children) => {
            lemma_outcome_total_seq(children@, toks);
        },
    }
}

/// Law: the forest form of `lemma_outcome_total`.
pub proof fn lemma_outcome_total_seq(cs: Seq<ParseNode>, toks: Seq<Token>)
    requires
        forall|i: int| 0 <= i < cs.len() ==> labels_ok(#[trigger] cs[i]),
    ensures
        leaf_count_seq(cs) <= toks.len() ==> outcome_seq(cs, toks) == Ok::<
            Seq<Token>,
            ReconstructError,
        >(toks.skip(leaf_count_seq(cs) as int)),
        toks.len() < leaf_count_seq(cs) ==> outcome_seq(cs, toks) == Err::<
            Seq<Token>,
            ReconstructError,
        >(ReconstructError::SupplyExhausted),
    decreases cs,
{
    if cs.len() == 0 {
        assert(toks.skip(0) =~= toks);
    } else {
        lemma_outcome_total(cs[0], toks);
        assert forall|i: int| 0 <= i < cs.drop_first().len() implies labels_ok(
            #[trigger] cs.drop_first()[i],
        ) by {
            assert(cs.drop_first()[i] == cs[i + 1]);
        }
        if leaf_count(cs[0]) <= toks.len() {
            let rest = toks.skip(leaf_count(cs[0]) as int);
            lemma_outcome_total_seq(cs.drop_first(), rest);
            if leaf_count_seq(cs) <= toks.len() {
                assert(rest.skip(leaf_count_seq(cs.drop_first()) as int) =~= toks.skip(
                    leaf_count_seq(cs) as int,
                ));
            }
        }
    }
}

impl SymbolTree {
    /// Rebuild one generic node as a typed tree, consuming tokens from the
    /// front of the supply: the verified core of reconstruction.
    #[verifier::loop_isolation(false)]
    fn build(g: &ParseNode, supply: &mut Vec<Token>) -> (r: Result<SymbolTree, ReconstructError>)
        ensures
            match r {
                Ok(t) => {
                    &&& outcome(*g, old(supply)@) == Ok::<Seq<Token>, ReconstructError>(final(supply)@)
                    &&& mirrors(*g, t)
                    &&& leaves(t) + final(supply)@ == old(supply)@
                },
                Err(e) => outcome(*g, old(supply)@) == Err::<Seq<Token>, ReconstructError>(e),
            },
        decreases *g,
    {
        match g {
            ParseNode::Terminal => {
                if supply.len() == 0 {
                    Err(ReconstructError::SupplyExhausted)
                } else {
                    let tok = supply.remove(0);
                    proof {
                        assert(supply@ =~= old(supply)@.drop_first());
                        assert(leaves(SymbolTree::Terminal(tok)) + supply@ =~= old(supply)@);
                    }
                    Ok(SymbolTree::Terminal(tok))
                }
            },
            ParseNode::Branch(label, children) => {
                let sym = match Symbol::classify_any(label.as_str()) {
                    Ok(s) => s,
                    Err(_) => {
                        return Err(ReconstructError::UnknownLabel);
                    },
                };
                let ghost toks0 = supply@;
                proof {
                    assert(children@.skip(0) =~= children@);
                }
                let mut kids: Vec<SymbolTree> = Vec::new();
                let mut i: usize = 0;
                while i < children.len()
                    invariant
                        i <= children.len(),
                        kids@.len() == i as int,
                        forall|j: int| 0 <= j < i as int ==> mirrors(children@[j], #[trigger] kids@[j]),
                        leaves_seq(kids@) + supply@ == toks0,
                        outcome_seq(children@, toks0) == outcome_seq(
                            children@.skip(i as int),
                            supply@,
                        ),
                    decreases children.len() - i,
                {
                    let ghost kids_before = kids@;
                    let ghost supply_before = supply@;
                    let child = &children[i];
                    match Self::build(child, supply) {
                        Ok(t) => {
                            proof {
                                assert(children@.skip(i as int)[0] == children@[i as int]);
                                assert(children@.skip(i as int).drop_first() =~= children@.skip(
                                    i as int + 1,
                                ));
                                lemma_leaves_seq_push(kids_before, t);
                                assert((leaves_seq(kids_before) + leaves(t)) + supply@
                                    =~= leaves_seq(kids_before) + (leaves(t) + supply@));
                            }
                            kids.push(t);
                            i = i + 1;
                        },
                        Err(e) => {
                            proof {
                                assert(children@.skip(i as int)[0] == children@[i as int]);
                            }
                            return Err(e);
                        },
                    }
                }
                proof {
                    assert(children@.skip(children@.len() as int) =~= Seq::<ParseNode>::empty());
                }
                Ok(SymbolTree::Branch(sym, kids))
            },
        }
    }

    /// Reconstruct a typed tree from a generic parse tree and the sentence's
    /// token supply.  On success the typed tree mirrors the generic tree's
    /// shape exactly, its leaves are the first `leaf_count` tokens of the
    /// supply in production order, and the unconsumed remainder of the supply
    /// is returned beside it.  On failure no partial tree is returned: the
    /// error names the first inconsistency met in the depth-first walk — a
    /// label outside the catalog, or a supply with fewer tokens than the
    /// tree has terminal positions.
    pub fn reconstruct(root: &ParseNode, supply: Vec<Token>) -> (r: Result<
        (SymbolTree, Vec<Token>),
        ReconstructError,
    >)
        ensures
            match r {
                Ok(p) => {
                    &&& outcome(*root, supply@) == Ok::<Seq<Token>, ReconstructError>(p.1@)
                    &&& mirrors(*root, p.0)
                    &&& leaf_count(*root) <= supply@.len()
                    &&& leaves(p.0) == supply@.take(leaf_count(*root) as int)
                    &&& p.1@ == supply@.skip(leaf_count(*root) as int)
                },
                Err(e) => outcome(*root, supply@) == Err::<Seq<Token>, ReconstructError>(e),
            },
    {
        let mut rest = supply;
        match Self::build(root, &mut rest) {
            Ok(t) => {
                proof {
                    lemma_outcome_ok(*root, supply@);
                    assert(leaves(t) =~= supply@.take(leaf_count(*root) as int));
                }
                Ok((t, rest))
            },
            Err(e) => Err(e),
        }
    }

    /// Narrow to the leaf variant, yielding the lexical token it owns.
    /// Fails, naming both the expected and the actual variant, when called
    /// on a branch; no default token is ever produced.
    pub fn unwrap_terminal(self) -> (r: Result<Token, AccessError>)
        ensures
            match r {
                Ok(tok) => self == SymbolTree::Terminal(tok),
                Err(e) => self is Branch && e == AccessError::ExpectedTerminalFoundBranch,
            },
    {
        match self {
            SymbolTree::Terminal(t) => Ok(t),
            SymbolTree::Branch(_, _) => Err(AccessError::ExpectedTerminalFoundBranch),
        }
    }

    /// Narrow to the branch variant, yielding its catalog symbol and its
    /// children.  Fails, naming both the expected and the actual variant,
    /// when called on a leaf.
    pub fn unwrap_branch(self) -> (r: Result<(Symbol, Vec<SymbolTree>), AccessError>)
        ensures
            match r {
                Ok(p) => self == SymbolTree::Branch(p.0, p.1),
                Err(e) => self is Terminal && e == AccessError::ExpectedBranchFoundTerminal,
            },
    {
        match self {
            SymbolTree::Terminal(_) => Err(AccessError::ExpectedBranchFoundTerminal),
            SymbolTree::Branch(sym, trees) => Ok((sym, trees)),
        }
    }
}

} // verus!
