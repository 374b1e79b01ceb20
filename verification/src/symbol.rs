//! The grammar symbol catalog: a closed vocabulary of category identifiers,
//! partitioned into terminal part-of-speech categories and nonterminal
//! semantic categories, with total, fallible classification of the bare
//! string labels used by the external parsing engine.
//!
//! The two label namespaces are disjoint by construction of the grammar, and
//! classification of a generic label always attempts the terminal namespace
//! first: most labels met during tree reconstruction are part-of-speech tags,
//! and the precedence rule makes the common case cheap and the behaviour on a
//! (never expected) collision explicit.

use vstd::prelude::*;

use crate::errors::ClassificationError;

verus! {

/// A terminal part-of-speech category: the lexical class of one token.
#[derive(Hash, Copy, Clone, Debug, Eq, PartialEq, Structural)]
pub enum TerminalSymbol {
    NN,
    NNS,
    NNP,
    NNPS,
    VB,
    VBP,
    VBZ,
    VBN,
    VBG,
    VBD,
    JJ,
    JJR,
    JJS,
    RB,
    PRP,
    DT,
    IN,
    CC,
    MD,
    TO,
    RET,
    CODE,
    LIT,
    IF,
    FOR,
    ARITH,
    SHIFT,
    DOT,
    COMMA,
    EXCL,
    STR,
    CHAR,
}

/// A grammar symbol: one value of the closed catalog, either a nonterminal
/// semantic category or a terminal part-of-speech category.
#[derive(Hash, Copy, Clone, Debug, Eq, PartialEq, Structural)]
pub enum Symbol {
    S,
    MNN,
    TJJ,
    MJJ,
    MVB,
    IFF,
    EQTO,
    BITOP,
    ARITHOP,
    SHIFTOP,
    OP,
    OBJ,
    REL,
    MREL,
    PROP,
    PROP_OF,
    RSEP,
    RANGE,
    RANGEMOD,
    ASSERT,
    HASSERT,
    QUANT,
    QUANT_EXPR,
    QASSERT,
    MRET,
    BOOL_EXPR,
    COND,
    RETIF,
    SIDE,
    ASSIGN,
    EVENT,
    OBJV,
    NN,
    NNS,
    NNP,
    NNPS,
    VB,
    VBP,
    VBZ,
    VBN,
    VBG,
    VBD,
    JJ,
    JJR,
    JJS,
    RB,
    PRP,
    DT,
    IN,
    CC,
    MD,
    TO,
    RET,
    CODE,
    LIT,
    IF,
    FOR,
    ARITH,
    SHIFT,
    DOT,
    COMMA,
    EXCL,
    STR,
    CHAR,
}

/// The terminal namespace of the catalog: which terminal category, if any, a
/// label string names.
pub open spec fn terminal_symbol_of(label: Seq<char>) -> Option<TerminalSymbol> {
    if label == "NN"@ {
        Some(TerminalSymbol::NN)
    } else if label == "NNS"@ {
        Some(TerminalSymbol::NNS)
    } else if label == "NNP"@ {
        Some(TerminalSymbol::NNP)
    } else if label == "NNPS"@ {
        Some(TerminalSymbol::NNPS)
    } else if label == "VB"@ {
        Some(TerminalSymbol::VB)
    } else if label == "VBP"@ {
        Some(TerminalSymbol::VBP)
    } else if label == "VBZ"@ {
        Some(TerminalSymbol::VBZ)
    } else if label == "VBN"@ {
        Some(TerminalSymbol::VBN)
    } else if label == "VBG"@ {
        Some(TerminalSymbol::VBG)
    } else if label == "VBD"@ {
        Some(TerminalSymbol::VBD)
    } else if label == "JJ"@ {
        Some(TerminalSymbol::JJ)
    } else if label == "JJR"@ {
        Some(TerminalSymbol::JJR)
    } else if label == "JJS"@ {
        Some(TerminalSymbol::JJS)
    } else if label == "RB"@ {
        Some(TerminalSymbol::RB)
    } else if label == "PRP"@ {
        Some(TerminalSymbol::PRP)
    } else if label == "DT"@ {
        Some(TerminalSymbol::DT)
    } else if label == "IN"@ {
        Some(TerminalSymbol::IN)
    } else if label == "CC"@ {
        Some(TerminalSymbol::CC)
    } else if label == "MD"@ {
        Some(TerminalSymbol::MD)
    } else if label == "TO"@ {
        Some(TerminalSymbol::TO)
    } else if label == "RET"@ {
        Some(TerminalSymbol::RET)
    } else if label == "CODE"@ {
        Some(TerminalSymbol::CODE)
    } else if label == "LIT"@ {
        Some(TerminalSymbol::LIT)
    } else if label == "IF"@ {
        Some(TerminalSymbol::IF)
    } else if label == "FOR"@ {
        Some(TerminalSymbol::FOR)
    } else if label == "ARITH"@ {
        Some(TerminalSymbol::ARITH)
    } else if label == "SHIFT"@ {
        Some(TerminalSymbol::SHIFT)
    } else if label == "DOT"@ {
        Some(TerminalSymbol::DOT)
    } else if label == "COMMA"@ {
        Some(TerminalSymbol::COMMA)
    } else if label == "EXCL"@ {
        Some(TerminalSymbol::EXCL)
    } else if label == "STR"@ {
        Some(TerminalSymbol::STR)
    } else if label == "CHAR"@ {
        Some(TerminalSymbol::CHAR)
    } else {
        None
    }
}

/// The grammar symbol that stands for a terminal category.
pub open spec fn terminal_to_symbol(t: TerminalSymbol) -> Symbol {
    match t {
        TerminalSymbol::NN => Symbol::NN,
        TerminalSymbol::NNS => Symbol::NNS,
        TerminalSymbol::NNP => Symbol::NNP,
        TerminalSymbol::NNPS => Symbol::NNPS,
        TerminalSymbol::VB => Symbol::VB,
        TerminalSymbol::VBP => Symbol::VBP,
        TerminalSymbol::VBZ => Symbol::VBZ,
        TerminalSymbol::VBN => Symbol::VBN,
        TerminalSymbol::VBG => Symbol::VBG,
        TerminalSymbol::VBD => Symbol::VBD,
        TerminalSymbol::JJ => Symbol::JJ,
        TerminalSymbol::JJR => Symbol::JJR,
        TerminalSymbol::JJS => Symbol::JJS,
        TerminalSymbol::RB => Symbol::RB,
        TerminalSymbol::PRP => Symbol::PRP,
        TerminalSymbol::DT => Symbol::DT,
        TerminalSymbol::IN => Symbol::IN,
        TerminalSymbol::CC => Symbol::CC,
        TerminalSymbol::MD => Symbol::MD,
        TerminalSymbol::TO => Symbol::TO,
        TerminalSymbol::RET => Symbol::RET,
        TerminalSymbol::CODE => Symbol::CODE,
        TerminalSymbol::LIT => Symbol::LIT,
        TerminalSymbol::IF => Symbol::IF,
        TerminalSymbol::FOR => Symbol::FOR,
        TerminalSymbol::ARITH => Symbol::ARITH,
        TerminalSymbol::SHIFT => Symbol::SHIFT,
        TerminalSymbol::DOT => Symbol::DOT,
        TerminalSymbol::COMMA => Symbol::COMMA,
        TerminalSymbol::EXCL => Symbol::EXCL,
        TerminalSymbol::STR => Symbol::STR,
        TerminalSymbol::CHAR => Symbol::CHAR,
    }
}

/// The nonterminal namespace of the catalog: which nonterminal semantic
/// category, if any, a label string names.
pub open spec fn nonterminal_symbol_of(label: Seq<char>) -> Option<Symbol> {
    if label == "S"@ {
        Some(Symbol::S)
    } else if label == "MNN"@ {
        Some(Symbol::MNN)
    } else if label == "TJJ"@ {
        Some(Symbol::TJJ)
    } else if label == "MJJ"@ {
        Some(Symbol::MJJ)
    } else if label == "MVB"@ {
        Some(Symbol::MVB)
    } else if label == "IFF"@ {
        Some(Symbol::IFF)
    } else if label == "EQTO"@ {
        Some(Symbol::EQTO)
    } else if label == "BITOP"@ {
        Some(Symbol::BITOP)
    } else if label == "ARITHOP"@ {
        Some(Symbol::ARITHOP)
    } else if label == "SHIFTOP"@ {
        Some(Symbol::SHIFTOP)
    } else if label == "OP"@ {
        Some(Symbol::OP)
    } else if label == "OBJ"@ {
        Some(Symbol::OBJ)
    } else if label == "REL"@ {
        Some(Symbol::REL)
    } else if label == "MREL"@ {
        Some(Symbol::MREL)
    } else if label == "PROP"@ {
        Some(Symbol::PROP)
    } else if label == "PROP_OF"@ {
        Some(Symbol::PROP_OF)
    } else if label == "RSEP"@ {
        Some(Symbol::RSEP)
    } else if label == "RANGE"@ {
        Some(Symbol::RANGE)
    } else if label == "RANGEMOD"@ {
        Some(Symbol::RANGEMOD)
    } else if label == "ASSERT"@ {
        Some(Symbol::ASSERT)
    } else if label == "HASSERT"@ {
        Some(Symbol::HASSERT)
    } else if label == "QUANT"@ {
        Some(Symbol::QUANT)
    } else if label == "QUANT_EXPR"@ {
        Some(Symbol::QUANT_EXPR)
    } else if label == "QASSERT"@ {
        Some(Symbol::QASSERT)
    } else if label == "MRET"@ {
        Some(Symbol::MRET)
    } else if label == "BOOL_EXPR"@ {
        Some(Symbol::BOOL_EXPR)
    } else if label == "COND"@ {
        Some(Symbol::COND)
    } else if label == "RETIF"@ {
        Some(Symbol::RETIF)
    } else if label == "SIDE"@ {
        Some(Symbol::SIDE)
    } else if label == "ASSIGN"@ {
        Some(Symbol::ASSIGN)
    } else if label == "EVENT"@ {
        Some(Symbol::EVENT)
    } else if label == "OBJV"@ {
        Some(Symbol::OBJV)
    } else {
        None
    }
}

/// The whole catalog: terminal namespace first, then the nonterminal one.
/// This is the mapping applied to every label met during tree
/// reconstruction, whether the node turns out to be a leaf or a branch.
pub open spec fn any_symbol_of(label: Seq<char>) -> Option<Symbol> {
    match terminal_symbol_of(label) {
        Some(t) => Some(terminal_to_symbol(t)),
        None => nonterminal_symbol_of(label),
    }
}

/// Relies on the standard library's equality on `str`: true exactly when the
/// two strings hold the same sequence of characters.
#[verifier::external_body]
fn str_eq(a: &str, b: &str) -> (r: bool)
    ensures
        r == (a@ == b@),
{
    a == b
}

impl TerminalSymbol {
    /// Classify a label in the terminal namespace alone.  Succeeds exactly
    /// for the labels of the catalog's terminal subset; any other label is
    /// returned inside the error, never defaulted.
    pub fn from_terminal(label: &str) -> (r: Result<TerminalSymbol, ClassificationError>)
        ensures
            match r {
                Ok(t) => terminal_symbol_of(label@) == Some(t),
                Err(e) => terminal_symbol_of(label@) is None && e.label@ == label@,
            },
    {
        if str_eq(label, "NN") {
            Ok(TerminalSymbol::NN)
        } else if str_eq(label, "NNS") {
            Ok(TerminalSymbol::NNS)
        } else if str_eq(label, "NNP") {
            Ok(TerminalSymbol::NNP)
        } else if str_eq(label, "NNPS") {
            Ok(TerminalSymbol::NNPS)
        } else if str_eq(label, "VB") {
            Ok(TerminalSymbol::VB)
        } else if str_eq(label, "VBP") {
            Ok(TerminalSymbol::VBP)
        } else if str_eq(label, "VBZ") {
            Ok(TerminalSymbol::VBZ)
        } else if str_eq(label, "VBN") {
            Ok(TerminalSymbol::VBN)
        } else if str_eq(label, "VBG") {
            Ok(TerminalSymbol::VBG)
        } else if str_eq(label, "VBD") {
            Ok(TerminalSymbol::VBD)
        } else if str_eq(label, "JJ") {
            Ok(TerminalSymbol::JJ)
        } else if str_eq(label, "JJR") {
            Ok(TerminalSymbol::JJR)
        } else if str_eq(label, "JJS") {
            Ok(TerminalSymbol::JJS)
        } else if str_eq(label, "RB") {
            Ok(TerminalSymbol::RB)
        } else if str_eq(label, "PRP") {
            Ok(TerminalSymbol::PRP)
        } else if str_eq(label, "DT") {
            Ok(TerminalSymbol::DT)
        } else if str_eq(label, "IN") {
            Ok(TerminalSymbol::IN)
        } else if str_eq(label, "CC") {
            Ok(TerminalSymbol::CC)
        } else if str_eq(label, "MD") {
            Ok(TerminalSymbol::MD)
        } else if str_eq(label, "TO") {
            Ok(TerminalSymbol::TO)
        } else if str_eq(label, "RET") {
            Ok(TerminalSymbol::RET)
        } else if str_eq(label, "CODE") {
            Ok(TerminalSymbol::CODE)
        } else if str_eq(label, "LIT") {
            Ok(TerminalSymbol::LIT)
        } else if str_eq(label, "IF") {
            Ok(TerminalSymbol::IF)
        } else if str_eq(label, "FOR") {
            Ok(TerminalSymbol::FOR)
        } else if str_eq(label, "ARITH") {
            Ok(TerminalSymbol::ARITH)
        } else if str_eq(label, "SHIFT") {
            Ok(TerminalSymbol::SHIFT)
        } else if str_eq(label, "DOT") {
            Ok(TerminalSymbol::DOT)
        } else if str_eq(label, "COMMA") {
            Ok(TerminalSymbol::COMMA)
        } else if str_eq(label, "EXCL") {
            Ok(TerminalSymbol::EXCL)
        } else if str_eq(label, "STR") {
            Ok(TerminalSymbol::STR)
        } else if str_eq(label, "CHAR") {
            Ok(TerminalSymbol::CHAR)
        } else {
            Err(ClassificationError { label: label.to_owned() })
        }
    }
}

impl core::convert::From<TerminalSymbol> for Symbol {
    /// Embed a terminal category into the full symbol catalog.
    fn from(t: TerminalSymbol) -> (s: Symbol) {
        match t {
            TerminalSymbol::NN => Symbol::NN,
            TerminalSymbol::NNS => Symbol::NNS,
            TerminalSymbol::NNP => Symbol::NNP,
            TerminalSymbol::NNPS => Symbol::NNPS,
            TerminalSymbol::VB => Symbol::VB,
            TerminalSymbol::VBP => Symbol::VBP,
            TerminalSymbol::VBZ => Symbol::VBZ,
            TerminalSymbol::VBN => Symbol::VBN,
            TerminalSymbol::VBG => Symbol::VBG,
            TerminalSymbol::VBD => Symbol::VBD,
            TerminalSymbol::JJ => Symbol::JJ,
            TerminalSymbol::JJR => Symbol::JJR,
            TerminalSymbol::JJS => Symbol::JJS,
            TerminalSymbol::RB => Symbol::RB,
            TerminalSymbol::PRP => Symbol::PRP,
            TerminalSymbol::DT => Symbol::DT,
            TerminalSymbol::IN => Symbol::IN,
            TerminalSymbol::CC => Symbol::CC,
            TerminalSymbol::MD => Symbol::MD,
            TerminalSymbol::TO => Symbol::TO,
            TerminalSymbol::RET => Symbol::RET,
            TerminalSymbol::CODE => Symbol::CODE,
            TerminalSymbol::LIT => Symbol::LIT,
            TerminalSymbol::IF => Symbol::IF,
            TerminalSymbol::FOR => Symbol::FOR,
            TerminalSymbol::ARITH => Symbol::ARITH,
            TerminalSymbol::SHIFT => Symbol::SHIFT,
            TerminalSymbol::DOT => Symbol::DOT,
            TerminalSymbol::COMMA => Symbol::COMMA,
            TerminalSymbol::EXCL => Symbol::EXCL,
            TerminalSymbol::STR => Symbol::STR,
            TerminalSymbol::CHAR => Symbol::CHAR,
        }
    }
}

impl vstd::std_specs::convert::FromSpecImpl<TerminalSymbol> for Symbol {
    open spec fn obeys_from_spec() -> bool {
        true
    }

    open spec fn from_spec(t: TerminalSymbol) -> Symbol {
        terminal_to_symbol(t)
    }
}

impl Symbol {
    /// Classify a label as a terminal category.  Succeeds exactly for the
    /// labels of the terminal subset of the catalog.
    pub fn classify_terminal(label: &str) -> (r: Result<Symbol, ClassificationError>)
        ensures
            match r {
                Ok(s) => terminal_symbol_of(label@) matches Some(t) && s == terminal_to_symbol(t),
                Err(e) => terminal_symbol_of(label@) is None && e.label@ == label@,
            },
    {
        match TerminalSymbol::from_terminal(label) {
            Ok(t) => Ok(Symbol::from(t)),
            Err(e) => Err(e),
        }
    }

    /// Classify a label met where a nonterminal is expected.  The external
    /// engine does not distinguish the two label namespaces, so the terminal
    /// namespace is attempted first and the nonterminal one on its failure;
    /// classification fails only if the label is in neither.
    pub fn classify_nonterminal(label: &str) -> (r: Result<Symbol, ClassificationError>)
        ensures
            match r {
                Ok(s) => any_symbol_of(label@) == Some(s),
                Err(e) => any_symbol_of(label@) is None && e.label@ == label@,
            },
    {
        Symbol::classify_any(label)
    }

    /// Classify a label of either namespace: the union mapping applied to
    /// every node label during tree reconstruction.  Terminal labels win, per
    /// the catalog's precedence rule.
    pub fn classify_any(label: &str) -> (r: Result<Symbol, ClassificationError>)
        ensures
            match r {
                Ok(s) => any_symbol_of(label@) == Some(s),
                Err(e) => any_symbol_of(label@) is None && e.label@ == label@,
            },
    {
        match TerminalSymbol::from_terminal(label) {
            Ok(t) => {
                return Ok(Symbol::from(t));
            },
            Err(_) => {},
        }
        if str_eq(label, "S") {
            Ok(Symbol::S)
        } else if str_eq(label, "MNN") {
            Ok(Symbol::MNN)
        } else if str_eq(label, "TJJ") {
            Ok(Symbol::TJJ)
        } else if str_eq(label, "MJJ") {
            Ok(Symbol::MJJ)
        } else if str_eq(label, "MVB") {
            Ok(Symbol::MVB)
        } else if str_eq(label, "IFF") {
            Ok(Symbol::IFF)
        } else if str_eq(label, "EQTO") {
            Ok(Symbol::EQTO)
        } else if str_eq(label, "BITOP") {
            Ok(Symbol::BITOP)
        } else if str_eq(label, "ARITHOP") {
            Ok(Symbol::ARITHOP)
        } else if str_eq(label, "SHIFTOP") {
            Ok(Symbol::SHIFTOP)
        } else if str_eq(label, "OP") {
            Ok(Symbol::OP)
        } else if str_eq(label, "OBJ") {
            Ok(Symbol::OBJ)
        } else if str_eq(label, "REL") {
            Ok(Symbol::REL)
        } else if str_eq(label, "MREL") {
            Ok(Symbol::MREL)
        } else if str_eq(label, "PROP") {
            Ok(Symbol::PROP)
        } else if str_eq(label, "PROP_OF") {
            Ok(Symbol::PROP_OF)
        } else if str_eq(label, "RSEP") {
            Ok(Symbol::RSEP)
        } else if str_eq(label, "RANGE") {
            Ok(Symbol::RANGE)
        } else if str_eq(label, "RANGEMOD") {
            Ok(Symbol::RANGEMOD)
        } else if str_eq(label, "ASSERT") {
            Ok(Symbol::ASSERT)
        } else if str_eq(label, "HASSERT") {
            Ok(Symbol::HASSERT)
        } else if str_eq(label, "QUANT") {
            Ok(Symbol::QUANT)
        } else if str_eq(label, "QUANT_EXPR") {
            Ok(Symbol::QUANT_EXPR)
        } else if str_eq(label, "QASSERT") {
            Ok(Symbol::QASSERT)
        } else if str_eq(label, "MRET") {
            Ok(Symbol::MRET)
        } else if str_eq(label, "BOOL_EXPR") {
            Ok(Symbol::BOOL_EXPR)
        } else if str_eq(label, "COND") {
            Ok(Symbol::COND)
        } else if str_eq(label, "RETIF") {
            Ok(Symbol::RETIF)
        } else if str_eq(label, "SIDE") {
            Ok(Symbol::SIDE)
        } else if str_eq(label, "ASSIGN") {
            Ok(Symbol::ASSIGN)
        } else if str_eq(label, "EVENT") {
            Ok(Symbol::EVENT)
        } else if str_eq(label, "OBJV") {
            Ok(Symbol::OBJV)
        } else {
            Err(ClassificationError { label: label.to_owned() })
        }
    }
}

/// Law: terminal classification takes precedence.  A label that the terminal
/// namespace recognizes classifies, wherever a generic label is classified,
/// to that terminal category's symbol; the nonterminal namespace is never
/// consulted for it.
pub proof fn lemma_terminal_precedence(label: Seq<char>)
    ensures
        terminal_symbol_of(label) matches Some(t) ==> any_symbol_of(label) == Some(
            terminal_to_symbol(t),
        ),
{
}

} // verus!
