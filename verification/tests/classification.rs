use symbol_tree::errors::ClassificationError;
use symbol_tree::symbol::Symbol;
use symbol_tree::symbol::TerminalSymbol;

fn terminal_catalog() -> Vec<(&'static str, TerminalSymbol, Symbol)> {
    vec![
        ("NN", TerminalSymbol::NN, Symbol::NN),
        ("NNS", TerminalSymbol::NNS, Symbol::NNS),
        ("NNP", TerminalSymbol::NNP, Symbol::NNP),
        ("NNPS", TerminalSymbol::NNPS, Symbol::NNPS),
        ("VB", TerminalSymbol::VB, Symbol::VB),
        ("VBP", TerminalSymbol::VBP, Symbol::VBP),
        ("VBZ", TerminalSymbol::VBZ, Symbol::VBZ),
        ("VBN", TerminalSymbol::VBN, Symbol::VBN),
        ("VBG", TerminalSymbol::VBG, Symbol::VBG),
        ("VBD", TerminalSymbol::VBD, Symbol::VBD),
        ("JJ", TerminalSymbol::JJ, Symbol::JJ),
        ("JJR", TerminalSymbol::JJR, Symbol::JJR),
        ("JJS", TerminalSymbol::JJS, Symbol::JJS),
        ("RB", TerminalSymbol::RB, Symbol::RB),
        ("PRP", TerminalSymbol::PRP, Symbol::PRP),
        ("DT", TerminalSymbol::DT, Symbol::DT),
        ("IN", TerminalSymbol::IN, Symbol::IN),
        ("CC", TerminalSymbol::CC, Symbol::CC),
        ("MD", TerminalSymbol::MD, Symbol::MD),
        ("TO", TerminalSymbol::TO, Symbol::TO),
        ("RET", TerminalSymbol::RET, Symbol::RET),
        ("CODE", TerminalSymbol::CODE, Symbol::CODE),
        ("LIT", TerminalSymbol::LIT, Symbol::LIT),
        ("IF", TerminalSymbol::IF, Symbol::IF),
        ("FOR", TerminalSymbol::FOR, Symbol::FOR),
        ("ARITH", TerminalSymbol::ARITH, Symbol::ARITH),
        ("SHIFT", TerminalSymbol::SHIFT, Symbol::SHIFT),
        ("DOT", TerminalSymbol::DOT, Symbol::DOT),
        ("COMMA", TerminalSymbol::COMMA, Symbol::COMMA),
        ("EXCL", TerminalSymbol::EXCL, Symbol::EXCL),
        ("STR", TerminalSymbol::STR, Symbol::STR),
        ("CHAR", TerminalSymbol::CHAR, Symbol::CHAR),
    ]
}

fn nonterminal_catalog() -> Vec<(&'static str, Symbol)> {
    vec![
        ("S", Symbol::S),
        ("MNN", Symbol::MNN),
        ("TJJ", Symbol::TJJ),
        ("MJJ", Symbol::MJJ),
        ("MVB", Symbol::MVB),
        ("IFF", Symbol::IFF),
        ("EQTO", Symbol::EQTO),
        ("BITOP", Symbol::BITOP),
        ("ARITHOP", Symbol::ARITHOP),
        ("SHIFTOP", Symbol::SHIFTOP),
        ("OP", Symbol::OP),
        ("OBJ", Symbol::OBJ),
        ("REL", Symbol::REL),
        ("MREL", Symbol::MREL),
        ("PROP", Symbol::PROP),
        ("PROP_OF", Symbol::PROP_OF),
        ("RSEP", Symbol::RSEP),
        ("RANGE", Symbol::RANGE),
        ("RANGEMOD", Symbol::RANGEMOD),
        ("ASSERT", Symbol::ASSERT),
        ("HASSERT", Symbol::HASSERT),
        ("QUANT", Symbol::QUANT),
        ("QUANT_EXPR", Symbol::QUANT_EXPR),
        ("QASSERT", Symbol::QASSERT),
        ("MRET", Symbol::MRET),
        ("BOOL_EXPR", Symbol::BOOL_EXPR),
        ("COND", Symbol::COND),
        ("RETIF", Symbol::RETIF),
        ("SIDE", Symbol::SIDE),
        ("ASSIGN", Symbol::ASSIGN),
        ("EVENT", Symbol::EVENT),
        ("OBJV", Symbol::OBJV),
    ]
}

#[test]
fn every_terminal_label_classifies() {
    for (label, term, sym) in terminal_catalog() {
        assert_eq!(TerminalSymbol::from_terminal(label), Ok(term));
        assert_eq!(Symbol::classify_terminal(label), Ok(sym));
        assert_eq!(Symbol::classify_any(label), Ok(sym));
        assert_eq!(Symbol::classify_nonterminal(label), Ok(sym));
    }
}

#[test]
fn every_nonterminal_label_classifies() {
    for (label, sym) in nonterminal_catalog() {
        assert_eq!(Symbol::classify_any(label), Ok(sym));
        assert_eq!(Symbol::classify_nonterminal(label), Ok(sym));
        // Nonterminal labels are not in the terminal namespace.
        assert!(Symbol::classify_terminal(label).is_err());
        assert!(TerminalSymbol::from_terminal(label).is_err());
    }
}

#[test]
fn terminal_embedding_matches_catalog() {
    for (_, term, sym) in terminal_catalog() {
        assert_eq!(Symbol::from(term), sym);
    }
}

#[test]
fn unknown_labels_fail_and_carry_the_label() {
    for label in ["", "nn", "NP", "XYZ", "S ", " S", "QUANTEXPR", "NN_"] {
        assert_eq!(
            Symbol::classify_any(label),
            Err(ClassificationError { label: label.to_string() })
        );
        assert_eq!(
            Symbol::classify_terminal(label),
            Err(ClassificationError { label: label.to_string() })
        );
        assert_eq!(
            Symbol::classify_nonterminal(label),
            Err(ClassificationError { label: label.to_string() })
        );
    }
}

#[test]
fn terminal_reading_wins_in_nonterminal_context() {
    // The engine does not distinguish the two label namespaces, so a
    // part-of-speech tag met where a nonterminal is expected still gets its
    // terminal reading, and the same symbol in every classification context.
    for (label, _, sym) in terminal_catalog() {
        assert_eq!(Symbol::classify_nonterminal(label), Ok(sym));
        assert_eq!(Symbol::classify_any(label), Ok(sym));
    }
}

#[test]
fn namespaces_are_disjoint() {
    for (nt_label, _) in nonterminal_catalog() {
        for (t_label, _, _) in terminal_catalog() {
            assert_ne!(nt_label, t_label);
        }
    }
}
