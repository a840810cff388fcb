//! Bracket balance of the rendered text.
//!
//! The renderer wraps every composite node in exactly one pair of
//! brackets, so — as long as no variable name itself contains a bracket
//! character — the rendered text holds exactly one opening and one
//! closing bracket per composite node, at any nesting depth.

use vstd::prelude::*;

use crate::formula::FormulaModel;
use crate::formula::rendering;

verus! {

/// The number of occurrences of the character `c` in `s`.
pub open spec fn count_char(s: Seq<char>, c: char) -> nat
    decreases s.len(),
{
    if s.len() == 0 {
        0
    } else {
        (if s[0] == c {
            1nat
        } else {
            0nat
        }) + count_char(s.drop_first(), c)
    }
}

/// The number of composite (operator) nodes of a tree: every node except
/// the variable leaves.
pub open spec fn composite_count(m: FormulaModel) -> nat
    decreases m,
{
    match m {
        FormulaModel::Variable(_) => 0,
        FormulaModel::And(l, r) => 1 + composite_count(*l) + composite_count(*r),
        FormulaModel::Or(l, r) => 1 + composite_count(*l) + composite_count(*r),
        FormulaModel::Not(f) => 1 + composite_count(*f),
        FormulaModel::Implication(l, r) => 1 + composite_count(*l) + composite_count(*r),
        FormulaModel::Equivalence(l, r) => 1 + composite_count(*l) + composite_count(*r),
    }
}

/// Holds when no variable name anywhere in the tree contains a bracket
/// character. Names are opaque text, so nothing rules brackets out of
/// them at construction; only for bracket-free names is the bracket
/// count of the output determined by the tree's shape.
pub open spec fn variables_bracket_free(m: FormulaModel) -> bool
    decreases m,
{
    match m {
        FormulaModel::Variable(name) => count_char(name, '(') == 0 && count_char(name, ')') == 0,
        FormulaModel::And(l, r) => variables_bracket_free(*l) && variables_bracket_free(*r),
        FormulaModel::Or(l, r) => variables_bracket_free(*l) && variables_bracket_free(*r),
        FormulaModel::Not(f) => variables_bracket_free(*f),
        FormulaModel::Implication(l, r) => variables_bracket_free(*l) && variables_bracket_free(
            *r,
        ),
        FormulaModel::Equivalence(l, r) => variables_bracket_free(*l) && variables_bracket_free(
            *r,
        ),
    }
}

proof fn lemma_count_char_concat(s: Seq<char>, t: Seq<char>, c: char)
    ensures
        count_char(s + t, c) == count_char(s, c) + count_char(t, c),
    decreases s.len(),
{
    if s.len() == 0 {
        assert(s + t =~= t);
    } else {
        assert((s + t).drop_first() =~= s.drop_first() + t);
        lemma_count_char_concat(s.drop_first(), t, c);
    }
}

proof fn lemma_count_char_concat3(a: Seq<char>, b: Seq<char>, c: Seq<char>, ch: char)
    ensures
        count_char(a + b + c, ch) == count_char(a, ch) + count_char(b, ch) + count_char(c, ch),
{
    lemma_count_char_concat(a, b, ch);
    lemma_count_char_concat(a + b, c, ch);
}

proof fn lemma_count_char_concat5(
    a: Seq<char>,
    b: Seq<char>,
    c: Seq<char>,
    d: Seq<char>,
    e: Seq<char>,
    ch: char,
)
    ensures
        count_char(a + b + c + d + e, ch) == count_char(a, ch) + count_char(b, ch) + count_char(
            c,
            ch,
        ) + count_char(d, ch) + count_char(e, ch),
{
    lemma_count_char_concat(a, b, ch);
    lemma_count_char_concat(a + b, c, ch);
    lemma_count_char_concat(a + b + c, d, ch);
    lemma_count_char_concat(a + b + c + d, e, ch);
}

proof fn lemma_count_char_absent(s: Seq<char>, c: char)
    requires
        forall|i: int| 0 <= i < s.len() ==> s[i] != c,
    ensures
        count_char(s, c) == 0,
    decreases s.len(),
{
    if s.len() > 0 {
        assert(forall|i: int|
            0 <= i < s.drop_first().len() ==> s.drop_first()[i] == s[i + 1]);
        lemma_count_char_absent(s.drop_first(), c);
    }
}

proof fn lemma_count_char_single(s: Seq<char>, c: char)
    requires
        s.len() == 1,
        s[0] == c,
    ensures
        count_char(s, c) == 1,
{
    assert(count_char(s.drop_first(), c) == 0);
}

proof fn lemma_operator_literal_counts()
    ensures
        count_char("("@, '(') == 1,
        count_char("("@, ')') == 0,
        count_char(")"@, '(') == 0,
        count_char(")"@, ')') == 1,
        count_char("!("@, '(') == 1,
        count_char("!("@, ')') == 0,
        count_char(" & "@, '(') == 0,
        count_char(" & "@, ')') == 0,
        count_char(" | "@, '(') == 0,
        count_char(" | "@, ')') == 0,
        count_char(" => "@, '(') == 0,
        count_char(" => "@, ')') == 0,
        count_char(" <=> "@, '(') == 0,
        count_char(" <=> "@, ')') == 0,
{
    reveal_strlit("(");
    reveal_strlit(")");
    reveal_strlit("!(");
    reveal_strlit(" & ");
    reveal_strlit(" | ");
    reveal_strlit(" => ");
    reveal_strlit(" <=> ");
    lemma_count_char_single("("@, '(');
    lemma_count_char_absent("("@, ')');
    lemma_count_char_absent(")"@, '(');
    lemma_count_char_single(")"@, ')');
    let bang = "!("@;
    assert(count_char(bang.drop_first(), '(') == 1) by {
        lemma_count_char_single(bang.drop_first(), '(');
    }
    assert(count_char(bang, '(') == 1);
    lemma_count_char_absent(bang, ')');
    lemma_count_char_absent(" & "@, '(');
    lemma_count_char_absent(" & "@, ')');
    lemma_count_char_absent(" | "@, '(');
    lemma_count_char_absent(" | "@, ')');
    lemma_count_char_absent(" => "@, '(');
    lemma_count_char_absent(" => "@, ')');
    lemma_count_char_absent(" <=> "@, '(');
    lemma_count_char_absent(" <=> "@, ')');
}

/// Rendering never corrupts bracket balance, however deep the nesting:
/// when no variable name contains a bracket character, the rendered text
/// holds exactly one opening bracket per composite node, and exactly as
/// many closing brackets.
pub proof fn lemma_rendering_bracket_balance(m: FormulaModel)
    requires
        variables_bracket_free(m),
    ensures
        count_char(rendering(m), '(') == composite_count(m),
        count_char(rendering(m), ')') == composite_count(m),
    decreases m,
{
    lemma_operator_literal_counts();
    match m {
        FormulaModel::Variable(_) => {},
        FormulaModel::And(l, r) => {
            lemma_rendering_bracket_balance(*l);
            lemma_rendering_bracket_balance(*r);
            lemma_count_char_concat5("("@, rendering(*l), " & "@, rendering(*r), ")"@, '(');
            lemma_count_char_concat5("("@, rendering(*l), " & "@, rendering(*r), ")"@, ')');
        },
        FormulaModel::Or(l, r) => {
            lemma_rendering_bracket_balance(*l);
            lemma_rendering_bracket_balance(*r);
            lemma_count_char_concat5("("@, rendering(*l), " | "@, rendering(*r), ")"@, '(');
            lemma_count_char_concat5("("@, rendering(*l), " | "@, rendering(*r), ")"@, ')');
        },
        FormulaModel::Not(f) => {
            lemma_rendering_bracket_balance(*f);
            lemma_count_char_concat3("!("@, rendering(*f), ")"@, '(');
            lemma_count_char_concat3("!("@, rendering(*f), ")"@, ')');
        },
        FormulaModel::Implication(l, r) => {
            lemma_rendering_bracket_balance(*l);
            lemma_rendering_bracket_balance(*r);
            lemma_count_char_concat5("("@, rendering(*l), " => "@, rendering(*r), ")"@, '(');
            lemma_count_char_concat5("("@, rendering(*l), " => "@, rendering(*r), ")"@, ')');
        },
        FormulaModel::Equivalence(l, r) => {
            lemma_rendering_bracket_balance(*l);
            lemma_rendering_bracket_balance(*r);
            lemma_count_char_concat5("("@, rendering(*l), " <=> "@, rendering(*r), ")"@, '(');
            lemma_count_char_concat5("("@, rendering(*l), " <=> "@, rendering(*r), ")"@, ')');
        },
    }
}

} // verus!
