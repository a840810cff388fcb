//! The formula tree type, its construction API, and its renderer.
//!
//! A `Formula` owns a single root node; nodes form a strict tree in which
//! every operator node exclusively owns its operand subtrees. Trees are
//! built bottom-up from variables, combined by constructors that consume
//! their inputs, and are immutable once built. Rendering walks the tree
//! and produces the fully-bracketed text: every composite node is wrapped
//! in parentheses, so operator precedence never matters in the output.

use vstd::prelude::*;

verus! {

/// Mathematical model of a formula tree: the shape of the tree, with each
/// variable name abstracted to its sequence of characters.
pub enum FormulaModel {
    Variable(Seq<char>),
    And(Box<FormulaModel>, Box<FormulaModel>),
    Or(Box<FormulaModel>, Box<FormulaModel>),
    Not(Box<FormulaModel>),
    Implication(Box<FormulaModel>, Box<FormulaModel>),
    Equivalence(Box<FormulaModel>, Box<FormulaModel>),
}

/// The fully-bracketed text of a formula: a variable is its name verbatim,
/// each binary operator wraps its operands in parentheses around the
/// operator symbol, and negation wraps its operand as `!(...)`.
pub open spec fn rendering(m: FormulaModel) -> Seq<char>
    decreases m,
{
    match m {
        FormulaModel::Variable(name) => name,
        FormulaModel::And(l, r) => "("@ + rendering(*l) + " & "@ + rendering(*r) + ")"@,
        FormulaModel::Or(l, r) => "("@ + rendering(*l) + " | "@ + rendering(*r) + ")"@,
        FormulaModel::Not(f) => "!("@ + rendering(*f) + ")"@,
        FormulaModel::Implication(l, r) => "("@ + rendering(*l) + " => "@ + rendering(*r) + ")"@,
        FormulaModel::Equivalence(l, r) => "("@ + rendering(*l) + " <=> "@ + rendering(*r) + ")"@,
    }
}

/// Rendering a variable yields exactly its name, with no brackets and
/// no escaping.
pub proof fn lemma_rendering_variable(name: Seq<char>)
    ensures
        rendering(FormulaModel::Variable(name)) == name,
{
}

/// Rendering a conjunction yields the two operands' renderings joined by
/// the operator symbol, wrapped in one pair of brackets.
pub proof fn lemma_rendering_and(a: FormulaModel, b: FormulaModel)
    ensures
        rendering(FormulaModel::And(Box::new(a), Box::new(b))) == "("@ + rendering(a) + " & "@
            + rendering(b) + ")"@,
{
}

/// Rendering a disjunction yields the two operands' renderings joined by
/// the operator symbol, wrapped in one pair of brackets.
pub proof fn lemma_rendering_or(a: FormulaModel, b: FormulaModel)
    ensures
        rendering(FormulaModel::Or(Box::new(a), Box::new(b))) == "("@ + rendering(a) + " | "@
            + rendering(b) + ")"@,
{
}

/// Rendering an implication yields the two operands' renderings joined by
/// the operator symbol, wrapped in one pair of brackets.
pub proof fn lemma_rendering_implication(a: FormulaModel, b: FormulaModel)
    ensures
        rendering(FormulaModel::Implication(Box::new(a), Box::new(b))) == "("@ + rendering(a)
            + " => "@ + rendering(b) + ")"@,
{
}

/// Rendering an equivalence yields the two operands' renderings joined by
/// the operator symbol, wrapped in one pair of brackets.
pub proof fn lemma_rendering_equivalence(a: FormulaModel, b: FormulaModel)
    ensures
        rendering(FormulaModel::Equivalence(Box::new(a), Box::new(b))) == "("@ + rendering(a)
            + " <=> "@ + rendering(b) + ")"@,
{
}

/// Rendering a negation yields the operand's rendering wrapped as `!(...)`.
pub proof fn lemma_rendering_not(a: FormulaModel)
    ensures
        rendering(FormulaModel::Not(Box::new(a))) == "!("@ + rendering(a) + ")"@,
{
}

/// Rendering is deterministic: any two renderings of the same tree are
/// identical, since the text is a function of the tree alone.
pub proof fn lemma_rendering_deterministic(m: FormulaModel, s1: Seq<char>, s2: Seq<char>)
    requires
        s1 == rendering(m),
        s2 == rendering(m),
    ensures
        s1 == s2,
{
}

/// Explicit bracketing preserves grouping: a conjunction whose left operand
/// is a disjunction keeps that disjunction inside its own pair of brackets.
pub proof fn lemma_rendering_grouping(a: FormulaModel, b: FormulaModel, c: FormulaModel)
    ensures
        rendering(
            FormulaModel::And(
                Box::new(FormulaModel::Or(Box::new(a), Box::new(b))),
                Box::new(c),
            ),
        ) == "("@ + ("("@ + rendering(a) + " | "@ + rendering(b) + ")"@) + " & "@ + rendering(c)
            + ")"@,
{
    lemma_rendering_or(a, b);
    lemma_rendering_and(FormulaModel::Or(Box::new(a), Box::new(b)), c);
}

/// Represents a formal logic formula.
/// All of its nodes are stored on the heap.
pub struct Formula {
    root: FormulaLink,
}

type FormulaLink = Box<FormulaNode>;

enum FormulaNode {
    Variable(String),
    And(FormulaLink, FormulaLink),
    Or(FormulaLink, FormulaLink),
    Not(FormulaLink),
    Implication(FormulaLink, FormulaLink),
    Equivalence(FormulaLink, FormulaLink),
}

impl FormulaNode {
    spec fn model(self) -> FormulaModel
        decreases self,
    {
        match self {
            FormulaNode::Variable(name) => FormulaModel::Variable(name@),
            FormulaNode::And(l, r) => FormulaModel::And(
                Box::new((*l).model()),
                Box::new((*r).model()),
            ),
            FormulaNode::Or(l, r) => FormulaModel::Or(
                Box::new((*l).model()),
                Box::new((*r).model()),
            ),
            FormulaNode::Not(f) => FormulaModel::Not(Box::new((*f).model())),
            FormulaNode::Implication(l, r) => FormulaModel::Implication(
                Box::new((*l).model()),
                Box::new((*r).model()),
            ),
            FormulaNode::Equivalence(l, r) => FormulaModel::Equivalence(
                Box::new((*l).model()),
                Box::new((*r).model()),
            ),
        }
    }
}

impl View for Formula {
    type V = FormulaModel;

    closed spec fn view(&self) -> FormulaModel {
        (*self.root).model()
    }
}

impl Formula {
    fn from_node(node: FormulaNode) -> (f: Self)
        ensures
            f@ == node.model(),
    {
        Self { root: Box::new(node) }
    }

    /// Constructs a leaf formula holding a single variable.
    /// The name is opaque text; no validation is applied at this layer.
    pub fn var(name: String) -> (f: Self)
        ensures
            f@ == FormulaModel::Variable(name@),
    {
        Self::from_node(FormulaNode::Variable(name))
    }

    /// Conjunction: consumes both operands, in the given left/right order.
    pub fn and(lhs: Self, rhs: Self) -> (f: Self)
        ensures
            f@ == FormulaModel::And(Box::new(lhs@), Box::new(rhs@)),
    {
        Self::from_node(FormulaNode::And(lhs.root, rhs.root))
    }

    /// Disjunction: consumes both operands, in the given left/right order.
    pub fn or(lhs: Self, rhs: Self) -> (f: Self)
        ensures
            f@ == FormulaModel::Or(Box::new(lhs@), Box::new(rhs@)),
    {
        Self::from_node(FormulaNode::Or(lhs.root, rhs.root))
    }

    /// Negation: consumes its operand.
    pub fn not(formula: Self) -> (f: Self)
        ensures
            f@ == FormulaModel::Not(Box::new(formula@)),
    {
        Self::from_node(FormulaNode::Not(formula.root))
    }

    /// Implication: consumes both operands, in the given left/right order.
    pub fn implication(lhs: Self, rhs: Self) -> (f: Self)
        ensures
            f@ == FormulaModel::Implication(Box::new(lhs@), Box::new(rhs@)),
    {
        Self::from_node(FormulaNode::Implication(lhs.root, rhs.root))
    }

    /// Equivalence: consumes both operands, in the given left/right order.
    pub fn equivalence(lhs: Self, rhs: Self) -> (f: Self)
        ensures
            f@ == FormulaModel::Equivalence(Box::new(lhs@), Box::new(rhs@)),
    {
        Self::from_node(FormulaNode::Equivalence(lhs.root, rhs.root))
    }

    /// Produces the fully-bracketed text of the formula. The tree's text
    /// is exactly its root node's text, with no extra wrapping.
    pub fn render(&self) -> (text: String)
        ensures
            text@ == rendering(self@),
    {
        render_node(&*self.root)
    }
}

/// Recursive, depth-first rendering of a node in fully-bracketed form.
fn render_node(node: &FormulaNode) -> (text: String)
    ensures
        text@ == rendering(node.model()),
    decreases *node,
{
    match node {
        FormulaNode::Variable(name) => name.clone(),
        FormulaNode::And(l, r) => {
            let left = render_node(&**l);
            let right = render_node(&**r);
            let mut text = String::from_str("(");
            text.append(left.as_str());
            text.append(" & ");
            text.append(right.as_str());
            text.append(")");
            text
        },
        FormulaNode::Or(l, r) => {
            let left = render_node(&**l);
            let right = render_node(&**r);
            let mut text = String::from_str("(");
            text.append(left.as_str());
            text.append(" | ");
            text.append(right.as_str());
            text.append(")");
            text
        },
        FormulaNode::Not(f) => {
            let operand = render_node(&**f);
            let mut text = String::from_str("!(");
            text.append(operand.as_str());
            text.append(")");
            text
        },
        FormulaNode::Implication(l, r) => {
            let left = render_node(&**l);
            let right = render_node(&**r);
            let mut text = String::from_str("(");
            text.append(left.as_str());
            text.append(" => ");
            text.append(right.as_str());
            text.append(")");
            text
        },
        FormulaNode::Equivalence(l, r) => {
            let left = render_node(&**l);
            let right = render_node(&**r);
            let mut text = String::from_str("(");
            text.append(left.as_str());
            text.append(" <=> ");
            text.append(right.as_str());
            text.append(")");
            text
        },
    }
}

} // verus!
