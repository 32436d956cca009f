use vstd::prelude::*;

verus! {

/// The two namespaces an unqualified import can bring a name into.
#[derive(Debug, Clone, Copy, PartialEq, Eq, Structural)]
pub enum Layer {
    Value,
    Type,
}

impl Layer {
    /// Whether the layer is the value namespace.
    pub fn is_value(&self) -> (r: bool)
        ensures
            r == (*self is Value),
    {
        match self {
            Layer::Value => true,
            Layer::Type => false,
        }
    }
}

impl Default for Layer {
    fn default() -> (r: Layer)
        ensures
            r is Value,
    {
        Layer::Value
    }
}

/// How a `let` binding treats a pattern that may not match.
#[derive(Debug, Clone, Copy, PartialEq, Eq, Structural)]
pub enum AssignmentKind {
    /// `let x = ...`
    Let,
    /// `let assert x = ...`
    Assert,
}

impl AssignmentKind {
    /// A plain `let` must be exhaustive; `let assert` may fail at run time.
    pub fn performs_exhaustiveness_check(&self) -> (r: bool)
        ensures
            r == (*self is Let),
    {
        match self {
            AssignmentKind::Let => true,
            AssignmentKind::Assert => false,
        }
    }
}

/// Why a `todo` placeholder stands in the code.
#[derive(Debug, Clone, Copy, PartialEq, Eq, Structural)]
pub enum TodoKind {
    Keyword,
    EmptyFunction,
    IncompleteUse,
}

/// A binary operator of the expression language.
#[derive(Debug, Clone, Copy, PartialEq, Eq, Structural)]
pub enum BinOp {
    // Boolean logic
    And,
    Or,
    // Equality
    Eq,
    NotEq,
    // Order comparison
    LtInt,
    LtEqInt,
    LtFloat,
    LtEqFloat,
    GtEqInt,
    GtInt,
    GtEqFloat,
    GtFloat,
    // Maths
    AddInt,
    AddFloat,
    SubInt,
    SubFloat,
    MultInt,
    MultFloat,
    DivInt,
    DivFloat,
    RemainderInt,
    // Strings
    Concatenate,
}

/// The rank of the pipe operator, which sits between concatenation and the
/// additive operators but is not a `BinOp`.
pub const PIPE_PRECEDENCE: u8 = 6;

impl BinOp {
    /// Whether the operator is one of the eight ordered comparisons.
    pub open spec fn is_ordering(self) -> bool {
        ||| self is LtInt
        ||| self is LtEqInt
        ||| self is LtFloat
        ||| self is LtEqFloat
        ||| self is GtEqInt
        ||| self is GtInt
        ||| self is GtEqFloat
        ||| self is GtFloat
    }

    /// Binding strength: a lower rank binds more loosely.
    pub open spec fn precedence_spec(self) -> u8 {
        if self is Or {
            1
        } else if self is And {
            2
        } else if self is Eq || self is NotEq {
            3
        } else if self.is_ordering() {
            4
        } else if self is Concatenate {
            5
        } else if self is AddInt || self is AddFloat || self is SubInt || self is SubFloat {
            7
        } else {
            8
        }
    }

    /// The operator's surface token.
    pub open spec fn name_spec(self) -> Seq<char> {
        match self {
            BinOp::And => "&&"@,
            BinOp::Or => "||"@,
            BinOp::LtInt => "<"@,
            BinOp::LtEqInt => "<="@,
            BinOp::LtFloat => "<."@,
            BinOp::LtEqFloat => "<=."@,
            BinOp::Eq => "=="@,
            BinOp::NotEq => "!="@,
            BinOp::GtEqInt => ">="@,
            BinOp::GtInt => ">"@,
            BinOp::GtEqFloat => ">=."@,
            BinOp::GtFloat => ">."@,
            BinOp::AddInt => "+"@,
            BinOp::AddFloat => "+."@,
            BinOp::SubInt => "-"@,
            BinOp::SubFloat => "-."@,
            BinOp::MultInt => "*"@,
            BinOp::MultFloat => "*."@,
            BinOp::DivInt => "/"@,
            BinOp::DivFloat => "/."@,
            BinOp::RemainderInt => "%"@,
            BinOp::Concatenate => "<>"@,
        }
    }

    pub fn precedence(&self) -> (r: u8)
        ensures
            r == self.precedence_spec(),
    {
        match self {
            BinOp::Or => 1,
            BinOp::And => 2,
            BinOp::Eq | BinOp::NotEq => 3,
            BinOp::LtInt
            | BinOp::LtEqInt
            | BinOp::LtFloat
            | BinOp::LtEqFloat
            | BinOp::GtEqInt
            | BinOp::GtInt
            | BinOp::GtEqFloat
            | BinOp::GtFloat => 4,
            BinOp::Concatenate => 5,
            BinOp::AddInt | BinOp::AddFloat | BinOp::SubInt | BinOp::SubFloat => 7,
            BinOp::MultInt
            | BinOp::MultFloat
            | BinOp::DivInt
            | BinOp::DivFloat
            | BinOp::RemainderInt => 8,
        }
    }

    pub fn name(&self) -> (r: &'static str)
        ensures
            r@ == self.name_spec(),
    {
        match self {
            BinOp::And => "&&",
            BinOp::Or => "||",
            BinOp::LtInt => "<",
            BinOp::LtEqInt => "<=",
            BinOp::LtFloat => "<.",
            BinOp::LtEqFloat => "<=.",
            BinOp::Eq => "==",
            BinOp::NotEq => "!=",
            BinOp::GtEqInt => ">=",
            BinOp::GtInt => ">",
            BinOp::GtEqFloat => ">=.",
            BinOp::GtFloat => ">.",
            BinOp::AddInt => "+",
            BinOp::AddFloat => "+.",
            BinOp::SubInt => "-",
            BinOp::SubFloat => "-.",
            BinOp::MultInt => "*",
            BinOp::MultFloat => "*.",
            BinOp::DivInt => "/",
            BinOp::DivFloat => "/.",
            BinOp::RemainderInt => "%",
            BinOp::Concatenate => "<>",
        }
    }
}

/// Ranking operators by binding strength is a total preorder: any two
/// operators are comparable, the comparison is antisymmetric up to equal rank,
/// and it is transitive. No operator takes the rank reserved for the pipe.
pub proof fn lemma_precedence_total_order(a: BinOp, b: BinOp, c: BinOp)
    ensures
        a.precedence_spec() <= b.precedence_spec() || b.precedence_spec() <= a.precedence_spec(),
        a.precedence_spec() <= b.precedence_spec() && b.precedence_spec() <= a.precedence_spec()
            ==> a.precedence_spec() == b.precedence_spec(),
        a.precedence_spec() <= b.precedence_spec() && b.precedence_spec() <= c.precedence_spec()
            ==> a.precedence_spec() <= c.precedence_spec(),
        1 <= a.precedence_spec() <= 8,
        a.precedence_spec() != PIPE_PRECEDENCE,
{
}

/// Every operator prints as its own token, so the printed token identifies
/// the operator it came from.
pub proof fn lemma_name_identifies_operator(a: BinOp, b: BinOp)
    ensures
        a.name_spec() == b.name_spec() <==> a == b,
{
    reveal_strlit("&&");
    reveal_strlit("||");
    reveal_strlit("<");
    reveal_strlit("<=");
    reveal_strlit("<.");
    reveal_strlit("<=.");
    reveal_strlit("==");
    reveal_strlit("!=");
    reveal_strlit(">=");
    reveal_strlit(">");
    reveal_strlit(">=.");
    reveal_strlit(">.");
    reveal_strlit("+");
    reveal_strlit("+.");
    reveal_strlit("-");
    reveal_strlit("-.");
    reveal_strlit("*");
    reveal_strlit("*.");
    reveal_strlit("/");
    reveal_strlit("/.");
    reveal_strlit("%");
    reveal_strlit("<>");
    if a.name_spec() == b.name_spec() {
        let x = a.name_spec();
        let y = b.name_spec();
        assert(x.len() == y.len());
        assert(x[0] == y[0]);
        if x.len() > 1 {
            assert(x[1] == y[1]);
        }
        if x.len() > 2 {
            assert(x[2] == y[2]);
        }
    }
}

} // verus!
