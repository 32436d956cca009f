use vstd::prelude::*;
use crate::span::SrcSpan;

verus! {

/// One option of a bit-string segment. Only `Size` holds a nested value and
/// only `Unit` a literal; every option carries its own span. No combination is
/// refused here: checking that options agree is left to later stages.
#[derive(Debug, PartialEq, Eq, Clone)]
pub enum BitStringSegmentOption<Value> {
    Binary { location: SrcSpan },
    Int { location: SrcSpan },
    Float { location: SrcSpan },
    BitString { location: SrcSpan },
    Utf8 { location: SrcSpan },
    Utf16 { location: SrcSpan },
    Utf32 { location: SrcSpan },
    Utf8Codepoint { location: SrcSpan },
    Utf16Codepoint { location: SrcSpan },
    Utf32Codepoint { location: SrcSpan },
    Signed { location: SrcSpan },
    Unsigned { location: SrcSpan },
    Big { location: SrcSpan },
    Little { location: SrcSpan },
    Native { location: SrcSpan },
    Size { location: SrcSpan, value: Box<Value>, short_form: bool },
    Unit { location: SrcSpan, value: u8 },
}

/// One field of a packed bit-level value: the value, the options that say
/// how it is packed, and the type slot of the phase.
#[derive(Debug, PartialEq, Eq, Clone)]
pub struct BitStringSegment<Value, Type> {
    pub location: SrcSpan,
    pub value: Box<Value>,
    pub options: Vec<BitStringSegmentOption<Value>>,
    pub type_: Type,
}

impl<A> BitStringSegmentOption<A> {
    /// The nested value of a `Size` option; no other option has one.
    pub open spec fn value_spec(self) -> Option<A> {
        match self {
            BitStringSegmentOption::Size { value, .. } => Some(*value),
            _ => None,
        }
    }

    pub open spec fn location_spec(self) -> SrcSpan {
        match self {
            BitStringSegmentOption::Binary { location }
            | BitStringSegmentOption::Int { location }
            | BitStringSegmentOption::Float { location }
            | BitStringSegmentOption::BitString { location }
            | BitStringSegmentOption::Utf8 { location }
            | BitStringSegmentOption::Utf16 { location }
            | BitStringSegmentOption::Utf32 { location }
            | BitStringSegmentOption::Utf8Codepoint { location }
            | BitStringSegmentOption::Utf16Codepoint { location }
            | BitStringSegmentOption::Utf32Codepoint { location }
            | BitStringSegmentOption::Signed { location }
            | BitStringSegmentOption::Unsigned { location }
            | BitStringSegmentOption::Big { location }
            | BitStringSegmentOption::Little { location }
            | BitStringSegmentOption::Native { location }
            | BitStringSegmentOption::Size { location, .. }
            | BitStringSegmentOption::Unit { location, .. } => location,
        }
    }

    /// The name of the option as written in source, used in diagnostics.
    pub open spec fn label_spec(self) -> Seq<char> {
        match self {
            BitStringSegmentOption::Binary { .. } => "binary"@,
            BitStringSegmentOption::Int { .. } => "int"@,
            BitStringSegmentOption::Float { .. } => "float"@,
            BitStringSegmentOption::BitString { .. } => "bit_string"@,
            BitStringSegmentOption::Utf8 { .. } => "utf8"@,
            BitStringSegmentOption::Utf16 { .. } => "utf16"@,
            BitStringSegmentOption::Utf32 { .. } => "utf32"@,
            BitStringSegmentOption::Utf8Codepoint { .. } => "utf8_codepoint"@,
            BitStringSegmentOption::Utf16Codepoint { .. } => "utf16_codepoint"@,
            BitStringSegmentOption::Utf32Codepoint { .. } => "utf32_codepoint"@,
            BitStringSegmentOption::Signed { .. } => "signed"@,
            BitStringSegmentOption::Unsigned { .. } => "unsigned"@,
            BitStringSegmentOption::Big { .. } => "big"@,
            BitStringSegmentOption::Little { .. } => "little"@,
            BitStringSegmentOption::Native { .. } => "native"@,
            BitStringSegmentOption::Size { .. } => "size"@,
            BitStringSegmentOption::Unit { .. } => "unit"@,
        }
    }

    pub fn value(&self) -> (r: Option<&A>)
        ensures
            r is Some <==> self.value_spec() is Some,
            r matches Some(v) ==> self.value_spec() == Some(*v),
    {
        match self {
            BitStringSegmentOption::Size { value, .. } => Some(value),
            _ => None,
        }
    }

    pub fn location(&self) -> (r: SrcSpan)
        ensures
            r == self.location_spec(),
    {
        match self {
            BitStringSegmentOption::Binary { location }
            | BitStringSegmentOption::Int { location }
            | BitStringSegmentOption::Float { location }
            | BitStringSegmentOption::BitString { location }
            | BitStringSegmentOption::Utf8 { location }
            | BitStringSegmentOption::Utf16 { location }
            | BitStringSegmentOption::Utf32 { location }
            | BitStringSegmentOption::Utf8Codepoint { location }
            | BitStringSegmentOption::Utf16Codepoint { location }
            | BitStringSegmentOption::Utf32Codepoint { location }
            | BitStringSegmentOption::Signed { location }
            | BitStringSegmentOption::Unsigned { location }
            | BitStringSegmentOption::Big { location }
            | BitStringSegmentOption::Little { location }
            | BitStringSegmentOption::Native { location }
            | BitStringSegmentOption::Size { location, .. }
            | BitStringSegmentOption::Unit { location, .. } => *location,
        }
    }

    pub fn label(&self) -> (r: String)
        ensures
            r@ == self.label_spec(),
    {
        let s: &str = match self {
            BitStringSegmentOption::Binary { .. } => "binary",
            BitStringSegmentOption::Int { .. } => "int",
            BitStringSegmentOption::Float { .. } => "float",
            BitStringSegmentOption::BitString { .. } => "bit_string",
            BitStringSegmentOption::Utf8 { .. } => "utf8",
            BitStringSegmentOption::Utf16 { .. } => "utf16",
            BitStringSegmentOption::Utf32 { .. } => "utf32",
            BitStringSegmentOption::Utf8Codepoint { .. } => "utf8_codepoint",
            BitStringSegmentOption::Utf16Codepoint { .. } => "utf16_codepoint",
            BitStringSegmentOption::Utf32Codepoint { .. } => "utf32_codepoint",
            BitStringSegmentOption::Signed { .. } => "signed",
            BitStringSegmentOption::Unsigned { .. } => "unsigned",
            BitStringSegmentOption::Big { .. } => "big",
            BitStringSegmentOption::Little { .. } => "little",
            BitStringSegmentOption::Native { .. } => "native",
            BitStringSegmentOption::Size { .. } => "size",
            BitStringSegmentOption::Unit { .. } => "unit",
        };
        s.to_owned()
    }
}

impl<V, T> BitStringSegment<V, T> {
    pub fn new(location: SrcSpan, value: V, options: Vec<BitStringSegmentOption<V>>, type_: T) -> (r:
        Self)
        ensures
            r.location == location,
            *r.value == value,
            r.options@ == options@,
            r.type_ == type_,
    {
        BitStringSegment { location, value: Box::new(value), options, type_ }
    }

    /// The label of each option, in order.
    pub fn option_labels(&self) -> (r: Vec<String>)
        ensures
            r@.len() == self.options@.len(),
            forall|i: int| 0 <= i < r@.len() ==> #[trigger] r@[i]@ == self.options@[i].label_spec(),
    {
        let mut r: Vec<String> = Vec::new();
        let mut i: usize = 0;
        while i < self.options.len()
            invariant
                i <= self.options@.len(),
                r@.len() == i,
                forall|j: int| 0 <= j < i ==> #[trigger] r@[j]@ == self.options@[j].label_spec(),
            decreases self.options@.len() - i,
        {
            r.push(self.options[i].label());
            i = i + 1;
        }
        r
    }
}

/// Reading back the options of a newly built segment gives the options it was
/// built with: the same labels in the same order, and for a `Size` option the
/// same nested value. The label tells the option's kind, so no two kinds of
/// option can be confused by their label.
pub proof fn lemma_segment_options_round_trip<V, T>(
    seg: BitStringSegment<V, T>,
    options: Seq<BitStringSegmentOption<V>>,
    i: int,
    j: int,
)
    requires
        seg.options@ == options,
        0 <= i < options.len(),
        0 <= j < options.len(),
    ensures
        seg.options@[i].label_spec() == options[i].label_spec(),
        seg.options@[i].value_spec() == options[i].value_spec(),
        (options[i] matches BitStringSegmentOption::Size { value, .. } ==> seg.options@[i].value_spec()
            == Some(*value)),
        seg.options@[i].value_spec() is Some <==> seg.options@[i].label_spec() == "size"@,
        seg.options@[i].label_spec() == seg.options@[j].label_spec() ==> seg.options@[i]
            .same_kind(seg.options@[j]),
{
    lemma_label_identifies_kind(seg.options@[i], seg.options@[j]);
    lemma_label_identifies_kind(seg.options@[i], BitStringSegmentOption::Size {
        location: SrcSpan { start: 0, end: 0 },
        value: Box::new(options[i].value_spec().unwrap()),
        short_form: false,
    });
}

impl<A> BitStringSegmentOption<A> {
    /// Whether two options are of the same kind, whatever they hold.
    pub open spec fn same_kind(self, other: Self) -> bool {
        match (self, other) {
            (BitStringSegmentOption::Binary { .. }, BitStringSegmentOption::Binary { .. }) => true,
            (BitStringSegmentOption::Int { .. }, BitStringSegmentOption::Int { .. }) => true,
            (BitStringSegmentOption::Float { .. }, BitStringSegmentOption::Float { .. }) => true,
            (BitStringSegmentOption::BitString { .. }, BitStringSegmentOption::BitString { .. }) => true,
            (BitStringSegmentOption::Utf8 { .. }, BitStringSegmentOption::Utf8 { .. }) => true,
            (BitStringSegmentOption::Utf16 { .. }, BitStringSegmentOption::Utf16 { .. }) => true,
            (BitStringSegmentOption::Utf32 { .. }, BitStringSegmentOption::Utf32 { .. }) => true,
            (
                BitStringSegmentOption::Utf8Codepoint { .. },
                BitStringSegmentOption::Utf8Codepoint { .. },
            ) => true,
            (
                BitStringSegmentOption::Utf16Codepoint { .. },
                BitStringSegmentOption::Utf16Codepoint { .. },
            ) => true,
            (
                BitStringSegmentOption::Utf32Codepoint { .. },
                BitStringSegmentOption::Utf32Codepoint { .. },
            ) => true,
            (BitStringSegmentOption::Signed { .. }, BitStringSegmentOption::Signed { .. }) => true,
            (BitStringSegmentOption::Unsigned { .. }, BitStringSegmentOption::Unsigned { .. }) => true,
            (BitStringSegmentOption::Big { .. }, BitStringSegmentOption::Big { .. }) => true,
            (BitStringSegmentOption::Little { .. }, BitStringSegmentOption::Little { .. }) => true,
            (BitStringSegmentOption::Native { .. }, BitStringSegmentOption::Native { .. }) => true,
            (BitStringSegmentOption::Size { .. }, BitStringSegmentOption::Size { .. }) => true,
            (BitStringSegmentOption::Unit { .. }, BitStringSegmentOption::Unit { .. }) => true,
            _ => false,
        }
    }
}

/// Two options have the same label exactly when they are of the same kind.
pub proof fn lemma_label_identifies_kind<A>(a: BitStringSegmentOption<A>, b: BitStringSegmentOption<A>)
    ensures
        a.label_spec() == b.label_spec() <==> a.same_kind(b),
{
    reveal_strlit("binary");
    reveal_strlit("int");
    reveal_strlit("float");
    reveal_strlit("bit_string");
    reveal_strlit("utf8");
    reveal_strlit("utf16");
    reveal_strlit("utf32");
    reveal_strlit("utf8_codepoint");
    reveal_strlit("utf16_codepoint");
    reveal_strlit("utf32_codepoint");
    reveal_strlit("signed");
    reveal_strlit("unsigned");
    reveal_strlit("big");
    reveal_strlit("little");
    reveal_strlit("native");
    reveal_strlit("size");
    reveal_strlit("unit");
    if a.label_spec() == b.label_spec() {
        let x = a.label_spec();
        let y = b.label_spec();
        assert(x.len() == y.len());
        assert(x[0] == y[0]);
        assert(x[1] == y[1]);
        assert(x[2] == y[2]);
        if x.len() > 3 {
            assert(x[3] == y[3]);
        }
        if x.len() > 4 {
            assert(x[4] == y[4]);
        }
    }
}

} // verus!
