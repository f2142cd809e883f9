//! Flag words of the native library: the kind of a node, and the options
//! for rendering a node as text.
use vstd::prelude::*;

verus! {

/// Number of single-bit node kinds.
pub const KIND_FLAG_COUNT: usize = 9;

/// The bit of the `i`-th single-bit node kind.
pub open spec fn kind_bit(i: int) -> u32 {
    if i == 0 {
        0x0001
    } else if i == 1 {
        0x0002
    } else if i == 2 {
        0x0004
    } else if i == 3 {
        0x0008
    } else if i == 4 {
        0x0010
    } else if i == 5 {
        0x0020
    } else if i == 6 {
        0x0040
    } else if i == 7 {
        0x0080
    } else {
        0x0100
    }
}

/// The label of the `i`-th single-bit node kind.
pub open spec fn kind_name(i: int) -> Seq<char> {
    if i == 0 {
        "NODE"@
    } else if i == 1 {
        "SCALAR"@
    } else if i == 2 {
        "TABLE"@
    } else if i == 3 {
        "ROW"@
    } else if i == 4 {
        "COL"@
    } else if i == 5 {
        "NOTIFICATION"@
    } else if i == 6 {
        "GROUP"@
    } else if i == 7 {
        "COMPLIANCE"@
    } else {
        "CAPABILITIES"@
    }
}

/// The labels of the kinds among the first `k` that `bits` holds, in order.
pub open spec fn kind_names_upto(bits: u32, k: nat) -> Seq<Seq<char>>
    decreases k,
{
    if k == 0 {
        Seq::empty()
    } else {
        let prev = kind_names_upto(bits, (k - 1) as nat);
        if bits & kind_bit(k - 1) == kind_bit(k - 1) {
            prev.push(kind_name(k - 1))
        } else {
            prev
        }
    }
}

/// Parts joined with `|` between them.
pub open spec fn join_bar(parts: Seq<Seq<char>>) -> Seq<char>
    decreases parts.len(),
{
    if parts.len() == 0 {
        Seq::empty()
    } else if parts.len() == 1 {
        parts[0]
    } else {
        join_bar(parts.drop_last()) + "|"@ + parts.last()
    }
}

/// The label of a kind word: the names of the kinds it holds joined by `|`,
/// or `UNKNOWN` for the empty word.
pub open spec fn kind_label(bits: u32) -> Seq<char> {
    if bits == 0 {
        "UNKNOWN"@
    } else {
        join_bar(kind_names_upto(bits, 9))
    }
}

/// A set of node kinds, as the native library's bit word.
#[derive(Debug, Copy, Clone, PartialEq, Eq, Structural)]
pub struct SmiNodeKind {
    pub bits: u32,
}

impl SmiNodeKind {
    pub const UNKNOWN: u32 = 0x0000;
    pub const NODE: u32 = 0x0001;
    pub const SCALAR: u32 = 0x0002;
    pub const TABLE: u32 = 0x0004;
    pub const ROW: u32 = 0x0008;
    pub const COLUMN: u32 = 0x0010;
    pub const NOTIFICATION: u32 = 0x0020;
    pub const GROUP: u32 = 0x0040;
    pub const COMPLIANCE: u32 = 0x0080;
    pub const CAPABILITIES: u32 = 0x0100;
    pub const ANY: u32 = 0xFFFF;

    /// The kinds of a native kind word, dropping the bits outside `ANY`.
    pub fn from_bits_truncate(n: u32) -> (r: SmiNodeKind)
        ensures
            r.bits == n & SmiNodeKind::ANY,
    {
        SmiNodeKind { bits: n & SmiNodeKind::ANY }
    }

    /// Whether every kind of the bit word `other` is among these.
    pub fn contains(&self, other: u32) -> (r: bool)
        ensures
            r == (self.bits & other == other),
    {
        self.bits & other == other
    }

    /// Whether no kind is set.
    pub fn is_empty(&self) -> (r: bool)
        ensures
            r == (self.bits == 0),
    {
        self.bits == 0
    }

    /// The label of the `i`-th single-bit kind together with its bit.
    fn flag(i: usize) -> (r: (u32, &'static str))
        requires
            i < KIND_FLAG_COUNT,
        ensures
            r.0 == kind_bit(i as int),
            r.1@ == kind_name(i as int),
    {
        proof {
            reveal_strlit("NODE");
            reveal_strlit("SCALAR");
            reveal_strlit("TABLE");
            reveal_strlit("ROW");
            reveal_strlit("COL");
            reveal_strlit("NOTIFICATION");
            reveal_strlit("GROUP");
            reveal_strlit("COMPLIANCE");
            reveal_strlit("CAPABILITIES");
        }
        match i {
            0 => (0x0001, "NODE"),
            1 => (0x0002, "SCALAR"),
            2 => (0x0004, "TABLE"),
            3 => (0x0008, "ROW"),
            4 => (0x0010, "COL"),
            5 => (0x0020, "NOTIFICATION"),
            6 => (0x0040, "GROUP"),
            7 => (0x0080, "COMPLIANCE"),
            _ => (0x0100, "CAPABILITIES"),
        }
    }

    /// The label of this kind set (`SCALAR`, `TABLE|ROW`, `UNKNOWN`).
    pub fn label(&self) -> (r: String)
        ensures
            r@ == kind_label(self.bits),
    {
        if self.bits == 0 {
            proof {
                reveal_strlit("UNKNOWN");
            }
            return String::from_str("UNKNOWN");
        }
        let mut r = String::new();
        let mut count: usize = 0;
        let mut i: usize = 0;
        while i < KIND_FLAG_COUNT
            invariant
                i <= KIND_FLAG_COUNT,
                count <= i,
                count == kind_names_upto(self.bits, i as nat).len(),
                r@ == join_bar(kind_names_upto(self.bits, i as nat)),
            decreases KIND_FLAG_COUNT - i,
        {
            let (bit, name) = SmiNodeKind::flag(i);
            if self.bits & bit == bit {
                if count > 0 {
                    r.append("|");
                    proof {
                        reveal_strlit("|");
                    }
                }
                r.append(name);
                proof {
                    let parts = kind_names_upto(self.bits, (i + 1) as nat);
                    assert(parts.drop_last() =~= kind_names_upto(self.bits, i as nat));
                }
                count = count + 1;
            }
            i = i + 1;
        }
        r
    }
}

/// Options for rendering a node as text, as the native library's bit word.
#[derive(Debug, Copy, Clone, PartialEq, Eq, Structural)]
pub struct RenderFlags {
    pub bits: i32,
}

impl RenderFlags {
    pub const NUMERIC: i32 = 0x0001;
    pub const NAME: i32 = 0x0002;
    pub const QUALIFIED: i32 = 0x0004;
    pub const FORMATTED: i32 = 0x0008;
    pub const PRINTABLE: i32 = 0x0010;
    pub const UNKNOWN: i32 = 0x0020;
    pub const ALL: i32 = 0x00FF;

    /// The options of the bit word `bits`.
    pub fn from_bits(bits: i32) -> (r: RenderFlags)
        ensures
            r.bits == bits,
    {
        RenderFlags { bits }
    }

    /// These options together with those of the bit word `other`.
    pub fn with(self, other: i32) -> (r: RenderFlags)
        ensures
            r.bits == self.bits | other,
    {
        RenderFlags { bits: self.bits | other }
    }
}

} // verus!
