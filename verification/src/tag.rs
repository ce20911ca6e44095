//! Runtime tags: what the runtime reports of a value before anything is read
//! from it, and which host types each tag admits.

use vstd::prelude::*;

verus! {

/// The category code that the runtime reports for an array.
pub const ARRAY_CODE: i32 = 0;

/// The category code that the runtime reports for a scalar number.
pub const SCALAR_NUMBER_CODE: i32 = 1;

/// The coarse category of a foreign value.
#[derive(Clone, Copy, Debug, PartialEq, Eq, Structural)]
pub enum Category {
    /// A flat array; its element kind says what it holds.
    Array,
    /// A single number.
    ScalarNumber,
    /// Anything else, a function for one.  No conversion reads such a value.
    Other,
}

/// How the elements of an array are represented.
#[derive(Clone, Copy, Debug, PartialEq, Eq, Structural)]
pub enum ElementKind {
    /// No direct representation is reported.
    Unknown,
    /// Signed integers of 8 bits.
    Int8,
    /// Signed integers of 16 bits.
    Int16,
    /// Signed integers of 32 bits.
    Int32,
    /// Double-precision numbers.
    Double,
    /// Characters of 8 bits.
    Char8,
    /// Characters of 16 bits.
    Char16,
    /// Characters of 32 bits.
    Char32,
}

/// The full tag of a foreign value: its category and, for an array, the
/// kind of its elements.
#[derive(Clone, Copy, Debug, PartialEq, Eq, Structural)]
pub enum RuntimeTag {
    /// A single number.
    ScalarNumber,
    /// An array of the given element kind.
    Array(ElementKind),
    /// Neither of the two.
    Other,
}

/// The host type that a conversion is to produce.
#[derive(Clone, Copy, Debug, PartialEq, Eq, Structural)]
pub enum Target {
    /// One double-precision number.
    Number,
    /// UTF-8 text.
    Text,
    /// A sequence of double-precision numbers.
    Numbers,
}

impl Category {
    /// The category that a code of the runtime stands for.
    pub open spec fn of_code(code: i32) -> Category {
        if code == ARRAY_CODE {
            Category::Array
        } else if code == SCALAR_NUMBER_CODE {
            Category::ScalarNumber
        } else {
            Category::Other
        }
    }

    /// Reads a category code as the runtime reports it.
    pub fn from_code(code: i32) -> (category: Category)
        ensures
            category == Category::of_code(code),
    {
        if code == ARRAY_CODE {
            Category::Array
        } else if code == SCALAR_NUMBER_CODE {
            Category::ScalarNumber
        } else {
            Category::Other
        }
    }

    /// True exactly for the category of scalar numbers.
    pub fn is_scalar_number(&self) -> (yes: bool)
        ensures
            yes <==> *self == Category::ScalarNumber,
    {
        match self {
            Category::ScalarNumber => true,
            _ => false,
        }
    }
}

impl ElementKind {
    /// The kinds whose elements are numbers.
    pub open spec fn numeric(self) -> bool {
        self == ElementKind::Int8 || self == ElementKind::Int16 || self == ElementKind::Int32
            || self == ElementKind::Double
    }

    /// The kinds whose elements are characters.
    pub open spec fn character(self) -> bool {
        self == ElementKind::Char8 || self == ElementKind::Char16 || self == ElementKind::Char32
    }

    /// True exactly for the integer kinds of 8, 16 and 32 bits and for
    /// the double-precision kind.
    pub fn is_numeric(&self) -> (yes: bool)
        ensures
            yes == self.numeric(),
    {
        match self {
            ElementKind::Int8 | ElementKind::Int16 | ElementKind::Int32 | ElementKind::Double => true,
            _ => false,
        }
    }

    /// True exactly for the character kinds of 8, 16 and 32 bits.
    pub fn is_character(&self) -> (yes: bool)
        ensures
            yes == self.character(),
    {
        match self {
            ElementKind::Char8 | ElementKind::Char16 | ElementKind::Char32 => true,
            _ => false,
        }
    }
}

impl RuntimeTag {
    /// The tag made of a category and, where the category is that of
    /// arrays, an element kind.
    pub open spec fn of(category: Category, kind: ElementKind) -> RuntimeTag {
        match category {
            Category::ScalarNumber => RuntimeTag::ScalarNumber,
            Category::Array => RuntimeTag::Array(kind),
            Category::Other => RuntimeTag::Other,
        }
    }

    /// The coarse category of the tag.
    pub open spec fn category(self) -> Category {
        match self {
            RuntimeTag::ScalarNumber => Category::ScalarNumber,
            RuntimeTag::Array(_) => Category::Array,
            RuntimeTag::Other => Category::Other,
        }
    }

    /// Puts a category and an element kind together.  The kind counts only
    /// for an array.
    pub fn classify(category: Category, kind: ElementKind) -> (tag: RuntimeTag)
        ensures
            tag == RuntimeTag::of(category, kind),
    {
        match category {
            Category::ScalarNumber => RuntimeTag::ScalarNumber,
            Category::Array => RuntimeTag::Array(kind),
            Category::Other => RuntimeTag::Other,
        }
    }
}

impl Target {
    /// The category that a value must have to convert to this host type.
    pub open spec fn category(self) -> Category {
        match self {
            Target::Number => Category::ScalarNumber,
            Target::Text | Target::Numbers => Category::Array,
        }
    }

    /// The element kinds that this host type is read from.  A single number
    /// is read from no array.
    pub open spec fn reads(self, kind: ElementKind) -> bool {
        match self {
            Target::Number => false,
            Target::Text => kind.character(),
            Target::Numbers => kind.numeric(),
        }
    }

    /// The tags that convert to this host type.
    pub open spec fn admits(self, tag: RuntimeTag) -> bool {
        match tag {
            RuntimeTag::ScalarNumber => self == Target::Number,
            RuntimeTag::Array(kind) => self.reads(kind),
            RuntimeTag::Other => false,
        }
    }

    /// Decides whether a value of the given tag converts to this host type:
    /// a scalar number to a single number, an array of characters to text,
    /// an array of numbers to a sequence of numbers, and nothing else.
    pub fn accepts(&self, tag: RuntimeTag) -> (yes: bool)
        ensures
            yes == self.admits(tag),
    {
        match tag {
            RuntimeTag::ScalarNumber => match self {
                Target::Number => true,
                _ => false,
            },
            RuntimeTag::Array(kind) => match self {
                Target::Number => false,
                Target::Text => kind.is_character(),
                Target::Numbers => kind.is_numeric(),
            },
            RuntimeTag::Other => false,
        }
    }
}

/// A tag admits a host type only through its category: where a host type
/// admits a tag, the tag has the category that the host type needs.
pub proof fn lemma_admits_category(target: Target, tag: RuntimeTag)
    requires
        target.admits(tag),
    ensures
        tag.category() == target.category(),
{
}

/// No tag converts to two host types: the three conversions exclude one
/// another.
pub proof fn lemma_admits_one_target(first: Target, second: Target, tag: RuntimeTag)
    requires
        first.admits(tag),
        second.admits(tag),
    ensures
        first == second,
{
}

} // verus!
