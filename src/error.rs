use vstd::prelude::*;

verus! {

/// What a declaration, a requirement or a configuration snapshot can get wrong.
#[derive(Debug, PartialEq, Eq)]
pub enum ConfigError {
    /// An axis declares no literal at all.
    EmptyAxis { axis: String },
    /// Two axes of the registry share a name.
    DuplicateAxis { axis: String },
    /// An axis lists the same literal twice.
    DuplicateLiteral { axis: String, literal: String },
    /// A requirement names an axis that the registry does not declare.
    UndeclaredAxis { axis: String },
    /// A requirement names a literal that its axis does not declare.
    UndeclaredLiteral { axis: String, literal: String },
    /// The snapshot holds two literals of one axis as true at once.
    InconsistentOracleAnswer { axis: String, first: String, second: String },
}

} // verus!
