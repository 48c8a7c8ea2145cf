//! Failures of the representation passes.

use vstd::prelude::*;

use crate::hir::analysis::AnalysisError;
use crate::position::Position;
use crate::hir::ir::Variable;

verus! {

/// A failure of a compilation pass over the representation.
#[derive(Clone, Debug, PartialEq)]
pub enum CompileError {
    /// A type analysis failed underneath the pass.
    Analysis(AnalysisError),
    /// A function was called where none stands.
    FunctionExpected(Position),
    /// A list was scrutinized where none stands.
    ListExpected(Position),
    /// A record field was read that the record does not define.
    RecordElementNotFound(Position),
    /// A type slot was read before inference filled it.
    TypeNotInferred(Position),
    /// A type conditional covers its whole argument type, so its else
    /// branch can never run.
    UnreachableCode(Position),
    /// An error propagation needs an operand of a union type with an
    /// error member.
    UnionTypeExpected(Position),
    /// A variable is not bound anywhere in scope.
    VariableNotFound(Variable),
}

impl From<AnalysisError> for CompileError {
    fn from(error: AnalysisError) -> (converted: CompileError) {
        CompileError::Analysis(error)
    }
}

impl vstd::std_specs::convert::FromSpecImpl<AnalysisError> for CompileError {
    open spec fn obeys_from_spec() -> bool {
        true
    }

    open spec fn from_spec(error: AnalysisError) -> CompileError {
        CompileError::Analysis(error)
    }
}

} // verus!
