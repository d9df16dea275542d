//! The errors that interpreting a program can end in.

use vstd::prelude::*;

verus! {

/// What went wrong while the program was running.
#[derive(Debug, Clone, Copy, PartialEq, Eq)]
pub enum RuntimeKind {
    /// A name was used where a quantum register is expected, and nothing is
    /// known under that name.
    QuantumRegisterNotFound,
}

/// An error of the interpreter.
#[derive(Debug, PartialEq, Eq)]
pub enum QasmSimError {
    /// The program is well formed but cannot be run.
    RuntimeError {
        /// What went wrong.
        kind: RuntimeKind,
        /// The offending name, as the program spells it.
        symbol_name: String,
    },
}

/// What a [`QasmSimError`] denotes: the name as a sequence of characters.
pub enum QasmSimErrorView {
    RuntimeError { kind: RuntimeKind, symbol_name: Seq<char> },
}

impl View for QasmSimError {
    type V = QasmSimErrorView;

    open spec fn view(&self) -> QasmSimErrorView {
        match *self {
            QasmSimError::RuntimeError { kind, symbol_name } => QasmSimErrorView::RuntimeError {
                kind,
                symbol_name: symbol_name@,
            },
        }
    }
}

} // verus!
