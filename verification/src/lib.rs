//! Core runtime of a small embeddable scripting language.
//!
//! The runtime evaluates compiled bytecode over a tree-structured value
//! model. It consists of
//!
//! - the value model ([`value`], [`tuple`], [`variant`]) with structural
//!   equality ([`equality`]), type conformance ([`conformance`]), tuple
//!   concatenation ([`concat`]) and projections ([`projection`]);
//! - first-class functions and their dispatch ([`function`]);
//! - the container of loaded bytecode ([`program`]), the instruction set
//!   ([`instruction`]) and the stack machine ([`machine`]), whose behaviour is
//!   stated in [`semantics`].
//!
//! Host objects take part in a run as opaque references of a type `H` that
//! the embedder chooses; the machine hands every use of one back to the
//! embedder.
//!
//! Every executable function carries a contract over the mathematical views
//! of the values it works on; the algebraic laws of the operations are proved
//! next to the operations they speak of.

pub mod concat;
pub mod conformance;
pub mod equality;
pub mod error;
pub mod function;
pub mod instruction;
pub mod machine;
pub mod program;
pub mod projection;
pub mod semantics;
pub mod text;
pub mod tuple;
pub mod value;
pub mod variant;

pub use error::{Error, ErrorView, ExternError, InvalidBytecode};
pub use function::{Evaluation, EvaluationView};
pub use instruction::Instruction;
pub use machine::{Machine, Step};
pub use program::{BlockInfo, Program, ProgramView};
pub use semantics::{FrameView, MachineView, StepView};
pub use tuple::{EntryView, Tuple};
pub use value::{
    ActionView, EnumType, EnumTypeView, EnumVariant, EnumVariantView, Function, FunctionAction,
    FunctionView, Storage, StructType, StructTypeView, Value, ValueView,
};
