//! Safe, verified core of a binding to a native SMI/MIB parsing library:
//! decoding of the library's numeric codes and flag words, rendering of node
//! descriptions, the conversion of native results into `Result`/`Option`
//! values, and the cursor that walks a node's children.
pub mod codes;
pub mod text;
pub mod kind;
pub mod node;
pub mod context;
pub use codes::{SmiAccess, SmiBasetype, SmiStatus};
pub use text::{oid_to_dotted, push_decimal, text_from_bytes};
pub use kind::{RenderFlags, SmiNodeKind};
pub use node::{ChildQuery, CursorState, SmiNode, SmiNodeIterator, TextualConvention};
pub use context::{Error, SmiContext, MODULE_NOT_LOADED};
