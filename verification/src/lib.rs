pub mod ast;
pub mod compose;
pub mod laws;
pub mod emit;
pub mod layout;
pub mod lower;
pub mod memmodel;
pub mod names;
pub mod storeload;
pub mod valid;
pub mod text;

pub use crate::ast::Generated;
pub use crate::compose::to_go;

use vstd::prelude::*;

verus! {

/// The repository path of the generated module-definition output.
pub fn wasi_api_module() -> (r: String)
    ensures
        r@ == "../module_definition.go"@,
{
    String::from_str("../module_definition.go")
}

/// The repository path of the generated types output.
pub fn wasi_api_types() -> (r: String)
    ensures
        r@ == "../types.go"@,
{
    String::from_str("../types.go")
}

/// The repository path of the generated stubs output.
pub fn wasi_api_stubs() -> (r: String)
    ensures
        r@ == "../stubs.go"@,
{
    String::from_str("../stubs.go")
}

} // verus!
