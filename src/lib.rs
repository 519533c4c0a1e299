//! The logic of a small CRUD service over one `usuario` table: the statement each
//! request issues, how the outcome of that statement becomes the response, what a
//! statement does to the table's rows, and the laws that follow for sequences of
//! requests serialized by the session guard.
use vstd::prelude::*;

pub mod usuario;
pub mod sentencia;
pub mod respuesta;
pub mod tabla;
pub mod leyes;

verus! {

} // verus!
