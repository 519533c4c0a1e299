use vstd::prelude::*;

verus! {

/// A user record: the row shape of the `usuario` table, in column order.
#[derive(Debug, Clone, PartialEq, Eq)]
pub struct Usuario {
    pub id_usuario: i32,
    pub nombre: String,
    pub apellido: String,
    pub email: String,
}

/// The mathematical value of a user record.
pub struct UsuarioModelo {
    pub id: i32,
    pub nombre: Seq<char>,
    pub apellido: Seq<char>,
    pub email: Seq<char>,
}

impl View for Usuario {
    type V = UsuarioModelo;

    open spec fn view(&self) -> UsuarioModelo {
        UsuarioModelo {
            id: self.id_usuario,
            nombre: self.nombre@,
            apellido: self.apellido@,
            email: self.email@,
        }
    }
}

impl Usuario {
    /// A copy of the record, field for field.
    pub fn copiar(&self) -> (r: Usuario)
        ensures
            r@ == self@,
    {
        Usuario {
            id_usuario: self.id_usuario,
            nombre: self.nombre.clone(),
            apellido: self.apellido.clone(),
            email: self.email.clone(),
        }
    }
}

} // verus!
