use vstd::prelude::*;
use crate::usuario::{Usuario, UsuarioModelo};
use crate::sentencia::{Operacion, OperacionModelo};
use crate::respuesta::{Salida, SalidaModelo, modelos, resultado_modelo};

verus! {

/// The error text of an insert whose id is already taken.
pub const ERROR_DUPLICADO: &'static str = "ya existe un usuario con ese id_usuario";

/// No two rows share an id: `id_usuario` is the table's primary key.
pub open spec fn ids_distintos(t: Seq<UsuarioModelo>) -> bool {
    forall|i: int, j: int|
        0 <= i < t.len() && 0 <= j < t.len() && i != j ==> #[trigger] t[i].id != #[trigger] t[j].id
}

pub open spec fn tiene(t: Seq<UsuarioModelo>, id: i32) -> bool {
    exists|i: int| 0 <= i < t.len() && t[i].id == id
}

pub open spec fn indice(t: Seq<UsuarioModelo>, id: i32) -> int {
    choose|i: int| 0 <= i < t.len() && t[i].id == id
}

/// The row with this id, if the table holds one.
pub open spec fn buscar(t: Seq<UsuarioModelo>, id: i32) -> Option<UsuarioModelo> {
    if tiene(t, id) {
        Some(t[indice(t, id)])
    } else {
        None
    }
}

/// The record `u` stored under the id `id`, whatever id it carried.
pub open spec fn con_id(u: UsuarioModelo, id: i32) -> UsuarioModelo {
    UsuarioModelo { id: id, nombre: u.nombre, apellido: u.apellido, email: u.email }
}

/// What a statement does to the table's rows `t`, leaving `t2`, when its outcome is
/// `r`. A statement that fails changes nothing. A listing gives every row once, in
/// no promised order. An update or delete of an id that no row holds succeeds and
/// changes nothing.
pub open spec fn ejecucion_valida(
    t: Seq<UsuarioModelo>,
    op: OperacionModelo,
    r: Result<SalidaModelo, Seq<char>>,
    t2: Seq<UsuarioModelo>,
) -> bool {
    match r {
        Err(_) => t2 == t,
        Ok(s) => match op {
            OperacionModelo::Crear(u) => !tiene(t, u.id) && t2 == t.push(u) && s
                == SalidaModelo::Afectadas(1),
            OperacionModelo::Listar => t2 == t && match s {
                SalidaModelo::Filas(v) => v.to_multiset() == t.to_multiset(),
                _ => false,
            },
            OperacionModelo::Obtener(id) => t2 == t && s == SalidaModelo::Fila(buscar(t, id)),
            OperacionModelo::Actualizar(id, u) => if tiene(t, id) {
                t2 == t.update(indice(t, id), con_id(u, id)) && s == SalidaModelo::Afectadas(1)
            } else {
                t2 == t && s == SalidaModelo::Afectadas(0)
            },
            OperacionModelo::Eliminar(id) => if tiene(t, id) {
                t2 == t.remove(indice(t, id)) && s == SalidaModelo::Afectadas(1)
            } else {
                t2 == t && s == SalidaModelo::Afectadas(0)
            },
        },
    }
}

/// An in-memory `usuario` table that runs operations as the database does.
pub struct Tabla {
    filas: Vec<Usuario>,
}

impl View for Tabla {
    type V = Seq<UsuarioModelo>;

    closed spec fn view(&self) -> Seq<UsuarioModelo> {
        modelos(self.filas@)
    }
}

impl Tabla {
    pub open spec fn bien_formada(&self) -> bool {
        ids_distintos(self@)
    }

    /// An empty table.
    pub fn nueva() -> (t: Tabla)
        ensures
            t@ == Seq::<UsuarioModelo>::empty(),
            t.bien_formada(),
    {
        let t = Tabla { filas: Vec::new() };
        assert(t@ =~= Seq::<UsuarioModelo>::empty());
        t
    }

    /// The number of rows.
    pub fn len(&self) -> (n: usize)
        ensures
            n == self@.len(),
    {
        self.filas.len()
    }

    /// The position of the row with this id, if there is one.
    fn posicion(&self, id: i32) -> (p: Option<usize>)
        requires
            self.bien_formada(),
        ensures
            match p {
                Some(i) => i < self@.len() && self@[i as int].id == id && indice(self@, id) == i
                    && tiene(self@, id),
                None => !tiene(self@, id),
            },
    {
        let mut i: usize = 0;
        while i < self.filas.len()
            invariant
                0 <= i <= self.filas.len(),
                self@.len() == self.filas@.len(),
                self.bien_formada(),
                forall|j: int| 0 <= j < i ==> self@[j].id != id,
            decreases self.filas.len() - i,
        {
            if self.filas[i].id_usuario == id {
                assert(self@[i as int].id == id);
                assert(tiene(self@, id));
                let ghost j = indice(self@, id);
                assert(0 <= j < self@.len() && self@[j].id == id);
                assert(j == i as int) by {
                    if j != i as int {
                        assert(self@[j].id != self@[i as int].id);
                    }
                }
                return Some(i);
            }
            i += 1;
        }
        None
    }

    /// Runs `op` on the table. Only an insert of an id that is already taken fails.
    pub fn ejecutar(&mut self, op: &Operacion) -> (r: Result<Salida, String>)
        requires
            old(self).bien_formada(),
        ensures
            final(self).bien_formada(),
            ejecucion_valida(old(self)@, op@, resultado_modelo(r), final(self)@),
            r is Err <==> match op@ {
                OperacionModelo::Crear(u) => tiene(old(self)@, u.id),
                _ => false,
            },
    {
        match op {
            Operacion::Crear(u) => {
                if self.posicion(u.id_usuario).is_some() {
                    Err(ERROR_DUPLICADO.to_owned())
                } else {
                    self.filas.push(u.copiar());
                    assert(self@ =~= old(self)@.push(u@));
                    Ok(Salida::Afectadas(1))
                }
            },
            Operacion::Listar => {
                let mut v: Vec<Usuario> = Vec::new();
                let mut i: usize = 0;
                while i < self.filas.len()
                    invariant
                        0 <= i <= self.filas.len(),
                        self@.len() == self.filas@.len(),
                        modelos(v@) =~= self@.take(i as int),
                    decreases self.filas.len() - i,
                {
                    let fila = self.filas[i].copiar();
                    assert(fila@ == self@[i as int]);
                    let ghost antes = v@;
                    v.push(fila);
                    assert(modelos(v@) =~= modelos(antes).push(fila@));
                    i += 1;
                    assert(modelos(v@) =~= self@.take(i as int));
                }
                assert(modelos(v@) =~= self@);
                Ok(Salida::Filas(v))
            },
            Operacion::Obtener(id) => {
                match self.posicion(*id) {
                    Some(i) => Ok(Salida::Fila(Some(self.filas[i].copiar()))),
                    None => Ok(Salida::Fila(None)),
                }
            },
            Operacion::Actualizar(id, u) => {
                match self.posicion(*id) {
                    Some(i) => {
                        let nuevo = Usuario {
                            id_usuario: *id,
                            nombre: u.nombre.clone(),
                            apellido: u.apellido.clone(),
                            email: u.email.clone(),
                        };
                        self.filas.set(i, nuevo);
                        assert(self@ =~= old(self)@.update(i as int, con_id(u@, *id)));
                        Ok(Salida::Afectadas(1))
                    },
                    None => Ok(Salida::Afectadas(0)),
                }
            },
            Operacion::Eliminar(id) => {
                match self.posicion(*id) {
                    Some(i) => {
                        self.filas.remove(i);
                        assert(self@ =~= old(self)@.remove(i as int));
                        Ok(Salida::Afectadas(1))
                    },
                    None => Ok(Salida::Afectadas(0)),
                }
            },
        }
    }
}

} // verus!
