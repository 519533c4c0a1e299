use vstd::prelude::*;
use crate::usuario::{Usuario, UsuarioModelo};

verus! {

pub const SQL_INSERTAR: &'static str =
    "INSERT INTO usuario (id_usuario, nombre, apellido, email) VALUES ($1, $2, $3, $4)";

pub const SQL_LISTAR: &'static str = "SELECT id_usuario, nombre, apellido, email FROM usuario";

pub const SQL_OBTENER: &'static str =
    "SELECT id_usuario, nombre, apellido, email FROM usuario WHERE id_usuario = $1";

pub const SQL_ACTUALIZAR: &'static str =
    "UPDATE usuario SET nombre = $1, apellido = $2, email = $3 WHERE id_usuario = $4";

pub const SQL_ELIMINAR: &'static str = "DELETE FROM usuario WHERE id_usuario = $1";

/// One request to the `usuario` resource, as the dispatch table hands it over.
#[derive(Debug, Clone, PartialEq, Eq)]
pub enum Operacion {
    /// POST on the collection: insert the record.
    Crear(Usuario),
    /// GET on the collection.
    Listar,
    /// GET on an item.
    Obtener(i32),
    /// PUT on an item: the id of the path wins over the id of the body.
    Actualizar(i32, Usuario),
    /// DELETE on an item.
    Eliminar(i32),
}

pub enum OperacionModelo {
    Crear(UsuarioModelo),
    Listar,
    Obtener(i32),
    Actualizar(i32, UsuarioModelo),
    Eliminar(i32),
}

impl View for Operacion {
    type V = OperacionModelo;

    open spec fn view(&self) -> OperacionModelo {
        match self {
            Operacion::Crear(u) => OperacionModelo::Crear(u@),
            Operacion::Listar => OperacionModelo::Listar,
            Operacion::Obtener(id) => OperacionModelo::Obtener(*id),
            Operacion::Actualizar(id, u) => OperacionModelo::Actualizar(*id, u@),
            Operacion::Eliminar(id) => OperacionModelo::Eliminar(*id),
        }
    }
}

/// A bound parameter of a statement.
#[derive(Debug, Clone, PartialEq, Eq)]
pub enum Parametro {
    Entero(i32),
    Texto(String),
}

pub enum ParametroModelo {
    Entero(i32),
    Texto(Seq<char>),
}

impl View for Parametro {
    type V = ParametroModelo;

    open spec fn view(&self) -> ParametroModelo {
        match self {
            Parametro::Entero(n) => ParametroModelo::Entero(*n),
            Parametro::Texto(s) => ParametroModelo::Texto(s@),
        }
    }
}

/// How the statement is run, and so which shape its outcome has.
#[derive(PartialEq, Eq, Structural, Clone, Copy, Debug)]
pub enum Forma {
    /// Run for its effect: the outcome is a count of rows.
    Ejecutar,
    /// A query whose outcome is every row it selects.
    Consultar,
    /// A query whose outcome is zero or one row.
    ConsultarUna,
}

/// A parameterized statement, ready to be run on the session.
#[derive(Debug, Clone, PartialEq, Eq)]
pub struct Sentencia {
    pub sql: String,
    pub parametros: Vec<Parametro>,
    pub forma: Forma,
}

pub struct SentenciaModelo {
    pub sql: Seq<char>,
    pub parametros: Seq<ParametroModelo>,
    pub forma: Forma,
}

impl View for Sentencia {
    type V = SentenciaModelo;

    open spec fn view(&self) -> SentenciaModelo {
        SentenciaModelo {
            sql: self.sql@,
            parametros: self.parametros@.map_values(|p: Parametro| p@),
            forma: self.forma,
        }
    }
}

/// The statement that serves an operation: its text, its parameters in the order
/// of their placeholders, and how it is run.
pub open spec fn sentencia_de(op: OperacionModelo) -> SentenciaModelo {
    match op {
        OperacionModelo::Crear(u) => SentenciaModelo {
            sql: SQL_INSERTAR@,
            parametros: seq![
                ParametroModelo::Entero(u.id),
                ParametroModelo::Texto(u.nombre),
                ParametroModelo::Texto(u.apellido),
                ParametroModelo::Texto(u.email),
            ],
            forma: Forma::Ejecutar,
        },
        OperacionModelo::Listar => SentenciaModelo {
            sql: SQL_LISTAR@,
            parametros: seq![],
            forma: Forma::Consultar,
        },
        OperacionModelo::Obtener(id) => SentenciaModelo {
            sql: SQL_OBTENER@,
            parametros: seq![ParametroModelo::Entero(id)],
            forma: Forma::ConsultarUna,
        },
        OperacionModelo::Actualizar(id, u) => SentenciaModelo {
            sql: SQL_ACTUALIZAR@,
            parametros: seq![
                ParametroModelo::Texto(u.nombre),
                ParametroModelo::Texto(u.apellido),
                ParametroModelo::Texto(u.email),
                ParametroModelo::Entero(id),
            ],
            forma: Forma::Ejecutar,
        },
        OperacionModelo::Eliminar(id) => SentenciaModelo {
            sql: SQL_ELIMINAR@,
            parametros: seq![ParametroModelo::Entero(id)],
            forma: Forma::Ejecutar,
        },
    }
}

fn texto(s: &str) -> (r: String)
    ensures
        r@ == s@,
{
    s.to_owned()
}

/// Builds the one statement that serves `op`.
pub fn sentencia(op: &Operacion) -> (s: Sentencia)
    ensures
        s@ == sentencia_de(op@),
{
    let s = match op {
        Operacion::Crear(u) => Sentencia {
            sql: texto(SQL_INSERTAR),
            parametros: vec![
                Parametro::Entero(u.id_usuario),
                Parametro::Texto(u.nombre.clone()),
                Parametro::Texto(u.apellido.clone()),
                Parametro::Texto(u.email.clone()),
            ],
            forma: Forma::Ejecutar,
        },
        Operacion::Listar => Sentencia {
            sql: texto(SQL_LISTAR),
            parametros: Vec::new(),
            forma: Forma::Consultar,
        },
        Operacion::Obtener(id) => Sentencia {
            sql: texto(SQL_OBTENER),
            parametros: vec![Parametro::Entero(*id)],
            forma: Forma::ConsultarUna,
        },
        Operacion::Actualizar(id, u) => Sentencia {
            sql: texto(SQL_ACTUALIZAR),
            parametros: vec![
                Parametro::Texto(u.nombre.clone()),
                Parametro::Texto(u.apellido.clone()),
                Parametro::Texto(u.email.clone()),
                Parametro::Entero(*id),
            ],
            forma: Forma::Ejecutar,
        },
        Operacion::Eliminar(id) => Sentencia {
            sql: texto(SQL_ELIMINAR),
            parametros: vec![Parametro::Entero(*id)],
            forma: Forma::Ejecutar,
        },
    };
    assert(s@.parametros =~= sentencia_de(op@).parametros);
    s
}

} // verus!
