use vstd::prelude::*;
use vstd::string::StringExecFns;
use crate::usuario::{Usuario, UsuarioModelo};
use crate::sentencia::{Operacion, OperacionModelo};

verus! {

pub const CREADO: &'static str = "Usuario creado con éxito";

pub const ACTUALIZADO: &'static str = "Usuario actualizado con éxito";

pub const ELIMINADO: &'static str = "Usuario eliminado con éxito";

pub const ERROR_INSERTAR: &'static str = "Error al insertar usuario: ";

pub const ERROR_ACTUALIZAR: &'static str = "Error al actualizar usuario: ";

pub const ERROR_ELIMINAR: &'static str = "Error al eliminar usuario: ";

pub const ERROR_OBTENER: &'static str = "Error al obtener usuario: ";

/// What the session handed back for a statement that ran.
#[derive(Debug, Clone, PartialEq, Eq)]
pub enum Salida {
    /// The number of rows a statement run for its effect touched.
    Afectadas(u64),
    /// Every row a query selected.
    Filas(Vec<Usuario>),
    /// The row a single-row query selected, if any.
    Fila(Option<Usuario>),
}

pub enum SalidaModelo {
    Afectadas(u64),
    Filas(Seq<UsuarioModelo>),
    Fila(Option<UsuarioModelo>),
}

pub open spec fn modelos(v: Seq<Usuario>) -> Seq<UsuarioModelo> {
    v.map_values(|u: Usuario| u@)
}

pub open spec fn modelo_opcional(o: Option<Usuario>) -> Option<UsuarioModelo> {
    match o {
        Some(u) => Some(u@),
        None => None,
    }
}

impl View for Salida {
    type V = SalidaModelo;

    open spec fn view(&self) -> SalidaModelo {
        match self {
            Salida::Afectadas(n) => SalidaModelo::Afectadas(*n),
            Salida::Filas(v) => SalidaModelo::Filas(modelos(v@)),
            Salida::Fila(o) => SalidaModelo::Fila(modelo_opcional(*o)),
        }
    }
}

/// The outcome of running a statement: what came back, or the text of the error.
pub open spec fn resultado_modelo(r: Result<Salida, String>) -> Result<SalidaModelo, Seq<char>> {
    match r {
        Ok(s) => Ok(s@),
        Err(e) => Err(e@),
    }
}

/// The body of the HTTP response to a request.
#[derive(Debug, Clone, PartialEq, Eq)]
pub enum Respuesta {
    /// A JSON string: a confirmation, or an error text in its place.
    Mensaje(String),
    /// A JSON array of records.
    Lista(Vec<Usuario>),
    /// A JSON record, or `null`.
    Uno(Option<Usuario>),
    /// The query behind a lookup failed: a server error with its text.
    Fallo(String),
}

pub enum RespuestaModelo {
    Mensaje(Seq<char>),
    Lista(Seq<UsuarioModelo>),
    Uno(Option<UsuarioModelo>),
    Fallo(Seq<char>),
}

impl View for Respuesta {
    type V = RespuestaModelo;

    open spec fn view(&self) -> RespuestaModelo {
        match self {
            Respuesta::Mensaje(m) => RespuestaModelo::Mensaje(m@),
            Respuesta::Lista(v) => RespuestaModelo::Lista(modelos(v@)),
            Respuesta::Uno(o) => RespuestaModelo::Uno(modelo_opcional(*o)),
            Respuesta::Fallo(m) => RespuestaModelo::Fallo(m@),
        }
    }
}

/// The confirmation, or the error text behind its prefix, of a statement run for
/// its effect; how many rows it touched is not looked at.
pub open spec fn confirmacion(
    r: Result<SalidaModelo, Seq<char>>,
    exito: Seq<char>,
    prefijo: Seq<char>,
) -> RespuestaModelo {
    match r {
        Ok(_) => RespuestaModelo::Mensaje(exito),
        Err(e) => RespuestaModelo::Mensaje(prefijo + e),
    }
}

/// The response to `op`, given the outcome of its statement. A failed listing
/// reads as an empty one; a failed lookup is a `Fallo`, never a crash.
pub open spec fn respuesta_de(
    op: OperacionModelo,
    r: Result<SalidaModelo, Seq<char>>,
) -> RespuestaModelo {
    match op {
        OperacionModelo::Crear(_) => confirmacion(r, CREADO@, ERROR_INSERTAR@),
        OperacionModelo::Actualizar(_, _) => confirmacion(r, ACTUALIZADO@, ERROR_ACTUALIZAR@),
        OperacionModelo::Eliminar(_) => confirmacion(r, ELIMINADO@, ERROR_ELIMINAR@),
        OperacionModelo::Listar => match r {
            Ok(SalidaModelo::Filas(v)) => RespuestaModelo::Lista(v),
            _ => RespuestaModelo::Lista(seq![]),
        },
        OperacionModelo::Obtener(_) => match r {
            Ok(SalidaModelo::Fila(o)) => RespuestaModelo::Uno(o),
            Ok(_) => RespuestaModelo::Uno(None),
            Err(e) => RespuestaModelo::Fallo(ERROR_OBTENER@ + e),
        },
    }
}

fn con_prefijo(prefijo: &str, e: &String) -> (r: String)
    ensures
        r@ == prefijo@ + e@,
{
    let mut m = prefijo.to_owned();
    m.append(e.as_str());
    m
}

fn mensaje_de(r: &Result<Salida, String>, exito: &str, prefijo: &str) -> (m: Respuesta)
    ensures
        m@ == confirmacion(resultado_modelo(*r), exito@, prefijo@),
{
    match r {
        Ok(_) => Respuesta::Mensaje(exito.to_owned()),
        Err(e) => Respuesta::Mensaje(con_prefijo(prefijo, e)),
    }
}

/// Turns the outcome of the statement that served `op` into the response.
pub fn responder(op: &Operacion, r: Result<Salida, String>) -> (m: Respuesta)
    ensures
        m@ == respuesta_de(op@, resultado_modelo(r)),
{
    match op {
        Operacion::Crear(_) => mensaje_de(&r, CREADO, ERROR_INSERTAR),
        Operacion::Actualizar(_, _) => mensaje_de(&r, ACTUALIZADO, ERROR_ACTUALIZAR),
        Operacion::Eliminar(_) => mensaje_de(&r, ELIMINADO, ERROR_ELIMINAR),
        Operacion::Listar => match r {
            Ok(Salida::Filas(v)) => Respuesta::Lista(v),
            _ => {
                let m = Respuesta::Lista(Vec::new());
                assert(m@ == respuesta_de(op@, resultado_modelo(r))) by {
                    assert(modelos(Seq::<Usuario>::empty()) =~= Seq::<UsuarioModelo>::empty());
                }
                m
            },
        },
        Operacion::Obtener(_) => match r {
            Ok(Salida::Fila(o)) => Respuesta::Uno(o),
            Ok(_) => Respuesta::Uno(None),
            Err(e) => Respuesta::Fallo(con_prefijo(ERROR_OBTENER, &e)),
        },
    }
}

} // verus!
