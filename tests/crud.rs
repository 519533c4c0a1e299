use crud_usuarios::respuesta::{
    responder, Respuesta, Salida, ACTUALIZADO, CREADO, ELIMINADO, ERROR_ACTUALIZAR,
    ERROR_ELIMINAR, ERROR_INSERTAR, ERROR_OBTENER,
};
use crud_usuarios::sentencia::{
    sentencia, Forma, Operacion, Parametro, SQL_ACTUALIZAR, SQL_ELIMINAR, SQL_INSERTAR,
    SQL_LISTAR, SQL_OBTENER,
};
use crud_usuarios::tabla::{Tabla, ERROR_DUPLICADO};
use crud_usuarios::usuario::Usuario;

fn usuario(id: i32, nombre: &str, apellido: &str, email: &str) -> Usuario {
    Usuario {
        id_usuario: id,
        nombre: nombre.to_string(),
        apellido: apellido.to_string(),
        email: email.to_string(),
    }
}

/// Runs one request against the table, as a handler does.
fn atender(t: &mut Tabla, op: Operacion) -> Respuesta {
    let r = t.ejecutar(&op);
    responder(&op, r)
}

fn mensaje(m: &str) -> Respuesta {
    Respuesta::Mensaje(m.to_string())
}

#[test]
fn flujo_completo_de_un_usuario() {
    let mut t = Tabla::nueva();
    let ana = usuario(1, "Ana", "Lopez", "a@x.com");
    assert_eq!(atender(&mut t, Operacion::Crear(ana.clone())), mensaje("Usuario creado con éxito"));
    assert_eq!(atender(&mut t, Operacion::Obtener(1)), Respuesta::Uno(Some(ana.clone())));
    let ana2 = usuario(1, "Ana2", "Lopez", "a@x.com");
    assert_eq!(
        atender(&mut t, Operacion::Actualizar(1, ana2.clone())),
        mensaje("Usuario actualizado con éxito")
    );
    match atender(&mut t, Operacion::Obtener(1)) {
        Respuesta::Uno(Some(u)) => assert_eq!(u.nombre, "Ana2"),
        otra => panic!("unexpected response {:?}", otra),
    }
    assert_eq!(atender(&mut t, Operacion::Eliminar(1)), mensaje("Usuario eliminado con éxito"));
    assert_eq!(atender(&mut t, Operacion::Obtener(1)), Respuesta::Uno(None));
}

#[test]
fn crear_y_obtener_devuelve_el_mismo_registro() {
    let mut t = Tabla::nueva();
    let u = usuario(42, "Bea", "Ruiz", "");
    atender(&mut t, Operacion::Crear(u.clone()));
    assert_eq!(atender(&mut t, Operacion::Obtener(42)), Respuesta::Uno(Some(u)));
}

#[test]
fn listar_tras_crear_n_registros() {
    let mut t = Tabla::nueva();
    let us = vec![
        usuario(3, "C", "c", "c@x"),
        usuario(1, "A", "a", "a@x"),
        usuario(2, "B", "b", "b@x"),
    ];
    for u in &us {
        assert_eq!(atender(&mut t, Operacion::Crear(u.clone())), mensaje(CREADO));
    }
    match atender(&mut t, Operacion::Listar) {
        Respuesta::Lista(v) => {
            assert_eq!(v.len(), 3);
            for u in &us {
                assert_eq!(v.iter().filter(|x| *x == u).count(), 1);
            }
        }
        otra => panic!("unexpected response {:?}", otra),
    }
}

#[test]
fn listar_tabla_vacia() {
    let mut t = Tabla::nueva();
    assert_eq!(atender(&mut t, Operacion::Listar), Respuesta::Lista(vec![]));
}

#[test]
fn actualizar_inexistente_confirma_y_no_crea() {
    let mut t = Tabla::nueva();
    atender(&mut t, Operacion::Crear(usuario(1, "A", "a", "a@x")));
    let r = atender(&mut t, Operacion::Actualizar(9, usuario(9, "Z", "z", "z@x")));
    assert_eq!(r, mensaje(ACTUALIZADO));
    assert_eq!(atender(&mut t, Operacion::Obtener(9)), Respuesta::Uno(None));
    assert_eq!(t.len(), 1);
    assert_eq!(
        atender(&mut t, Operacion::Listar),
        Respuesta::Lista(vec![usuario(1, "A", "a", "a@x")])
    );
}

#[test]
fn actualizar_usa_el_id_de_la_ruta() {
    let mut t = Tabla::nueva();
    atender(&mut t, Operacion::Crear(usuario(5, "A", "a", "a@x")));
    atender(&mut t, Operacion::Actualizar(5, usuario(77, "N", "n", "n@x")));
    assert_eq!(atender(&mut t, Operacion::Obtener(5)), Respuesta::Uno(Some(usuario(5, "N", "n", "n@x"))));
    assert_eq!(atender(&mut t, Operacion::Obtener(77)), Respuesta::Uno(None));
}

#[test]
fn eliminar_inexistente_confirma_y_no_cambia_nada() {
    let mut t = Tabla::nueva();
    atender(&mut t, Operacion::Crear(usuario(1, "A", "a", "a@x")));
    assert_eq!(atender(&mut t, Operacion::Eliminar(2)), mensaje(ELIMINADO));
    assert_eq!(t.len(), 1);
    assert_eq!(
        atender(&mut t, Operacion::Obtener(1)),
        Respuesta::Uno(Some(usuario(1, "A", "a", "a@x")))
    );
}

#[test]
fn eliminar_y_obtener_da_nulo() {
    let mut t = Tabla::nueva();
    atender(&mut t, Operacion::Crear(usuario(1, "A", "a", "a@x")));
    atender(&mut t, Operacion::Crear(usuario(2, "B", "b", "b@x")));
    assert_eq!(atender(&mut t, Operacion::Eliminar(1)), mensaje(ELIMINADO));
    assert_eq!(atender(&mut t, Operacion::Obtener(1)), Respuesta::Uno(None));
    assert_eq!(
        atender(&mut t, Operacion::Obtener(2)),
        Respuesta::Uno(Some(usuario(2, "B", "b", "b@x")))
    );
}

#[test]
fn altas_en_cualquier_orden_tienen_exito() {
    let us = vec![
        usuario(10, "A", "a", "a@x"),
        usuario(-4, "B", "b", "b@x"),
        usuario(i32::MAX, "C", "c", "c@x"),
        usuario(i32::MIN, "D", "d", "d@x"),
    ];
    let ordenes: Vec<Vec<usize>> = vec![vec![0, 1, 2, 3], vec![3, 2, 1, 0], vec![2, 0, 3, 1]];
    for orden in ordenes {
        let mut t = Tabla::nueva();
        for &i in &orden {
            assert_eq!(atender(&mut t, Operacion::Crear(us[i].clone())), mensaje(CREADO));
        }
        for u in &us {
            assert_eq!(atender(&mut t, Operacion::Obtener(u.id_usuario)), Respuesta::Uno(Some(u.clone())));
        }
    }
}

#[test]
fn crear_con_id_repetido_falla_con_mensaje() {
    let mut t = Tabla::nueva();
    atender(&mut t, Operacion::Crear(usuario(1, "A", "a", "a@x")));
    let r = atender(&mut t, Operacion::Crear(usuario(1, "B", "b", "b@x")));
    assert_eq!(r, mensaje(&format!("Error al insertar usuario: {}", ERROR_DUPLICADO)));
    assert_eq!(
        atender(&mut t, Operacion::Obtener(1)),
        Respuesta::Uno(Some(usuario(1, "A", "a", "a@x")))
    );
}

#[test]
fn respuestas_de_error_por_operacion() {
    let e = || Err("conexión cerrada".to_string());
    let u = usuario(1, "A", "a", "a@x");
    assert_eq!(
        responder(&Operacion::Crear(u.clone()), e()),
        mensaje("Error al insertar usuario: conexión cerrada")
    );
    assert_eq!(
        responder(&Operacion::Actualizar(1, u), e()),
        mensaje("Error al actualizar usuario: conexión cerrada")
    );
    assert_eq!(
        responder(&Operacion::Eliminar(1), e()),
        mensaje("Error al eliminar usuario: conexión cerrada")
    );
    assert_eq!(responder(&Operacion::Listar, e()), Respuesta::Lista(vec![]));
    assert_eq!(
        responder(&Operacion::Obtener(1), e()),
        Respuesta::Fallo("Error al obtener usuario: conexión cerrada".to_string())
    );
    assert_eq!(ERROR_INSERTAR, "Error al insertar usuario: ");
    assert_eq!(ERROR_ACTUALIZAR, "Error al actualizar usuario: ");
    assert_eq!(ERROR_ELIMINAR, "Error al eliminar usuario: ");
    assert_eq!(ERROR_OBTENER, "Error al obtener usuario: ");
}

#[test]
fn confirmacion_no_mira_las_filas_afectadas() {
    let u = usuario(1, "A", "a", "a@x");
    assert_eq!(responder(&Operacion::Crear(u.clone()), Ok(Salida::Afectadas(0))), mensaje(CREADO));
    assert_eq!(responder(&Operacion::Actualizar(1, u), Ok(Salida::Afectadas(0))), mensaje(ACTUALIZADO));
    assert_eq!(responder(&Operacion::Eliminar(1), Ok(Salida::Afectadas(3))), mensaje(ELIMINADO));
    assert_eq!(responder(&Operacion::Obtener(1), Ok(Salida::Fila(None))), Respuesta::Uno(None));
}

#[test]
fn sentencias_por_operacion() {
    let u = usuario(7, "Ana", "Lopez", "a@x.com");
    let s = sentencia(&Operacion::Crear(u.clone()));
    assert_eq!(s.sql, SQL_INSERTAR);
    assert_eq!(
        s.sql,
        "INSERT INTO usuario (id_usuario, nombre, apellido, email) VALUES ($1, $2, $3, $4)"
    );
    assert_eq!(
        s.parametros,
        vec![
            Parametro::Entero(7),
            Parametro::Texto("Ana".to_string()),
            Parametro::Texto("Lopez".to_string()),
            Parametro::Texto("a@x.com".to_string()),
        ]
    );
    assert_eq!(s.forma, Forma::Ejecutar);

    let s = sentencia(&Operacion::Listar);
    assert_eq!(s.sql, SQL_LISTAR);
    assert!(s.parametros.is_empty());
    assert_eq!(s.forma, Forma::Consultar);

    let s = sentencia(&Operacion::Obtener(3));
    assert_eq!(s.sql, SQL_OBTENER);
    assert_eq!(s.parametros, vec![Parametro::Entero(3)]);
    assert_eq!(s.forma, Forma::ConsultarUna);

    let s = sentencia(&Operacion::Actualizar(3, u));
    assert_eq!(s.sql, SQL_ACTUALIZAR);
    assert_eq!(
        s.parametros,
        vec![
            Parametro::Texto("Ana".to_string()),
            Parametro::Texto("Lopez".to_string()),
            Parametro::Texto("a@x.com".to_string()),
            Parametro::Entero(3),
        ]
    );
    assert_eq!(s.forma, Forma::Ejecutar);

    let s = sentencia(&Operacion::Eliminar(3));
    assert_eq!(s.sql, "DELETE FROM usuario WHERE id_usuario = $1");
    assert_eq!(s.sql, SQL_ELIMINAR);
    assert_eq!(s.parametros, vec![Parametro::Entero(3)]);
}

#[test]
fn copiar_conserva_los_campos() {
    let u = usuario(1, "Ana", "Lopez", "a@x.com");
    assert_eq!(u.copiar(), u);
}
