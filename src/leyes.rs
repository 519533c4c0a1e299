use vstd::prelude::*;
use crate::usuario::UsuarioModelo;
use crate::sentencia::OperacionModelo;
use crate::respuesta::{
    RespuestaModelo, SalidaModelo, respuesta_de, CREADO, ACTUALIZADO, ELIMINADO,
};
use crate::tabla::{ids_distintos, tiene, indice, buscar, ejecucion_valida};

verus! {

/// A statement can only be refused for its data by an insert of an id that is taken.
pub open spec fn conflicto(t: Seq<UsuarioModelo>, op: OperacionModelo) -> bool {
    match op {
        OperacionModelo::Crear(u) => tiene(t, u.id),
        _ => false,
    }
}

/// A run of a statement on a session that does not fault: it fails only on a conflict.
pub open spec fn ejecucion_sin_fallos(
    t: Seq<UsuarioModelo>,
    op: OperacionModelo,
    r: Result<SalidaModelo, Seq<char>>,
    t2: Seq<UsuarioModelo>,
) -> bool {
    ejecucion_valida(t, op, r, t2) && (r is Err ==> conflicto(t, op))
}

/// The inserts of `us`, one after the other from the rows `t`, in the order in which
/// their requests took the session guard: `estados[i]` holds the rows before the
/// `i`-th insert and `resultados[i]` its outcome.
pub open spec fn altas_en_serie(
    t: Seq<UsuarioModelo>,
    us: Seq<UsuarioModelo>,
    estados: Seq<Seq<UsuarioModelo>>,
    resultados: Seq<Result<SalidaModelo, Seq<char>>>,
) -> bool {
    &&& estados.len() == us.len() + 1
    &&& resultados.len() == us.len()
    &&& estados[0] == t
    &&& forall|i: int|
        0 <= i < us.len() ==> #[trigger] ejecucion_sin_fallos(
            estados[i],
            OperacionModelo::Crear(us[i]),
            resultados[i],
            estados[i + 1],
        )
}

proof fn lemma_buscar(s: Seq<UsuarioModelo>, k: int)
    requires
        ids_distintos(s),
        0 <= k < s.len(),
    ensures
        tiene(s, s[k].id),
        indice(s, s[k].id) == k,
        buscar(s, s[k].id) == Some(s[k]),
{
    assert(tiene(s, s[k].id));
    let j = indice(s, s[k].id);
    assert(0 <= j < s.len() && s[j].id == s[k].id);
    if j != k {
        assert(s[j].id != s[k].id);
    }
}

/// No statement, whatever its outcome, gives two rows the same id.
pub proof fn ley_clave_unica(
    t: Seq<UsuarioModelo>,
    op: OperacionModelo,
    r: Result<SalidaModelo, Seq<char>>,
    t2: Seq<UsuarioModelo>,
)
    requires
        ids_distintos(t),
        ejecucion_valida(t, op, r, t2),
    ensures
        ids_distintos(t2),
{
    if let Ok(_) = r {
        match op {
            OperacionModelo::Crear(u) => {
                assert forall|i: int, j: int|
                    0 <= i < t2.len() && 0 <= j < t2.len() && i != j implies #[trigger] t2[i].id
                    != #[trigger] t2[j].id by {
                    if i == t.len() {
                        assert(t2[j] == t[j]);
                    } else if j == t.len() {
                        assert(t2[i] == t[i]);
                    } else {
                        assert(t2[i] == t[i] && t2[j] == t[j]);
                    }
                }
            },
            OperacionModelo::Actualizar(id, _) => {
                if tiene(t, id) {
                    assert forall|i: int, j: int|
                        0 <= i < t2.len() && 0 <= j < t2.len() && i != j implies #[trigger] t2[i].id
                        != #[trigger] t2[j].id by {
                        assert(t2[i].id == t[i].id);
                        assert(t2[j].id == t[j].id);
                    }
                }
            },
            OperacionModelo::Eliminar(id) => {
                if tiene(t, id) {
                    let k = indice(t, id);
                    assert forall|i: int, j: int|
                        0 <= i < t2.len() && 0 <= j < t2.len() && i != j implies #[trigger] t2[i].id
                        != #[trigger] t2[j].id by {
                        let a = if i < k { i } else { i + 1 };
                        let b = if j < k { j } else { j + 1 };
                        assert(t2[i] == t[a] && t2[j] == t[b]);
                    }
                }
            },
            _ => {},
        }
    }
}

/// A record that was created can be fetched back by its id, field for field.
pub proof fn ley_crear_y_obtener(
    t: Seq<UsuarioModelo>,
    u: UsuarioModelo,
    r1: Result<SalidaModelo, Seq<char>>,
    t1: Seq<UsuarioModelo>,
    r2: Result<SalidaModelo, Seq<char>>,
    t2: Seq<UsuarioModelo>,
)
    requires
        ids_distintos(t),
        ejecucion_valida(t, OperacionModelo::Crear(u), r1, t1),
        r1 is Ok,
        ejecucion_valida(t1, OperacionModelo::Obtener(u.id), r2, t2),
        r2 is Ok,
    ensures
        respuesta_de(OperacionModelo::Crear(u), r1) == RespuestaModelo::Mensaje(CREADO@),
        respuesta_de(OperacionModelo::Obtener(u.id), r2) == RespuestaModelo::Uno(Some(u)),
{
    ley_clave_unica(t, OperacionModelo::Crear(u), r1, t1);
    lemma_buscar(t1, t.len() as int);
}

/// An update of an id that no row holds changes no row, and on success it still
/// answers with the confirmation.
pub proof fn ley_actualizar_inexistente(
    t: Seq<UsuarioModelo>,
    id: i32,
    u: UsuarioModelo,
    r: Result<SalidaModelo, Seq<char>>,
    t2: Seq<UsuarioModelo>,
)
    requires
        !tiene(t, id),
        ejecucion_valida(t, OperacionModelo::Actualizar(id, u), r, t2),
    ensures
        t2 == t,
        buscar(t2, id) is None,
        r is Ok ==> respuesta_de(OperacionModelo::Actualizar(id, u), r)
            == RespuestaModelo::Mensaje(ACTUALIZADO@),
{
}

/// A delete of an id that no row holds changes no row, and on success it still
/// answers with the confirmation.
pub proof fn ley_eliminar_inexistente(
    t: Seq<UsuarioModelo>,
    id: i32,
    r: Result<SalidaModelo, Seq<char>>,
    t2: Seq<UsuarioModelo>,
)
    requires
        !tiene(t, id),
        ejecucion_valida(t, OperacionModelo::Eliminar(id), r, t2),
    ensures
        t2 == t,
        r is Ok ==> respuesta_de(OperacionModelo::Eliminar(id), r)
            == RespuestaModelo::Mensaje(ELIMINADO@),
{
}

/// Once an id is deleted, fetching it answers `null`.
pub proof fn ley_eliminar_y_obtener(
    t: Seq<UsuarioModelo>,
    id: i32,
    r1: Result<SalidaModelo, Seq<char>>,
    t1: Seq<UsuarioModelo>,
    r2: Result<SalidaModelo, Seq<char>>,
    t2: Seq<UsuarioModelo>,
)
    requires
        ids_distintos(t),
        ejecucion_valida(t, OperacionModelo::Eliminar(id), r1, t1),
        r1 is Ok,
        ejecucion_valida(t1, OperacionModelo::Obtener(id), r2, t2),
        r2 is Ok,
    ensures
        respuesta_de(OperacionModelo::Obtener(id), r2) == RespuestaModelo::Uno(None),
{
    if tiene(t, id) {
        let k = indice(t, id);
        if tiene(t1, id) {
            let j = indice(t1, id);
            let a = if j < k { j } else { j + 1 };
            assert(t1[j] == t[a]);
            assert(t[a].id != t[k].id);
        }
    }
}

proof fn lemma_altas(
    t: Seq<UsuarioModelo>,
    us: Seq<UsuarioModelo>,
    estados: Seq<Seq<UsuarioModelo>>,
    resultados: Seq<Result<SalidaModelo, Seq<char>>>,
    n: int,
)
    requires
        ids_distintos(t),
        ids_distintos(us),
        forall|i: int| 0 <= i < us.len() ==> !tiene(t, #[trigger] us[i].id),
        altas_en_serie(t, us, estados, resultados),
        0 <= n <= us.len(),
    ensures
        estados[n] == t + us.take(n),
        ids_distintos(estados[n]),
        forall|i: int| 0 <= i < n ==> #[trigger] resultados[i] is Ok,
    decreases n,
{
    if n == 0 {
        assert(t + us.take(0) =~= t);
    } else {
        let m = n - 1;
        lemma_altas(t, us, estados, resultados, m);
        let s = estados[m];
        let u = us[m];
        assert(ejecucion_sin_fallos(s, OperacionModelo::Crear(u), resultados[m], estados[m + 1]));
        if tiene(s, u.id) {
            let j = indice(s, u.id);
            if j < t.len() {
                assert(s[j] == t[j]);
                assert(!tiene(t, us[m].id));
            } else {
                assert(s[j] == us[j - t.len()]);
            }
        }
        assert(resultados[m] is Ok);
        assert(estados[n] =~= t + us.take(n));
        ley_clave_unica(s, OperacionModelo::Crear(u), resultados[m], estados[n]);
    }
}

/// Inserts of records with distinct ids, none of them taken, all succeed whatever
/// order the session guard admits them in, and each record can then be fetched back.
pub proof fn ley_altas_concurrentes(
    t: Seq<UsuarioModelo>,
    us: Seq<UsuarioModelo>,
    estados: Seq<Seq<UsuarioModelo>>,
    resultados: Seq<Result<SalidaModelo, Seq<char>>>,
)
    requires
        ids_distintos(t),
        ids_distintos(us),
        forall|i: int| 0 <= i < us.len() ==> !tiene(t, #[trigger] us[i].id),
        altas_en_serie(t, us, estados, resultados),
    ensures
        forall|i: int|
            0 <= i < us.len() ==> #[trigger] respuesta_de(OperacionModelo::Crear(us[i]), resultados[i])
                == RespuestaModelo::Mensaje(CREADO@),
        forall|i: int|
            0 <= i < us.len() ==> #[trigger] buscar(estados[us.len() as int], us[i].id) == Some(us[i]),
{
    let n = us.len() as int;
    lemma_altas(t, us, estados, resultados, n);
    assert(us.take(n) =~= us);
    assert forall|i: int| 0 <= i < us.len() implies #[trigger] buscar(estados[n], us[i].id) == Some(
        us[i],
    ) by {
        assert(estados[n][t.len() + i] == us[i]);
        lemma_buscar(estados[n], t.len() + i);
    }
}

/// After inserting records with distinct ids into an empty table, the listing holds
/// exactly those records, each once, in some order.
pub proof fn ley_listar_tras_altas(
    us: Seq<UsuarioModelo>,
    estados: Seq<Seq<UsuarioModelo>>,
    resultados: Seq<Result<SalidaModelo, Seq<char>>>,
    r: Result<SalidaModelo, Seq<char>>,
    t2: Seq<UsuarioModelo>,
)
    requires
        ids_distintos(us),
        altas_en_serie(Seq::empty(), us, estados, resultados),
        ejecucion_valida(estados[us.len() as int], OperacionModelo::Listar, r, t2),
        r is Ok,
    ensures
        match respuesta_de(OperacionModelo::Listar, r) {
            RespuestaModelo::Lista(v) => v.len() == us.len() && v.to_multiset() == us.to_multiset(),
            _ => false,
        },
{
    let n = us.len() as int;
    let t = Seq::<UsuarioModelo>::empty();
    lemma_altas(t, us, estados, resultados, n);
    assert(t + us.take(n) =~= us);
    if let Ok(SalidaModelo::Filas(v)) = r {
        v.to_multiset_ensures();
        us.to_multiset_ensures();
    }
}

} // verus!
