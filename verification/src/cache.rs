use std::collections::HashMap;
use vstd::prelude::*;

use crate::errors::MyError;
use crate::models::{Cliente, Transacao};

verus! {

broadcast use vstd::std_specs::hash::group_hash_axioms;

/// The limits of the clients, by id, after reading `clientes` in order: a
/// later client with the same id replaces an earlier one.
pub open spec fn cache_of(clientes: Seq<Cliente>) -> Map<i32, i32>
    decreases clientes.len(),
{
    if clientes.len() == 0 {
        Map::empty()
    } else {
        cache_of(clientes.drop_last()).insert(clientes.last().id, clientes.last().limite)
    }
}

/// The client that the cache knows under `cliente_id`: its limit, and a
/// balance of 0 until the database is asked; a missing id is `NotFound`.
pub open spec fn cache_lookup(cliente_id: i32, cache: Map<i32, i32>) -> Result<Cliente, MyError> {
    if cache.contains_key(cliente_id) {
        Ok(Cliente { id: cliente_id, limite: cache[cliente_id], saldo: 0 })
    } else {
        Err(MyError::NotFound)
    }
}

/// Fills the cache of the clients' limits, keyed by client id.
pub fn build_cache(clientes: &Vec<Cliente>) -> (cache: HashMap<i32, i32>)
    ensures
        cache@ == cache_of(clientes@),
{
    let mut cache: HashMap<i32, i32> = HashMap::new();
    let n = clientes.len();
    let mut i: usize = 0;
    while i < n
        invariant
            n == clientes@.len(),
            i <= n,
            cache@ == cache_of(clientes@.take(i as int)),
        decreases n - i,
    {
        let cliente = clientes[i];
        cache.insert(cliente.id, cliente.limite);
        assert(clientes@.take(i + 1).drop_last() =~= clientes@.take(i as int));
        i = i + 1;
    }
    assert(clientes@.take(n as int) =~= clientes@);
    cache
}

pub fn get_cliente_cache(cliente_id: i32, cache_cliente: &HashMap<i32, i32>) -> (r: Result<
    Cliente,
    MyError,
>)
    ensures
        r == cache_lookup(cliente_id, cache_cliente@),
{
    match cache_cliente.get(&cliente_id) {
        Some(limite) => Ok(Cliente { id: cliente_id, limite: *limite, saldo: 0 }),
        None => Err(MyError::NotFound),
    }
}

/// The checks of a new transaction before the database is asked: a
/// transaction that breaks the rules is refused as `Unprocessable`, whether
/// or not the client exists; a valid one goes to the client of the cache.
pub fn add_transacao(cliente_id: i32, transacao: &Transacao, cache_cliente: &HashMap<i32, i32>) -> (r:
    Result<Cliente, MyError>)
    ensures
        !transacao.is_valid() ==> r == Err::<Cliente, MyError>(MyError::Unprocessable),
        transacao.is_valid() ==> r == cache_lookup(cliente_id, cache_cliente@),
{
    match transacao.validate_fields() {
        Ok(()) => get_cliente_cache(cliente_id, cache_cliente),
        Err(e) => Err(e),
    }
}

/// The ids of the cache built from `clientes` are those of `clientes`.
pub proof fn lemma_cache_ids(clientes: Seq<Cliente>, id: i32)
    ensures
        cache_of(clientes).contains_key(id) <==> exists|i: int|
            0 <= i < clientes.len() && #[trigger] clientes[i].id == id,
    decreases clientes.len(),
{
    if clientes.len() > 0 {
        let rest = clientes.drop_last();
        lemma_cache_ids(rest, id);
        if cache_of(rest).contains_key(id) {
            let i = choose|i: int| 0 <= i < rest.len() && #[trigger] rest[i].id == id;
            assert(clientes[i].id == id);
        }
        if exists|i: int| 0 <= i < clientes.len() && #[trigger] clientes[i].id == id {
            let i = choose|i: int| 0 <= i < clientes.len() && #[trigger] clientes[i].id == id;
            if i < clientes.len() - 1 {
                assert(rest[i].id == id);
            }
        }
    }
}

/// Reading back from the cache: when the ids of `clientes` are distinct,
/// looking up the id of any of them in the cache built from `clientes`
/// gives that client's id and limit, with a balance of 0.
pub proof fn lemma_cache_round_trip(clientes: Seq<Cliente>, k: int)
    requires
        0 <= k < clientes.len(),
        forall|i: int, j: int|
            0 <= i < j < clientes.len() ==> #[trigger] clientes[i].id != #[trigger] clientes[j].id,
    ensures
        cache_lookup(clientes[k].id, cache_of(clientes)) == Ok::<Cliente, MyError>(
            Cliente { id: clientes[k].id, limite: clientes[k].limite, saldo: 0 },
        ),
    decreases clientes.len(),
{
    let rest = clientes.drop_last();
    if k < clientes.len() - 1 {
        assert(rest[k] == clientes[k]);
        assert forall|i: int, j: int| 0 <= i < j < rest.len() implies #[trigger] rest[i].id
            != #[trigger] rest[j].id by {
            assert(rest[i] == clientes[i] && rest[j] == clientes[j]);
        }
        lemma_cache_round_trip(rest, k);
        assert(clientes[k].id != clientes.last().id);
    }
}

/// A lookup answers with the asked id, the limit the cache holds for it and
/// a balance of 0, and with `NotFound` exactly when the id is not cached.
pub proof fn lemma_lookup_answers(cliente_id: i32, cache: Map<i32, i32>)
    ensures
        cache_lookup(cliente_id, cache) is Err <==> !cache.contains_key(cliente_id),
        cache_lookup(cliente_id, cache) is Err ==> cache_lookup(cliente_id, cache) == Err::<
            Cliente,
            MyError,
        >(MyError::NotFound),
        cache_lookup(cliente_id, cache) matches Ok(c) ==> c.id == cliente_id && c.limite
            == cache[cliente_id] && c.saldo == 0,
{
}

/// The last client read decides the limit cached for its id, and the other
/// ids keep theirs.
pub proof fn lemma_cache_last_wins(clientes: Seq<Cliente>, c: Cliente, id: i32)
    ensures
        cache_of(clientes.push(c)).contains_key(c.id),
        cache_of(clientes.push(c))[c.id] == c.limite,
        id != c.id ==> (cache_of(clientes.push(c)).contains_key(id) <==> cache_of(
            clientes,
        ).contains_key(id)),
        id != c.id && cache_of(clientes).contains_key(id) ==> cache_of(clientes.push(c))[id]
            == cache_of(clientes)[id],
{
    assert(clientes.push(c).drop_last() =~= clientes);
}

} // verus!
