use rinha_backend::errors::{DatabaseError, MyError};
use rinha_backend::models::{
    BalanceUpdate, Cliente, Extrato, Transacao, TransactionAction, TransactionEvent, EXTRATO_LIMIT,
};

fn transacao(valor: i32, tipo: &str, descricao: &str) -> Transacao {
    Transacao {
        valor,
        tipo: tipo.to_string(),
        descricao: descricao.to_string(),
        saldo_rmsc: 0,
        realizada_em: "2024-01-17T02:34:38.543030Z".to_string(),
    }
}

#[test]
fn validate_accepts_debit_and_credit() {
    assert_eq!(transacao(1000, "d", "descricao").validate_fields(), Ok(()));
    assert_eq!(transacao(1, "c", "x").validate_fields(), Ok(()));
}

#[test]
fn validate_refuses_non_positive_amount() {
    assert_eq!(transacao(0, "c", "ok").validate_fields(), Err(MyError::Unprocessable));
    assert_eq!(transacao(-5, "d", "ok").validate_fields(), Err(MyError::Unprocessable));
}

#[test]
fn validate_refuses_unknown_kind() {
    assert_eq!(transacao(10, "x", "ok").validate_fields(), Err(MyError::Unprocessable));
    assert_eq!(transacao(10, "dd", "ok").validate_fields(), Err(MyError::Unprocessable));
    assert_eq!(transacao(10, "", "ok").validate_fields(), Err(MyError::Unprocessable));
    assert_eq!(transacao(10, "C", "ok").validate_fields(), Err(MyError::Unprocessable));
}

#[test]
fn validate_description_length_in_characters() {
    assert_eq!(transacao(10, "c", "").validate_fields(), Err(MyError::Unprocessable));
    assert_eq!(transacao(10, "c", "0123456789").validate_fields(), Ok(()));
    assert_eq!(transacao(10, "c", "0123456789a").validate_fields(), Err(MyError::Unprocessable));
    // nine characters, eleven bytes
    assert_eq!(transacao(10, "c", "descrição").validate_fields(), Ok(()));
    // seven characters, fourteen bytes
    assert_eq!(transacao(1000, "c", "ééééééé").validate_fields(), Ok(()));
    // eleven characters
    assert_eq!(transacao(10, "d", "ééééééééééé").validate_fields(), Err(MyError::Unprocessable));
}

#[test]
fn debit_asks_for_guarded_update() {
    let mut cliente = Cliente { id: 1, limite: 100000, saldo: 0 };
    let t = transacao(1000, "d", "pix");
    match cliente.make_transaction(&t, TransactionEvent::Start) {
        TransactionAction::UpdateBalance(u) => assert_eq!(
            u,
            BalanceUpdate::Debit { cliente_id: 1, valor: 1000, min_saldo: -99000 }
        ),
        other => panic!("unexpected action {:?}", other),
    }
    assert_eq!(cliente, Cliente { id: 1, limite: 100000, saldo: 0 });
}

#[test]
fn credit_asks_for_plain_update() {
    let mut cliente = Cliente { id: 3, limite: 1000000, saldo: 0 };
    let t = transacao(250, "c", "salario");
    match cliente.make_transaction(&t, TransactionEvent::Start) {
        TransactionAction::UpdateBalance(u) => {
            assert_eq!(u, BalanceUpdate::Credit { cliente_id: 3, valor: 250 })
        }
        other => panic!("unexpected action {:?}", other),
    }
}

#[test]
fn new_balance_is_recorded() {
    let mut cliente = Cliente { id: 2, limite: 80000, saldo: 0 };
    let t = transacao(500, "d", "padaria");
    match cliente.make_transaction(&t, TransactionEvent::BalanceUpdated(Ok(-500))) {
        TransactionAction::Register(rec) => {
            assert_eq!(rec.cliente_id, 2);
            assert_eq!(rec.valor, 500);
            assert_eq!(rec.tipo, "d");
            assert_eq!(rec.descricao, "padaria");
            assert_eq!(rec.saldo_rmsc, -500);
            assert_eq!(rec.realizada_em, "2024-01-17T02:34:38.543030Z");
        }
        other => panic!("unexpected action {:?}", other),
    }
    assert_eq!(cliente.saldo, -500);
    assert_eq!(cliente.limite, 80000);
}

#[test]
fn failed_update_finishes_with_its_error() {
    let mut cliente = Cliente { id: 2, limite: 80000, saldo: 7 };
    let t = transacao(500000, "d", "carro");
    let err = MyError::DbError(DatabaseError { not_found: true, message: "Record not found".to_string() });
    match cliente.make_transaction(&t, TransactionEvent::BalanceUpdated(Err(err.clone()))) {
        TransactionAction::Finish(r) => assert_eq!(r, Err(err)),
        other => panic!("unexpected action {:?}", other),
    }
    assert_eq!(cliente.saldo, 7);
}

#[test]
fn registration_finishes_transaction() {
    let mut cliente = Cliente { id: 2, limite: 80000, saldo: 7 };
    let t = transacao(5, "c", "troco");
    match cliente.make_transaction(&t, TransactionEvent::Registered(Ok(()))) {
        TransactionAction::Finish(r) => assert_eq!(r, Ok(())),
        other => panic!("unexpected action {:?}", other),
    }
    match cliente.make_transaction(&t, TransactionEvent::Registered(Err(MyError::NotFound))) {
        TransactionAction::Finish(r) => assert_eq!(r, Err(MyError::NotFound)),
        other => panic!("unexpected action {:?}", other),
    }
}

#[test]
fn debit_floor_keeps_limit() {
    // the floor of a debit is valor - limite: from that balance on, the debit
    // leaves at least -limite
    let mut cliente = Cliente { id: 4, limite: 1000, saldo: 0 };
    let t = transacao(300, "d", "x");
    if let TransactionAction::UpdateBalance(BalanceUpdate::Debit { valor, min_saldo, .. }) =
        cliente.make_transaction(&t, TransactionEvent::Start)
    {
        assert_eq!(min_saldo, -700);
        assert_eq!(min_saldo - valor, -1000);
    } else {
        panic!("expected a debit");
    }
}

#[test]
fn register_transaction_copies_fields() {
    let cliente = Cliente { id: 5, limite: 10, saldo: 42 };
    let t = transacao(42, "c", "deposito");
    let rec = t.register_transaction(&cliente);
    assert_eq!(rec.cliente_id, 5);
    assert_eq!(rec.saldo_rmsc, 42);
    assert_eq!(rec.valor, 42);
    assert_eq!(rec.tipo, "c");
    assert_eq!(rec.descricao, "deposito");
}

#[test]
fn saldo_and_query() {
    let mut cliente = Cliente { id: 9, limite: 500, saldo: 0 };
    assert_eq!(cliente.get_saldo(-120), -120);
    assert_eq!(cliente, Cliente { id: 9, limite: 500, saldo: -120 });
    let q = cliente.get_last_transactions();
    assert_eq!(q.cliente_id, 9);
    assert_eq!(q.limit, 10);
    assert!(q.newest_first);
    assert_eq!(EXTRATO_LIMIT, 10);
}

#[test]
fn statement_at_given_time() {
    let cliente = Cliente { id: 1, limite: 100000, saldo: 0 };
    let ts = vec![transacao(10, "c", "a"), transacao(20, "d", "b")];
    let e = Extrato::build_history_at(cliente, ts.clone(), -9098, "2024-01-17T02:34:41.217753Z".to_string());
    assert_eq!(e.saldo.total, -9098);
    assert_eq!(e.saldo.limite, 100000);
    assert_eq!(e.saldo.data_extrato, "2024-01-17T02:34:41.217753Z");
    assert_eq!(e.ultimas_transacoes, ts);
}

#[test]
fn statement_now() {
    let cliente = Cliente { id: 1, limite: 100000, saldo: 0 };
    let e = Extrato::build_history(cliente, vec![], 55);
    assert_eq!(e.saldo.total, 55);
    assert_eq!(e.saldo.limite, 100000);
    assert!(e.ultimas_transacoes.is_empty());
    let d: Vec<char> = e.saldo.data_extrato.chars().collect();
    let n = d.len();
    assert!(n >= 27);
    assert_eq!(d[n - 1], 'Z');
    assert_eq!(d[n - 8], '.');
    assert_eq!(d[n - 11], ':');
    assert_eq!(d[n - 14], ':');
    assert_eq!(d[n - 17], 'T');
    assert_eq!(d[n - 20], '-');
    assert_eq!(d[n - 23], '-');
    for k in (n - 27)..(n - 23) {
        assert!(d[k].is_ascii_digit());
    }
    for k in (n - 7)..(n - 1) {
        assert!(d[k].is_ascii_digit());
    }
}
