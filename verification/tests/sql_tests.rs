use rinha_backend::models::{Cliente, Transacao};
use rinha_backend::sql::{fill_table_fields, replace_all_text};

#[test]
fn fields_of_statements() {
    assert_eq!(Cliente::sql_fields(), "id, limite, saldo");
    assert_eq!(
        Transacao::sql_table_fields(),
        "transacoes.valor, transacoes.tipo, transacoes.descricao, transacoes.saldo_rmsc, transacoes.realizada_em"
    );
}

#[test]
fn fill_marker() {
    assert_eq!(
        fill_table_fields("SELECT $table_fields FROM backend.clientes", "id, limite, saldo"),
        "SELECT id, limite, saldo FROM backend.clientes"
    );
    assert_eq!(fill_table_fields("SELECT 1", "x"), "SELECT 1");
    assert_eq!(fill_table_fields("$table_fields,$table_fields", "a"), "a,a");
    assert_eq!(fill_table_fields("$table_field", "a"), "$table_field");
}

#[test]
fn replace_left_to_right() {
    assert_eq!(replace_all_text("aaa", "aa", "b"), "ba");
    assert_eq!(replace_all_text("ção ção", "ção", "x"), "x x");
    assert_eq!(replace_all_text("", "a", "b"), "");
    assert_eq!(replace_all_text("abc", "abc", ""), "");
}
