use vstd::prelude::*;
use vstd::string::*;

use crate::errors::MyError;

verus! {

/// A client account: its id, its credit limit and its balance, in cents.
#[derive(Clone, Copy, Debug, PartialEq, Eq, Structural)]
pub struct Cliente {
    pub id: i32,
    pub limite: i32,
    pub saldo: i32,
}

/// A transaction as the client submits it, with the balance it left
/// (`saldo_rmsc`) and when it was made (`realizada_em`).
#[derive(Clone, Debug, PartialEq, Eq)]
pub struct Transacao {
    pub valor: i32,
    pub tipo: String,
    pub descricao: String,
    pub saldo_rmsc: i32,
    pub realizada_em: String,
}

/// The kind of a debit: the one-letter text "d".
pub open spec fn is_debit(tipo: Seq<char>) -> bool {
    tipo == seq!['d']
}

/// The kind of a credit: the one-letter text "c".
pub open spec fn is_credit(tipo: Seq<char>) -> bool {
    tipo == seq!['c']
}

/// Whether a text is the single character `c`.
fn is_single_char(text: &String, c: char) -> (r: bool)
    ensures
        r == (text@ == seq![c]),
{
    let s = text.as_str();
    if s.unicode_len() != 1 {
        return false;
    }
    let first = s.get_char(0);
    if first == c {
        assert(s@ =~= seq![c]);
        true
    } else {
        false
    }
}

impl Transacao {
    /// The rules a submitted transaction must meet: a positive amount of
    /// cents, a kind that is "c" (credit) or "d" (debit), and a description of
    /// 1 to 10 characters.
    pub open spec fn is_valid(&self) -> bool {
        &&& self.valor >= 1
        &&& (is_debit(self.tipo@) || is_credit(self.tipo@))
        &&& 1 <= self.descricao@.len() <= 10
    }

    pub fn validate_fields(&self) -> (r: Result<(), MyError>)
        ensures
            r is Ok <==> self.is_valid(),
            r is Err ==> r == Err::<(), MyError>(MyError::Unprocessable),
    {
        if self.valor < 1 {
            return Err(MyError::Unprocessable);
        }
        let debit = is_single_char(&self.tipo, 'd');
        let credit = is_single_char(&self.tipo, 'c');
        if !debit && !credit {
            return Err(MyError::Unprocessable);
        }
        let desc_len = self.descricao.as_str().unicode_len();
        if !(1 <= desc_len && desc_len <= 10) {
            return Err(MyError::Unprocessable);
        }
        Ok(())
    }
}


/// What makes a submitted transaction acceptable, in terms of its fields:
/// a positive amount, the kind "c" or "d", and 1 to 10 characters of
/// description.
pub proof fn lemma_validity_rule(t: Transacao)
    ensures
        t.is_valid() <==> (t.valor >= 1 && (t.tipo@ == seq!['c'] || t.tipo@ == seq!['d']) && 1
            <= t.descricao@.len() <= 10),
{
}

/// No amount is too large: a valid transaction stays valid with any other
/// positive amount, up to `i32::MAX` cents.
pub proof fn lemma_any_positive_amount(t: Transacao, valor: i32)
    requires
        t.is_valid(),
        valor >= 1,
    ensures
        (Transacao { valor, ..t }).is_valid(),
        (Transacao { valor: i32::MAX, ..t }).is_valid(),
{
}

/// The description may hold any characters: a valid transaction stays valid
/// with any other description of 1 to 10 characters.
pub proof fn lemma_any_short_description(t: Transacao, descricao: String)
    requires
        t.is_valid(),
        1 <= descricao@.len() <= 10,
    ensures
        (Transacao { descricao, ..t }).is_valid(),
{
}

/// The update of a client's balance that a transaction asks the database for.
///
/// `Debit` stands for `UPDATE clientes SET saldo = saldo - valor WHERE id =
/// cliente_id AND saldo >= min_saldo RETURNING saldo`; `Credit` for `UPDATE
/// clientes SET saldo = saldo + valor WHERE id = cliente_id RETURNING saldo`.
#[derive(Clone, Copy, Debug, PartialEq, Eq, Structural)]
pub enum BalanceUpdate {
    Debit { cliente_id: i32, valor: i32, min_saldo: i32 },
    Credit { cliente_id: i32, valor: i32 },
}

impl BalanceUpdate {
    /// The balance that the update leaves on the client's row when that row
    /// holds `saldo`, or `None` when the update's condition leaves the row as
    /// it was (the database then returns no row).
    pub open spec fn outcome(self, saldo: int) -> Option<int> {
        match self {
            BalanceUpdate::Debit { valor, min_saldo, .. } => if saldo >= min_saldo {
                Some(saldo - valor)
            } else {
                None
            },
            BalanceUpdate::Credit { valor, .. } => Some(saldo + valor),
        }
    }
}

/// The row that records a transaction once the balance has been updated.
#[derive(Clone, Debug, PartialEq, Eq)]
pub struct NovaTransacao {
    pub cliente_id: i32,
    pub valor: i32,
    pub tipo: String,
    pub descricao: String,
    pub saldo_rmsc: i32,
    pub realizada_em: String,
}

impl NovaTransacao {
    /// The record holds transaction `t` of client `c`, with `c`'s balance.
    pub open spec fn records(self, t: Transacao, c: Cliente) -> bool {
        &&& self.cliente_id == c.id
        &&& self.valor == t.valor
        &&& self.tipo@ == t.tipo@
        &&& self.descricao@ == t.descricao@
        &&& self.saldo_rmsc == c.saldo
        &&& self.realizada_em@ == t.realizada_em@
    }
}

/// The record of a transaction keeps the submission as it was submitted:
/// the amount, the kind, the description with all its characters whatever
/// its length, and the time; and it carries the client's id and the balance
/// the client holds.
pub proof fn lemma_record_keeps_submission(rec: NovaTransacao, t: Transacao, c: Cliente)
    requires
        rec.records(t, c),
    ensures
        rec.descricao@.len() == t.descricao@.len(),
        forall|k: int| 0 <= k < t.descricao@.len() ==> rec.descricao@[k] == t.descricao@[k],
        rec.tipo@ == t.tipo@,
        rec.valor == t.valor,
        rec.realizada_em@ == t.realizada_em@,
        rec.cliente_id == c.id,
        rec.saldo_rmsc == c.saldo,
{
}

/// What the database answered to the last request of a transaction.
#[derive(Debug)]
pub enum TransactionEvent {
    /// No request was made yet.
    Start,
    /// The balance update returned the new balance, or failed.
    BalanceUpdated(Result<i32, MyError>),
    /// The transaction's record was written, or writing it failed.
    Registered(Result<(), MyError>),
}

/// What to do next in a transaction.
#[derive(Debug)]
pub enum TransactionAction {
    /// Ask the database for this balance update.
    UpdateBalance(BalanceUpdate),
    /// Write this record of the transaction.
    Register(NovaTransacao),
    /// The transaction is over, with this result.
    Finish(Result<(), MyError>),
}

impl Transacao {
    pub fn register_transaction(&self, cliente_info: &Cliente) -> (r: NovaTransacao)
        ensures
            r.records(*self, *cliente_info),
    {
        NovaTransacao {
            cliente_id: cliente_info.id,
            valor: self.valor,
            tipo: self.tipo.clone(),
            descricao: self.descricao.clone(),
            saldo_rmsc: cliente_info.saldo,
            realizada_em: self.realizada_em.clone(),
        }
    }
}

impl Cliente {
    /// The lowest balance from which a debit of `valor` keeps the account at
    /// or above `-limite`.
    pub open spec fn debit_floor(self, valor: i32) -> int {
        valor - self.limite
    }

    /// A debit of `t` can be asked for: its floor fits in an `i32`.
    pub open spec fn can_ask_debit(self, t: Transacao) -> bool {
        i32::MIN <= self.debit_floor(t.valor) <= i32::MAX
    }

    /// The balance update that transaction `t` asks for: a debit guarded by
    /// the floor `valor - limite` when `t` is a debit, a credit otherwise.
    pub open spec fn balance_update_for(self, t: Transacao) -> BalanceUpdate {
        if is_debit(t.tipo@) {
            BalanceUpdate::Debit {
                cliente_id: self.id,
                valor: t.valor,
                min_saldo: self.debit_floor(t.valor) as i32,
            }
        } else {
            BalanceUpdate::Credit { cliente_id: self.id, valor: t.valor }
        }
    }

    /// One step of a transaction on this client: from what the database
    /// answered last, the next request to make or the transaction's result.
    pub fn make_transaction(&mut self, transacao: &Transacao, event: TransactionEvent) -> (action:
        TransactionAction)
        requires
            event is Start && is_debit(transacao.tipo@) ==> old(self).can_ask_debit(*transacao),
        ensures
            match event {
                TransactionEvent::Start => {
                    &&& *final(self) == *old(self)
                    &&& action == TransactionAction::UpdateBalance(
                        old(self).balance_update_for(*transacao),
                    )
                },
                TransactionEvent::BalanceUpdated(Ok(saldo)) => {
                    &&& *final(self) == (Cliente { saldo, ..*old(self) })
                    &&& action matches TransactionAction::Register(rec)
                    &&& rec.records(*transacao, *final(self))
                },
                TransactionEvent::BalanceUpdated(Err(e)) => {
                    &&& *final(self) == *old(self)
                    &&& action == TransactionAction::Finish(Err(e))
                },
                TransactionEvent::Registered(r) => {
                    &&& *final(self) == *old(self)
                    &&& action == TransactionAction::Finish(r)
                },
            },
    {
        match event {
            TransactionEvent::Start => {
                if is_single_char(&transacao.tipo, 'd') {
                    let test = transacao.valor - self.limite;
                    TransactionAction::UpdateBalance(
                        BalanceUpdate::Debit {
                            cliente_id: self.id,
                            valor: transacao.valor,
                            min_saldo: test,
                        },
                    )
                } else {
                    TransactionAction::UpdateBalance(
                        BalanceUpdate::Credit { cliente_id: self.id, valor: transacao.valor },
                    )
                }
            },
            TransactionEvent::BalanceUpdated(Ok(saldo)) => {
                self.saldo = saldo;
                TransactionAction::Register(transacao.register_transaction(self))
            },
            TransactionEvent::BalanceUpdated(Err(e)) => TransactionAction::Finish(Err(e)),
            TransactionEvent::Registered(r) => TransactionAction::Finish(r),
        }
    }
}

/// A debit that passed validation never takes an account below `-limite`, and a
/// valid credit keeps a balance that was at or above `-limite` there: whatever
/// balance the client's row holds, the update that `make_transaction` asks for
/// leaves it at or above `-limite` whenever it applies.
pub proof fn lemma_update_respects_limit(cliente: Cliente, transacao: Transacao, saldo: int)
    requires
        transacao.is_valid(),
        is_debit(transacao.tipo@) ==> cliente.can_ask_debit(transacao),
        is_credit(transacao.tipo@) ==> saldo >= -cliente.limite,
    ensures
        cliente.balance_update_for(transacao).outcome(saldo) matches Some(novo) ==> novo
            >= -cliente.limite,
{
}

/// The update a transaction asks for goes to the row of its client and moves
/// the balance by the transaction's amount: a debit when the kind is "d", a
/// credit otherwise.
pub proof fn lemma_update_targets_client(cliente: Cliente, transacao: Transacao)
    ensures
        is_debit(transacao.tipo@) <==> cliente.balance_update_for(transacao) is Debit,
        match cliente.balance_update_for(transacao) {
            BalanceUpdate::Debit { cliente_id, valor, .. } => cliente_id == cliente.id && valor
                == transacao.valor,
            BalanceUpdate::Credit { cliente_id, valor } => cliente_id == cliente.id && valor
                == transacao.valor,
        },
{
}

/// A debit is refused exactly when it would take the balance below
/// `-limite`, and otherwise takes `valor` off the balance; a credit always
/// adds `valor` to it.
pub proof fn lemma_update_outcome(cliente: Cliente, transacao: Transacao, saldo: int)
    requires
        is_debit(transacao.tipo@) ==> cliente.can_ask_debit(transacao),
    ensures
        is_debit(transacao.tipo@) ==> {
            &&& (cliente.balance_update_for(transacao).outcome(saldo) is None <==> saldo
                - transacao.valor < -cliente.limite)
            &&& (saldo - transacao.valor >= -cliente.limite ==> cliente.balance_update_for(
                transacao,
            ).outcome(saldo) == Some(saldo - transacao.valor))
        },
        !is_debit(transacao.tipo@) ==> cliente.balance_update_for(transacao).outcome(saldo)
            == Some(saldo + transacao.valor),
{
}

impl BalanceUpdate {
    /// The balance that the row holds once the update was sent: the new one
    /// when the update applies, the one it held otherwise.
    pub open spec fn balance_after(self, saldo: int) -> int {
        match self.outcome(saldo) {
            Some(novo) => novo,
            None => saldo,
        }
    }
}

/// A client whose balance is at or above `-limite` stays there after a
/// transaction of positive amount, whether the database applies the update
/// that `make_transaction` asks for or refuses it.
pub proof fn lemma_transaction_keeps_limit(cliente: Cliente, transacao: Transacao, saldo: int)
    requires
        transacao.valor >= 1,
        saldo >= -cliente.limite,
        is_debit(transacao.tipo@) ==> cliente.can_ask_debit(transacao),
    ensures
        cliente.balance_update_for(transacao).balance_after(saldo) >= -cliente.limite,
{
}

/// A credit undoes a debit of the same amount: when the debit that a client
/// asks for applies to the balance `saldo` and leaves `novo`, and the client
/// takes `novo` (as `make_transaction` does on that answer), the credit of the
/// same amount that the client asks for next goes to the same row and brings
/// the balance back to `saldo`.
pub proof fn lemma_debit_then_credit(
    cliente: Cliente,
    debito: Transacao,
    credito: Transacao,
    saldo: int,
    novo: i32,
)
    requires
        is_debit(debito.tipo@),
        is_credit(credito.tipo@),
        debito.valor == credito.valor,
        cliente.can_ask_debit(debito),
        cliente.balance_update_for(debito).outcome(saldo) == Some(novo as int),
    ensures
        ({
            let depois = Cliente { saldo: novo, ..cliente };
            &&& cliente.balance_update_for(debito) matches BalanceUpdate::Debit { cliente_id, .. }
                && cliente_id == cliente.id
            &&& depois.balance_update_for(credito) == BalanceUpdate::Credit {
                cliente_id: cliente.id,
                valor: credito.valor,
            }
            &&& depois.balance_update_for(credito).outcome(novo as int) == Some(saldo)
        }),
{
    assert(credito.tipo@[0] == 'c');
}

/// The balance part of a statement: the current total, when the statement
/// was made, and the client's limit.
#[derive(Clone, Debug, PartialEq, Eq)]
pub struct Saldo {
    pub total: i32,
    pub data_extrato: String,
    pub limite: i32,
}

/// A client's statement: the balance and the latest transactions.
#[derive(Clone, Debug, PartialEq, Eq)]
pub struct Extrato {
    pub saldo: Saldo,
    pub ultimas_transacoes: Vec<Transacao>,
}

/// How many transactions a statement lists at most.
pub const EXTRATO_LIMIT: i64 = 10;

/// A stored transaction: its id (the table's key, distinct from row to row),
/// its client, and the transaction.
#[derive(Clone, Debug, PartialEq, Eq)]
pub struct TransacaoRow {
    pub id: i32,
    pub cliente_id: i32,
    pub transacao: Transacao,
}

/// The query for a client's latest transactions: the rows of `cliente_id`,
/// at most `limit` of them, those of highest id in descending id order when
/// `newest_first` holds (those of lowest id in ascending order otherwise).
#[derive(Clone, Copy, Debug, PartialEq, Eq, Structural)]
pub struct LastTransactionsQuery {
    pub cliente_id: i32,
    pub limit: i64,
    pub newest_first: bool,
}

impl LastTransactionsQuery {
    /// The rows of `table` that belong to the query's client.
    pub open spec fn rows_of_client(self, table: Seq<TransacaoRow>) -> Seq<TransacaoRow> {
        table.filter(|r: TransacaoRow| r.cliente_id == self.cliente_id)
    }

    /// Whether `id` comes before `other` in the query's order.
    pub open spec fn before(self, id: int, other: int) -> bool {
        if self.newest_first {
            id > other
        } else {
            id < other
        }
    }

    /// `answer` is what the query returns on a table holding the rows
    /// `table`: as many of the client's rows as there are, up to `limit`, each
    /// a row of the table, in the query's order, and no row of the client
    /// left out comes before a row kept.
    pub open spec fn answers(self, table: Seq<TransacaoRow>, answer: Seq<TransacaoRow>) -> bool {
        let mine = self.rows_of_client(table);
        &&& answer.len() == (if mine.len() < self.limit {
            mine.len() as int
        } else {
            self.limit as int
        })
        &&& forall|i: int|
            0 <= i < answer.len() ==> #[trigger] mine.contains(answer[i])
        &&& forall|i: int, j: int|
            0 <= i < j < answer.len() ==> self.before(
                #[trigger] answer[i].id as int,
                #[trigger] answer[j].id as int,
            )
        &&& forall|r: TransacaoRow, i: int|
            #![trigger mine.contains(r), answer[i]]
            mine.contains(r) && !answer.contains(r) && 0 <= i < answer.len() ==> self.before(
                answer[i].id as int,
                r.id as int,
            )
    }
}

/// Whether a character is an ASCII digit.
pub open spec fn is_digit(c: char) -> bool {
    '0' <= c <= '9'
}

/// A UTC instant written as `%Y-%m-%dT%H:%M:%S%.6fZ`: a year of at least
/// four characters ending in four digits, then `-MM-DDTHH:MM:SS.ffffffZ`.
pub open spec fn is_utc_timestamp(s: Seq<char>) -> bool {
    let n = s.len() as int;
    &&& n >= 27
    &&& forall|k: int| n - 27 <= k < n - 23 ==> is_digit(#[trigger] s[k])
    &&& s[n - 23] == '-'
    &&& is_digit(s[n - 22]) && is_digit(s[n - 21])
    &&& s[n - 20] == '-'
    &&& is_digit(s[n - 19]) && is_digit(s[n - 18])
    &&& s[n - 17] == 'T'
    &&& is_digit(s[n - 16]) && is_digit(s[n - 15])
    &&& s[n - 14] == ':'
    &&& is_digit(s[n - 13]) && is_digit(s[n - 12])
    &&& s[n - 11] == ':'
    &&& is_digit(s[n - 10]) && is_digit(s[n - 9])
    &&& s[n - 8] == '.'
    &&& forall|k: int| n - 7 <= k < n - 1 ==> is_digit(#[trigger] s[k])
    &&& s[n - 1] == 'Z'
}

/// The current instant, from `chrono::Utc::now`, written with
/// `chrono::DateTime::format` as `%Y-%m-%dT%H:%M:%S%.6fZ`. Which instant it
/// is depends on the clock; the contract claims only the shape that this
/// format gives every instant `Utc::now` returns (years from 1970 on): month,
/// day, hour, minute and second as two digits, six digits of fraction, and a
/// year that ends in four digits (chrono writes at least four, with a sign
/// beyond 9999).
#[verifier::external_body]
fn get_utc() -> (r: String)
    ensures
        is_utc_timestamp(r@),
{
    chrono::Utc::now().format("%Y-%m-%dT%H:%M:%S%.6fZ").to_string()
}

impl Cliente {
    pub fn get_last_transactions(&self) -> (q: LastTransactionsQuery)
        ensures
            q.cliente_id == self.id,
            q.limit == EXTRATO_LIMIT,
            q.newest_first,
    {
        LastTransactionsQuery { cliente_id: self.id, limit: EXTRATO_LIMIT, newest_first: true }
    }

    /// Takes the balance that the database holds for this client.
    pub fn get_saldo(&mut self, saldo_atual: i32) -> (r: i32)
        ensures
            *final(self) == (Cliente { saldo: saldo_atual, ..*old(self) }),
            r == saldo_atual,
    {
        self.saldo = saldo_atual;
        self.saldo
    }
}

impl Extrato {
    /// The statement of a client whose balance is `saldo_atual`, made at
    /// `data_extrato`, listing `transacoes_vec`.
    pub fn build_history_at(
        cliente_info: Cliente,
        transacoes_vec: Vec<Transacao>,
        saldo_atual: i32,
        data_extrato: String,
    ) -> (e: Extrato)
        ensures
            e.saldo.total == saldo_atual,
            e.saldo.data_extrato@ == data_extrato@,
            e.saldo.limite == cliente_info.limite,
            e.ultimas_transacoes@ == transacoes_vec@,
    {
        let mut cliente_info = cliente_info;
        let total = cliente_info.get_saldo(saldo_atual);
        Extrato {
            saldo: Saldo { total, data_extrato, limite: cliente_info.limite },
            ultimas_transacoes: transacoes_vec,
        }
    }

    /// The statement of a client whose balance is `saldo_atual`, made now,
    /// listing `transacoes_vec`.
    pub fn build_history(cliente_info: Cliente, transacoes_vec: Vec<Transacao>, saldo_atual: i32) -> (e:
        Extrato)
        ensures
            e.saldo.total == saldo_atual,
            is_utc_timestamp(e.saldo.data_extrato@),
            e.saldo.limite == cliente_info.limite,
            e.ultimas_transacoes@ == transacoes_vec@,
    {
        let data_extrato = get_utc();
        Extrato::build_history_at(cliente_info, transacoes_vec, saldo_atual, data_extrato)
    }
}

} // verus!
