use vstd::prelude::*;

use crate::errors::MyError;

verus! {

/// The balance that a debit statement returned, from the rows it returned:
/// the last row's balance; no row, or a row without a balance (the debit was
/// refused), is `Unprocessable`.
pub open spec fn debit_result(rows: Seq<Option<i32>>) -> Result<i32, MyError> {
    if rows.len() == 0 {
        Err(MyError::Unprocessable)
    } else {
        match rows.last() {
            Some(saldo) => Ok(saldo),
            None => Err(MyError::Unprocessable),
        }
    }
}

/// The balance that a credit statement returned, from the rows it returned:
/// the last row's balance; no row is `Unprocessable`.
pub open spec fn credit_result(rows: Seq<i32>) -> Result<i32, MyError> {
    if rows.len() == 0 {
        Err(MyError::Unprocessable)
    } else {
        Ok(rows.last())
    }
}

/// Reads the new balance out of the rows returned by the debit statement.
pub fn make_transaction_d(rows: Vec<Option<i32>>) -> (r: Result<i32, MyError>)
    ensures
        r == debit_result(rows@),
{
    let mut rows = rows;
    let result = match rows.pop() {
        Some(row) => row,
        None => return Err(MyError::Unprocessable),
    };
    match result {
        Some(saldo) => Ok(saldo),
        None => Err(MyError::Unprocessable),
    }
}

/// Reads the new balance out of the rows returned by the credit statement.
pub fn make_transaction_c(rows: Vec<i32>) -> (r: Result<i32, MyError>)
    ensures
        r == credit_result(rows@),
{
    let mut rows = rows;
    match rows.pop() {
        Some(saldo) => Ok(saldo),
        None => Err(MyError::Unprocessable),
    }
}

/// The debit statement's answer is its last row: when that row holds a
/// balance `b`, whatever `b` is, the debit went through and left `b`; when it
/// holds no balance, or there is no row, the debit was refused.
pub proof fn lemma_debit_reads_last_row(rows: Seq<Option<i32>>, b: i32)
    ensures
        debit_result(rows.push(Some(b))) == Ok::<i32, MyError>(b),
        debit_result(rows.push(None)) == Err::<i32, MyError>(MyError::Unprocessable),
        debit_result(Seq::empty()) == Err::<i32, MyError>(MyError::Unprocessable),
{
}

/// The credit statement's answer is its last row: whatever balance `b`
/// that row holds, negative or not, the credit went through and left `b`;
/// no row means the credit was refused.
pub proof fn lemma_credit_reads_last_row(rows: Seq<i32>, b: i32)
    ensures
        credit_result(rows.push(b)) == Ok::<i32, MyError>(b),
        credit_result(Seq::empty()) == Err::<i32, MyError>(MyError::Unprocessable),
{
}

} // verus!
