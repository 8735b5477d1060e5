use vstd::prelude::*;
use vstd::string::*;

use crate::models::{Cliente, Transacao};

verus! {

/// Whether `text` begins with `pattern`.
pub open spec fn starts_with(text: Seq<char>, pattern: Seq<char>) -> bool {
    pattern.len() <= text.len() && text.subrange(0, pattern.len() as int) == pattern
}

/// `text` with every occurrence of `pattern`, found from left to right
/// without overlap, replaced by `with`.
pub open spec fn replace_all(text: Seq<char>, pattern: Seq<char>, with: Seq<char>) -> Seq<char>
    decreases text.len(),
{
    if text.len() == 0 || pattern.len() == 0 {
        text
    } else if starts_with(text, pattern) {
        with + replace_all(text.skip(pattern.len() as int), pattern, with)
    } else {
        seq![text[0]] + replace_all(text.drop_first(), pattern, with)
    }
}

/// Whether `pattern` (of `m` characters) occurs in `text` (of `n`) at `i`.
fn occurs_at(text: &str, n: usize, i: usize, pattern: &str, m: usize) -> (r: bool)
    requires
        n == text@.len(),
        m == pattern@.len(),
        i <= n,
    ensures
        r == starts_with(text@.skip(i as int), pattern@),
{
    if m > n - i {
        return false;
    }
    let mut k: usize = 0;
    while k < m
        invariant
            n == text@.len(),
            m == pattern@.len(),
            i + m <= n,
            k <= m,
            forall|j: int| 0 <= j < k ==> text@[i + j] == pattern@[j],
        decreases m - k,
    {
        if text.get_char(i + k) != pattern.get_char(k) {
            assert(text@.skip(i as int).subrange(0, m as int)[k as int] != pattern@[k as int]);
            return false;
        }
        k = k + 1;
    }
    assert(text@.skip(i as int).subrange(0, m as int) =~= pattern@);
    true
}

/// Replaces every occurrence of `pattern` in `text` by `with`, from left to
/// right.
pub fn replace_all_text(text: &str, pattern: &str, with: &str) -> (r: String)
    requires
        pattern@.len() > 0,
    ensures
        r@ == replace_all(text@, pattern@, with@),
{
    let n = text.unicode_len();
    let m = pattern.unicode_len();
    let mut out = String::new();
    let mut i: usize = 0;
    assert(text@.skip(0) =~= text@);
    while i < n
        invariant
            n == text@.len(),
            m == pattern@.len(),
            m > 0,
            i <= n,
            replace_all(text@, pattern@, with@) == out@ + replace_all(
                text@.skip(i as int),
                pattern@,
                with@,
            ),
        decreases n - i,
    {
        let ghost rest = text@.skip(i as int);
        let ghost before = out@;
        if occurs_at(text, n, i, pattern, m) {
            out.append(with);
            assert(rest.skip(m as int) =~= text@.skip(i + m));
            let ghost tail = replace_all(text@.skip(i + m), pattern@, with@);
            assert(before + (with@ + tail) =~= out@ + tail);
            i = i + m;
        } else {
            let c = text.substring_char(i, i + 1);
            out.append(c);
            assert(c@ =~= seq![rest[0]]);
            assert(rest.drop_first() =~= text@.skip(i + 1));
            let ghost tail = replace_all(text@.skip(i + 1), pattern@, with@);
            assert(before + (seq![rest[0]] + tail) =~= out@ + tail);
            i = i + 1;
        }
    }
    assert(text@.skip(n as int) =~= Seq::<char>::empty());
    out
}

/// The text that stands for the list of selected fields in a statement.
pub open spec fn table_fields_marker() -> Seq<char> {
    "$table_fields"@
}

/// Puts the list of fields `fields` in place of `$table_fields` in the
/// statement `stmt`.
pub fn fill_table_fields(stmt: &str, fields: &str) -> (r: String)
    ensures
        r@ == replace_all(stmt@, table_fields_marker(), fields@),
{
    let marker = "$table_fields";
    proof {
        reveal_strlit("$table_fields");
    }
    replace_all_text(stmt, marker, fields)
}

/// Text in which no character starts the pattern passes through the
/// replacement unchanged, ahead of whatever follows it.
pub proof fn lemma_replace_keeps_plain_text(
    plain: Seq<char>,
    rest: Seq<char>,
    pattern: Seq<char>,
    with: Seq<char>,
)
    requires
        pattern.len() > 0,
        forall|k: int| 0 <= k < plain.len() ==> plain[k] != pattern[0],
    ensures
        replace_all(plain + rest, pattern, with) == plain + replace_all(rest, pattern, with),
    decreases plain.len(),
{
    let t = plain + rest;
    if plain.len() == 0 {
        assert(t =~= rest);
    } else {
        assert(t[0] == plain[0]);
        if starts_with(t, pattern) {
            assert(t.subrange(0, pattern.len() as int)[0] == t[0]);
        }
        assert(t.drop_first() =~= plain.drop_first() + rest);
        lemma_replace_keeps_plain_text(plain.drop_first(), rest, pattern, with);
        assert(seq![plain[0]] + (plain.drop_first() + replace_all(rest, pattern, with)) =~= plain
            + replace_all(rest, pattern, with));
    }
}

/// An occurrence of the pattern at the front is replaced by `with`, and the
/// replacement goes on after it.
pub proof fn lemma_replace_front(pattern: Seq<char>, rest: Seq<char>, with: Seq<char>)
    requires
        pattern.len() > 0,
    ensures
        replace_all(pattern + rest, pattern, with) == with + replace_all(rest, pattern, with),
{
    let t = pattern + rest;
    assert(t.subrange(0, pattern.len() as int) =~= pattern);
    assert(t.skip(pattern.len() as int) =~= rest);
}

/// Filling a statement that holds the marker once, between two texts without
/// `$`, puts the fields between those two texts, both kept as they are.
pub proof fn lemma_fill_between(before: Seq<char>, after: Seq<char>, fields: Seq<char>)
    requires
        forall|k: int| 0 <= k < before.len() ==> before[k] != '$',
        forall|k: int| 0 <= k < after.len() ==> after[k] != '$',
    ensures
        replace_all(before + table_fields_marker() + after, table_fields_marker(), fields)
            == before + fields + after,
{
    reveal_strlit("$table_fields");
    let m = table_fields_marker();
    assert(m[0] == '$');
    assert(before + m + after =~= before + (m + after));
    lemma_replace_keeps_plain_text(before, m + after, m, fields);
    lemma_replace_front(m, after, fields);
    lemma_replace_keeps_plain_text(after, Seq::empty(), m, fields);
    assert(after + Seq::<char>::empty() =~= after);
    assert(replace_all(Seq::<char>::empty(), m, fields) =~= Seq::<char>::empty());
    assert(before + (fields + after) =~= before + fields + after);
}

impl Transacao {
    /// The columns of a transaction, as a statement selects them.
    pub fn sql_table_fields() -> (r: String)
        ensures
            r@ == "transacoes.valor, transacoes.tipo, transacoes.descricao, transacoes.saldo_rmsc, transacoes.realizada_em"@,
    {
        String::from_str(
            "transacoes.valor, transacoes.tipo, transacoes.descricao, transacoes.saldo_rmsc, transacoes.realizada_em",
        )
    }
}

impl Cliente {
    /// The columns of a client, as a statement selects them.
    pub fn sql_fields() -> (r: String)
        ensures
            r@ == "id, limite, saldo"@,
    {
        String::from_str("id, limite, saldo")
    }
}

} // verus!
