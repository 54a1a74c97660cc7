//! The text of the upsert statement that merges one report into a metrics
//! table: the row is keyed by its factors, and two HyperLogLog columns count
//! distinct users by machine and by IP.

use vstd::prelude::*;

verus! {

/// `items` with `sep` between each two of them.
pub open spec fn joined(items: Seq<Seq<char>>, sep: Seq<char>) -> Seq<char>
    decreases items.len(),
{
    if items.len() == 0 {
        Seq::empty()
    } else if items.len() == 1 {
        items[0]
    } else {
        joined(items.drop_last(), sep) + sep + items.last()
    }
}

pub open spec fn string_views(items: Seq<String>) -> Seq<Seq<char>> {
    items.map_values(|s: String| s@)
}

pub open spec fn digit_char(d: nat) -> char {
    if d == 0 { '0' }
    else if d == 1 { '1' }
    else if d == 2 { '2' }
    else if d == 3 { '3' }
    else if d == 4 { '4' }
    else if d == 5 { '5' }
    else if d == 6 { '6' }
    else if d == 7 { '7' }
    else if d == 8 { '8' }
    else { '9' }
}

/// The decimal digits of `n`, without leading zeros.
pub open spec fn decimal(n: nat) -> Seq<char>
    decreases n,
{
    if n < 10 {
        seq![digit_char(n)]
    } else {
        decimal(n / 10).push(digit_char(n % 10))
    }
}

/// The placeholder of the `i`th statement parameter, `$i`.
pub open spec fn placeholder(i: nat) -> Seq<char> {
    "$"@ + decimal(i)
}

/// The placeholders `$1` to `$n`.
pub open spec fn placeholders(n: nat) -> Seq<Seq<char>> {
    Seq::new(n, |i: int| placeholder((i + 1) as nat))
}

/// The columns that a statement fills: the factors, then the two sketches.
pub open spec fn columns(factors: Seq<Seq<char>>) -> Seq<Seq<char>> {
    factors + seq!["users_by_id"@, "users_by_ip"@]
}

/// The statement that inserts a row of `table` keyed by `factors` (parameters
/// `$1` to `$n`), or merges the user id (`$n+1`) and the user IP (`$n+2`) into
/// the sketches of the row that has those factors already.
pub open spec fn query_text(table: Seq<char>, factors: Seq<Seq<char>>) -> Seq<char> {
    let id = placeholder((factors.len() + 1) as nat);
    let ip = placeholder((factors.len() + 2) as nat);
    "\nINSERT INTO "@ + table + " as t("@ + joined(columns(factors), ","@) + ") VALUES\n("@
        + joined(placeholders(factors.len()), ","@) + ", hll_empty() || hll_hash_text("@ + id
        + "), hll_empty() || hll_hash_text("@ + ip + "))\nON CONFLICT ON CONSTRAINT "@ + table
        + "_upsert_constraint DO UPDATE SET\n(users_by_id, users_by_ip) = (\n    t.users_by_id || hll_hash_text("@
        + id + "),\n    t.users_by_ip || hll_hash_text("@ + ip + ")\n)"@
}

/// Relies on itertools::join: the items' text with `","` between each two.
#[verifier::external_body]
fn join_commas(items: &Vec<String>) -> (r: String)
    ensures
        r@ == joined(string_views(items@), ","@),
{
    itertools::join(items, ",")
}

fn digit_str(d: u64) -> (r: &'static str)
    requires
        d < 10,
    ensures
        r@ == seq![digit_char(d as nat)],
{
    proof {
        reveal_strlit("0");
        reveal_strlit("1");
        reveal_strlit("2");
        reveal_strlit("3");
        reveal_strlit("4");
        reveal_strlit("5");
        reveal_strlit("6");
        reveal_strlit("7");
        reveal_strlit("8");
        reveal_strlit("9");
    }
    let r = if d == 0 { "0" }
    else if d == 1 { "1" }
    else if d == 2 { "2" }
    else if d == 3 { "3" }
    else if d == 4 { "4" }
    else if d == 5 { "5" }
    else if d == 6 { "6" }
    else if d == 7 { "7" }
    else if d == 8 { "8" }
    else { "9" };
    assert(r@ =~= seq![digit_char(d as nat)]);
    r
}

/// Append the decimal digits of `n` to `out`.
fn push_decimal(out: &mut String, n: u64)
    ensures
        final(out)@ == old(out)@ + decimal(n as nat),
    decreases n,
{
    if n < 10 {
        out.append(digit_str(n));
    } else {
        push_decimal(out, n / 10);
        out.append(digit_str(n % 10));
        assert(decimal(n as nat) =~= decimal((n / 10) as nat) + seq![digit_char((n % 10) as nat)]);
    }
}

fn placeholder_string(i: u64) -> (r: String)
    ensures
        r@ == placeholder(i as nat),
{
    let mut s = String::from_str("$");
    push_decimal(&mut s, i);
    s
}

/// Build the upsert statement of `table` over `factors`.
pub fn build_query_string(table: &str, factors: &[&str]) -> (r: String)
    requires
        factors@.len() + 2 <= u64::MAX,
    ensures
        r@ == query_text(table@, factors@.map_values(|f: &str| f@)),
{
    let ghost fviews = factors@.map_values(|f: &str| f@);
    let mut cols: Vec<String> = Vec::new();
    let mut params: Vec<String> = Vec::new();
    let mut i: usize = 0;
    while i < factors.len()
        invariant
            i <= factors@.len(),
            factors@.len() + 2 <= u64::MAX,
            fviews == factors@.map_values(|f: &str| f@),
            cols@.len() == i,
            params@.len() == i,
            forall|j: int| 0 <= j < i ==> cols@[j]@ == factors@[j]@,
            forall|j: int| 0 <= j < i ==> params@[j]@ == placeholder((j + 1) as nat),
        decreases factors@.len() - i,
    {
        cols.push(String::from_str(factors[i]));
        params.push(placeholder_string((i + 1) as u64));
        i = i + 1;
    }
    cols.push(String::from_str("users_by_id"));
    cols.push(String::from_str("users_by_ip"));
    assert(string_views(cols@) =~= columns(fviews)) by {
        assert forall|j: int| 0 <= j < cols@.len() implies string_views(cols@)[j] == columns(
            fviews,
        )[j] by {
            if j >= factors@.len() {
                assert(columns(fviews)[j] == seq!["users_by_id"@, "users_by_ip"@][j
                    - factors@.len()]);
            }
        }
    }
    assert(string_views(params@) =~= placeholders(factors@.len() as nat));
    let n = factors.len() as u64;
    let all_cols = join_commas(&cols);
    let factor_params = join_commas(&params);
    let id = placeholder_string(n + 1);
    let ip = placeholder_string(n + 2);
    let mut q = String::from_str("\nINSERT INTO ");
    q.append(table);
    q.append(" as t(");
    q.append(all_cols.as_str());
    q.append(") VALUES\n(");
    q.append(factor_params.as_str());
    q.append(", hll_empty() || hll_hash_text(");
    q.append(id.as_str());
    q.append("), hll_empty() || hll_hash_text(");
    q.append(ip.as_str());
    q.append("))\nON CONFLICT ON CONSTRAINT ");
    q.append(table);
    q.append("_upsert_constraint DO UPDATE SET\n(users_by_id, users_by_ip) = (\n    t.users_by_id || hll_hash_text(");
    q.append(id.as_str());
    q.append("),\n    t.users_by_ip || hll_hash_text(");
    q.append(ip.as_str());
    q.append(")\n)");
    q
}

} // verus!
