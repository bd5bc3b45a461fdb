//! Wallet balances: which balances a query asks for, how the balances
//! that came back are gathered, and how they are shown.
//!
//! Conditional token balances are kept as a list of (token ID, balance)
//! pairs in which no token ID occurs twice: a map from token ID to balance.
//! Fetching the balances is left to the caller, which hands back what each
//! request gave.

use vstd::prelude::*;

use crate::actions::account::{credentials_message, require_credentials, CredentialedAction};
use crate::client::ClobClient;
use crate::error::{PolymarketError, PolymarketErrorCode};
use crate::text::{
    cuts_at_boundary, dec, join, join_strings, push_decimal, shorten, shorten_id, str_eq, utf8_len,
    views,
};
use crate::types::BalanceAllowance;

verus! {

// ===========================================================================
// Queries
// ===========================================================================

/// Configuration for a balance query.
#[derive(Debug, Clone)]
pub struct BalanceQueryParams {
    /// Specific token IDs to query conditional balances for.
    pub token_ids: Option<Vec<String>>,
    /// Whether to include the collateral (USDC) balance.
    pub include_collateral: bool,
    /// Whether to include conditional token balances.
    pub include_conditional: bool,
    /// The largest number of token balances to fetch (0: no limit).
    pub max_tokens: usize,
}

impl Default for BalanceQueryParams {
    fn default() -> (p: Self)
        ensures
            p.token_ids is None,
            !p.include_collateral,
            !p.include_conditional,
            p.max_tokens == 0,
    {
        BalanceQueryParams {
            token_ids: None,
            include_collateral: false,
            include_conditional: false,
            max_tokens: 0,
        }
    }
}

impl BalanceQueryParams {
    /// A query for every balance, of at most 25 tokens.
    pub fn all() -> (p: Self)
        ensures
            p.token_ids is None,
            p.include_collateral,
            p.include_conditional,
            p.max_tokens == 25,
    {
        BalanceQueryParams {
            token_ids: None,
            include_collateral: true,
            include_conditional: true,
            max_tokens: 25,
        }
    }

    /// A query for the collateral balance alone.
    pub fn collateral_only() -> (p: Self)
        ensures
            p.token_ids is None,
            p.include_collateral,
            !p.include_conditional,
            p.max_tokens == 0,
    {
        BalanceQueryParams {
            token_ids: None,
            include_collateral: true,
            include_conditional: false,
            max_tokens: 0,
        }
    }
}

/// The token IDs whose balances a query fetches: those it names, the first
/// `max_tokens` of them when `max_tokens` is not 0.
pub open spec fn queried_tokens(p: BalanceQueryParams) -> Seq<Seq<char>> {
    if !p.include_conditional {
        seq![]
    } else {
        match p.token_ids {
            None => seq![],
            Some(ids) => if p.max_tokens > 0 && p.max_tokens < ids@.len() {
                views(ids@).take(p.max_tokens as int)
            } else {
                views(ids@)
            },
        }
    }
}

/// A wallet balance query fetches the tokens it names, in order: all of
/// them when `max_tokens` is 0, else the first `max_tokens` of them (all
/// when there are no more); it fetches none unless it asks for
/// conditional balances.
pub proof fn law_balance_query_respects_token_limit(p: BalanceQueryParams)
    ensures
        p.max_tokens > 0 ==> queried_tokens(p).len() <= p.max_tokens,
        !p.include_conditional ==> queried_tokens(p).len() == 0,
        p.include_conditional ==> match p.token_ids {
            Some(ids) => views(ids@).take(queried_tokens(p).len() as int) == queried_tokens(p),
            None => queried_tokens(p).len() == 0,
        },
        p.include_conditional ==> match p.token_ids {
            Some(ids) => {
                &&& p.max_tokens == 0 ==> queried_tokens(p).len() == ids@.len()
                &&& p.max_tokens > 0 && ids@.len() <= p.max_tokens ==> queried_tokens(p).len() == ids@.len()
                &&& p.max_tokens > 0 && ids@.len() > p.max_tokens ==> queried_tokens(p).len() == p.max_tokens
            },
            None => true,
        },
{
    if p.include_conditional {
        if let Some(ids) = p.token_ids {
            let q = queried_tokens(p);
            assert(views(ids@).take(q.len() as int) =~= q);
        }
    }
}

/// What a wallet balance query is refused with, if it is: asking for
/// nothing, or asking without API credentials.
pub open spec fn balance_query_error(p: BalanceQueryParams, authenticated: bool) -> Option<
    (PolymarketErrorCode, Seq<char>),
> {
    if !p.include_collateral && !p.include_conditional {
        Some(
            (
                PolymarketErrorCode::InvalidOrder,
                "At least one of include_collateral or include_conditional must be true"@,
            ),
        )
    } else if !authenticated {
        Some((PolymarketErrorCode::AuthError, credentials_message(CredentialedAction::BalanceQuery)))
    } else {
        None
    }
}

fn copy_prefix(ids: &Vec<String>, n: usize) -> (r: Vec<String>)
    requires
        n <= ids@.len(),
    ensures
        views(r@) == views(ids@).take(n as int),
{
    let mut r: Vec<String> = Vec::new();
    let mut i: usize = 0;
    while i < n
        invariant
            n <= ids@.len(),
            i <= n,
            r@.len() == i,
            forall|j: int| 0 <= j < i ==> #[trigger] r@[j]@ == ids@[j]@,
        decreases n - i,
    {
        r.push(ids[i].clone());
        i = i + 1;
    }
    assert(views(r@) =~= views(ids@).take(n as int));
    r
}

/// Decides what a wallet balance query fetches: refuses a query that asks
/// for nothing, then one made without API credentials; otherwise gives the
/// token IDs whose conditional balances are to be fetched.
pub fn plan_wallet_balances(client: &ClobClient, params: &BalanceQueryParams) -> (r: Result<
    Vec<String>,
    PolymarketError,
>)
    ensures
        r is Err <==> balance_query_error(*params, client.authenticated()) is Some,
        r matches Err(e) ==> balance_query_error(*params, client.authenticated()) == Some(
            (e.code, e.message@),
        ) && e.cause is None,
        r matches Ok(ids) ==> views(ids@) == queried_tokens(*params),
{
    if !params.include_collateral && !params.include_conditional {
        return Err(
            PolymarketError::invalid_order(
                "At least one of include_collateral or include_conditional must be true",
            ),
        );
    }
    require_credentials(client, CredentialedAction::BalanceQuery)?;
    if !params.include_conditional {
        return Ok(Vec::new());
    }
    match &params.token_ids {
        None => Ok(Vec::new()),
        Some(ids) => {
            let n = if params.max_tokens > 0 && params.max_tokens < ids.len() {
                params.max_tokens
            } else {
                ids.len()
            };
            let r = copy_prefix(ids, n);
            assert(views(ids@).take(ids@.len() as int) =~= views(ids@));
            Ok(r)
        },
    }
}

// ===========================================================================
// Balances keyed by token ID
// ===========================================================================

/// A balance and its allowance as values.
pub open spec fn allowance_view(b: BalanceAllowance) -> (Seq<char>, Seq<char>) {
    (b.balance@, b.allowance@)
}

/// No token ID occurs twice.
pub open spec fn tokens_unique(v: Seq<(String, BalanceAllowance)>) -> bool {
    forall|i: int, j: int| 0 <= i < v.len() && 0 <= j < v.len() && i != j ==> v[i].0@ != v[j].0@
}

/// The balances keyed by token ID.
pub open spec fn balance_map(v: Seq<(String, BalanceAllowance)>) -> Map<Seq<char>, (Seq<char>, Seq<char>)>
    decreases v.len(),
{
    if v.len() == 0 {
        Map::empty()
    } else {
        balance_map(v.drop_last()).insert(v.last().0@, allowance_view(v.last().1))
    }
}

/// The balances that came back, keyed by token ID: a request that failed
/// adds nothing, and a later answer for a token replaces an earlier one.
pub open spec fn fetched_map(f: Seq<(String, Option<BalanceAllowance>)>) -> Map<
    Seq<char>,
    (Seq<char>, Seq<char>),
>
    decreases f.len(),
{
    if f.len() == 0 {
        Map::empty()
    } else {
        let m = fetched_map(f.drop_last());
        match f.last().1 {
            Some(b) => m.insert(f.last().0@, allowance_view(b)),
            None => m,
        }
    }
}

proof fn lemma_balance_map_dom(v: Seq<(String, BalanceAllowance)>, k: Seq<char>)
    ensures
        balance_map(v).dom().contains(k) <==> exists|i: int| 0 <= i < v.len() && #[trigger] v[i].0@ == k,
    decreases v.len(),
{
    if v.len() > 0 {
        let w = v.drop_last();
        lemma_balance_map_dom(w, k);
        if balance_map(v).dom().contains(k) {
            if k == v.last().0@ {
                assert(v[v.len() - 1].0@ == k);
            } else {
                let i = choose|i: int| 0 <= i < w.len() && #[trigger] w[i].0@ == k;
                assert(v[i].0@ == k);
            }
        }
        if exists|i: int| 0 <= i < v.len() && #[trigger] v[i].0@ == k {
            let i = choose|i: int| 0 <= i < v.len() && #[trigger] v[i].0@ == k;
            if i < v.len() - 1 {
                assert(w[i].0@ == k);
            }
        }
    }
}

proof fn lemma_balance_map_update(v: Seq<(String, BalanceAllowance)>, i: int, e: (String, BalanceAllowance))
    requires
        tokens_unique(v),
        0 <= i < v.len(),
        v[i].0@ == e.0@,
    ensures
        tokens_unique(v.update(i, e)),
        balance_map(v.update(i, e)) == balance_map(v).insert(e.0@, allowance_view(e.1)),
    decreases v.len(),
{
    let u = v.update(i, e);
    assert forall|a: int, b: int| 0 <= a < u.len() && 0 <= b < u.len() && a != b implies u[a].0@ != u[b].0@ by {
        if a != i && b != i {
            assert(u[a] == v[a] && u[b] == v[b]);
        } else if a == i {
            assert(u[b] == v[b]);
            assert(v[a].0@ != v[b].0@);
        } else {
            assert(u[a] == v[a]);
            assert(v[a].0@ != v[b].0@);
        }
    }
    let w = v.drop_last();
    if i == v.len() - 1 {
        assert(u.drop_last() =~= w);
        assert(balance_map(u) =~= balance_map(v).insert(e.0@, allowance_view(e.1)));
    } else {
        assert(u.drop_last() =~= w.update(i, e));
        assert(tokens_unique(w));
        lemma_balance_map_update(w, i, e);
        assert(v.last().0@ != v[i].0@);
        assert(balance_map(u) =~= balance_map(v).insert(e.0@, allowance_view(e.1)));
    }
}

proof fn lemma_balance_map_len(v: Seq<(String, BalanceAllowance)>)
    requires
        tokens_unique(v),
    ensures
        balance_map(v).dom().finite(),
        balance_map(v).dom().len() == v.len(),
    decreases v.len(),
{
    if v.len() > 0 {
        let w = v.drop_last();
        assert(tokens_unique(w));
        lemma_balance_map_len(w);
        lemma_balance_map_dom(w, v.last().0@);
        if balance_map(w).dom().contains(v.last().0@) {
            let i = choose|i: int| 0 <= i < w.len() && #[trigger] w[i].0@ == v.last().0@;
            assert(v[i].0@ != v[v.len() - 1].0@);
        }
        assert(balance_map(v).dom() =~= balance_map(w).dom().insert(v.last().0@));
    }
}

fn copy_balance(b: &BalanceAllowance) -> (c: BalanceAllowance)
    ensures
        allowance_view(c) == allowance_view(*b),
{
    BalanceAllowance { balance: b.balance.clone(), allowance: b.allowance.clone() }
}

/// Records the balance `b` of the token `id`, replacing the one it had.
pub fn insert_balance(v: &mut Vec<(String, BalanceAllowance)>, id: String, b: BalanceAllowance)
    requires
        tokens_unique(old(v)@),
    ensures
        tokens_unique(final(v)@),
        balance_map(final(v)@) == balance_map(old(v)@).insert(id@, allowance_view(b)),
{
    let n = v.len();
    let mut i: usize = 0;
    while i < n
        invariant
            n == v@.len(),
            v@ == old(v)@,
            tokens_unique(old(v)@),
            i <= n,
            forall|j: int| 0 <= j < i ==> (#[trigger] v@[j]).0@ != id@,
        decreases n - i,
    {
        if str_eq(v[i].0.as_str(), id.as_str()) {
            proof {
                lemma_balance_map_update(v@, i as int, (id, b));
            }
            v.set(i, (id, b));
            return;
        }
        i = i + 1;
    }
    let ghost old_v = v@;
    v.push((id, b));
    proof {
        assert(v@.drop_last() =~= old_v);
        assert forall|a: int, c: int| 0 <= a < v@.len() && 0 <= c < v@.len() && a != c implies v@[a].0@
            != v@[c].0@ by {
            if a < n && c < n {
                assert(v@[a] == old_v[a] && v@[c] == old_v[c]);
            } else if a == n {
                assert(v@[c] == old_v[c]);
            } else {
                assert(v@[a] == old_v[a]);
            }
        }
    }
}

/// Gathers the balances that came back, in the order the requests were
/// made: `fetched` pairs each token ID with its balance, or with nothing
/// when its request failed. Each token ID occurs once in the result.
pub fn gather_balances(fetched: &Vec<(String, Option<BalanceAllowance>)>) -> (v: Vec<
    (String, BalanceAllowance),
>)
    ensures
        tokens_unique(v@),
        balance_map(v@) == fetched_map(fetched@),
        v@.len() == fetched_map(fetched@).dom().len(),
{
    let mut v: Vec<(String, BalanceAllowance)> = Vec::new();
    let n = fetched.len();
    let mut i: usize = 0;
    while i < n
        invariant
            n == fetched@.len(),
            i <= n,
            tokens_unique(v@),
            balance_map(v@) == fetched_map(fetched@.take(i as int)),
        decreases n - i,
    {
        assert(fetched@.take(i + 1).drop_last() =~= fetched@.take(i as int));
        assert(fetched@.take(i + 1).last() == fetched@[i as int]);
        match &fetched[i].1 {
            Some(b) => {
                insert_balance(&mut v, fetched[i].0.clone(), copy_balance(b));
            },
            None => {},
        }
        i = i + 1;
    }
    assert(fetched@.take(n as int) =~= fetched@);
    proof {
        lemma_balance_map_len(v@);
    }
    v
}

// ===========================================================================
// Results
// ===========================================================================

/// Result of a balance query.
#[derive(Debug, Clone)]
pub struct BalanceResult {
    /// Collateral (USDC) balance and allowance.
    pub collateral: Option<BalanceAllowance>,
    /// Conditional token balances, each token ID once.
    pub token_balances: Vec<(String, BalanceAllowance)>,
    /// Number of token balances returned.
    pub token_count: usize,
}

/// An optional balance as values.
pub open spec fn opt_allowance(o: Option<BalanceAllowance>) -> Option<(Seq<char>, Seq<char>)> {
    match o {
        Some(b) => Some(allowance_view(b)),
        None => None,
    }
}

fn copy_opt_balance(o: &Option<BalanceAllowance>) -> (c: Option<BalanceAllowance>)
    ensures
        opt_allowance(c) == opt_allowance(*o),
{
    match o {
        Some(b) => Some(copy_balance(b)),
        None => None,
    }
}

/// What a balance request answered: the balance, or the error it failed with.
pub type BalanceAnswer = Result<BalanceAllowance, PolymarketError>;

/// Whether two errors carry the same code, message and cause.
pub open spec fn same_error(a: PolymarketError, b: PolymarketError) -> bool {
    &&& a.code == b.code
    &&& a.message@ == b.message@
    &&& match (a.cause, b.cause) {
        (Some(x), Some(y)) => x@ == y@,
        (None, None) => true,
        _ => false,
    }
}

/// Whether some token balance request failed.
pub open spec fn fetch_failed(f: Seq<(String, BalanceAnswer)>) -> bool {
    exists|i: int| 0 <= i < f.len() && (#[trigger] f[i]).1 is Err
}

/// Whether the request at `i` is the first that failed.
pub open spec fn first_failure_at(f: Seq<(String, BalanceAnswer)>, i: int) -> bool {
    &&& 0 <= i < f.len()
    &&& f[i].1 is Err
    &&& forall|j: int| 0 <= j < i ==> (#[trigger] f[j]).1 is Ok
}

/// The balances that were answered, keyed by token ID: a later answer for
/// a token replaces an earlier one.
pub open spec fn answered_map(f: Seq<(String, BalanceAnswer)>) -> Map<Seq<char>, (Seq<char>, Seq<char>)>
    decreases f.len(),
{
    if f.len() == 0 {
        Map::empty()
    } else {
        let m = answered_map(f.drop_last());
        match f.last().1 {
            Ok(b) => m.insert(f.last().0@, allowance_view(b)),
            Err(_) => m,
        }
    }
}

fn copy_error(e: &PolymarketError) -> (c: PolymarketError)
    ensures
        same_error(c, *e),
{
    let cause = match &e.cause {
        Some(x) => Some(x.clone()),
        None => None,
    };
    PolymarketError { code: e.code, message: e.message.clone(), cause }
}

fn gather_answers(fetched: &Vec<(String, BalanceAnswer)>) -> (v: Vec<(String, BalanceAllowance)>)
    ensures
        tokens_unique(v@),
        balance_map(v@) == answered_map(fetched@),
        v@.len() == answered_map(fetched@).dom().len(),
{
    let mut v: Vec<(String, BalanceAllowance)> = Vec::new();
    let n = fetched.len();
    let mut i: usize = 0;
    while i < n
        invariant
            n == fetched@.len(),
            i <= n,
            tokens_unique(v@),
            balance_map(v@) == answered_map(fetched@.take(i as int)),
        decreases n - i,
    {
        assert(fetched@.take(i + 1).drop_last() =~= fetched@.take(i as int));
        assert(fetched@.take(i + 1).last() == fetched@[i as int]);
        match &fetched[i].1 {
            Ok(b) => {
                insert_balance(&mut v, fetched[i].0.clone(), copy_balance(b));
            },
            Err(_) => {},
        }
        i = i + 1;
    }
    assert(fetched@.take(n as int) =~= fetched@);
    proof {
        lemma_balance_map_len(v@);
    }
    v
}

/// Assembles the result of a wallet balance query from what its requests
/// answered: the collateral balance (when it was asked for) and each
/// token balance, in the order they were requested. A request that failed
/// fails the query with its error, the collateral's first, else the first
/// token's; otherwise the token balances count only when the query asked
/// for them.
pub fn collect_wallet_balances(
    params: &BalanceQueryParams,
    collateral: &Option<BalanceAnswer>,
    fetched: &Vec<(String, BalanceAnswer)>,
) -> (r: Result<BalanceResult, PolymarketError>)
    ensures
        r is Err <==> (*collateral matches Some(Err(_)) || fetch_failed(fetched@)),
        r matches Err(e) ==> match *collateral {
            Some(Err(ce)) => same_error(e, ce),
            _ => exists|i: int|
                #[trigger] first_failure_at(fetched@, i) && (fetched@[i].1 matches Err(fe) && same_error(
                    e,
                    fe,
                )),
        },
        r matches Ok(res) ==> {
            &&& opt_allowance(res.collateral) == match *collateral {
                Some(Ok(b)) => Some(allowance_view(b)),
                _ => None,
            }
            &&& tokens_unique(res.token_balances@)
            &&& params.include_conditional ==> balance_map(res.token_balances@) == answered_map(fetched@)
                && res.token_count == answered_map(fetched@).dom().len()
            &&& !params.include_conditional ==> res.token_balances@.len() == 0 && res.token_count == 0
            &&& res.token_count == res.token_balances@.len()
        },
{
    let c = match collateral {
        Some(Ok(b)) => Some(copy_balance(b)),
        Some(Err(e)) => {
            return Err(copy_error(e));
        },
        None => None,
    };
    let n = fetched.len();
    let mut i: usize = 0;
    while i < n
        invariant
            n == fetched@.len(),
            i <= n,
            forall|j: int| 0 <= j < i ==> (#[trigger] fetched@[j]).1 is Ok,
            !(*collateral matches Some(Err(_))),
        decreases n - i,
    {
        if let Err(e) = &fetched[i].1 {
            let c = copy_error(e);
            assert(first_failure_at(fetched@, i as int) && (fetched@[i as int].1 matches Err(fe)
                && same_error(c, fe)));
            return Err(c);
        }
        i = i + 1;
    }
    assert(!fetch_failed(fetched@));
    if params.include_conditional {
        let v = gather_answers(fetched);
        let count = v.len();
        Ok(BalanceResult { collateral: c, token_balances: v, token_count: count })
    } else {
        Ok(BalanceResult { collateral: c, token_balances: Vec::new(), token_count: 0 })
    }
}

// ===========================================================================
// Display
// ===========================================================================

/// The line of one token balance.
pub open spec fn token_line(id: Seq<char>, b: BalanceAllowance) -> Seq<char> {
    "• `"@ + shorten(id, 16) + "` — balance: "@ + b.balance@ + ", allowance: "@ + b.allowance@
}

/// The lines of the token balances.
pub open spec fn token_lines(v: Seq<(String, BalanceAllowance)>) -> Seq<Seq<char>> {
    Seq::new(v.len(), |i: int| token_line(v[i].0@, v[i].1))
}

/// The lines that show a balance result.
pub open spec fn balance_lines(r: BalanceResult) -> Seq<Seq<char>> {
    let head = seq!["💰 **Wallet Balances**\n"@];
    let collateral = match r.collateral {
        Some(c) => seq![
            "**Collateral (USDC):** "@ + c.balance@ + " (allowance: "@ + c.allowance@ + ")"@,
        ],
        None => seq![],
    };
    let tokens = if r.token_balances@.len() > 0 {
        seq!["\n**Conditional Tokens:** ("@ + dec(r.token_count as nat) + " tokens)\n"@]
            + token_lines(r.token_balances@)
    } else if r.token_count == 0 && r.collateral is Some {
        seq!["\nNo conditional token balances found."@]
    } else {
        seq![]
    };
    head + collateral + tokens
}

/// Whether every token ID longer than 16 bytes can be cut after its 16th
/// byte.
pub open spec fn ids_cut_cleanly(v: Seq<(String, BalanceAllowance)>) -> bool {
    forall|i: int| 0 <= i < v.len() ==> utf8_len(#[trigger] v[i].0@) > 16 ==> cuts_at_boundary(v[i].0@, 16)
}

/// Formats a balance result for display, one line per balance.
pub fn format_balance_result(result: &BalanceResult) -> (s: String)
    requires
        ids_cut_cleanly(result.token_balances@),
    ensures
        s@ == join(balance_lines(*result), "\n"@),
{
    let mut lines: Vec<String> = Vec::new();
    lines.push(String::from_str("💰 **Wallet Balances**\n"));
    match &result.collateral {
        Some(c) => {
            let mut line = String::from_str("**Collateral (USDC):** ");
            line.append(c.balance.as_str());
            line.append(" (allowance: ");
            line.append(c.allowance.as_str());
            line.append(")");
            lines.push(line);
        },
        None => {},
    }
    let ghost prefix = views(lines@);
    if result.token_balances.len() > 0 {
        let mut header = String::from_str("\n**Conditional Tokens:** (");
        push_decimal(&mut header, result.token_count as u64);
        header.append(" tokens)\n");
        lines.push(header);
        let ghost start = views(lines@);
        let n = result.token_balances.len();
        let mut i: usize = 0;
        while i < n
            invariant
                n == result.token_balances@.len(),
                i <= n,
                ids_cut_cleanly(result.token_balances@),
                views(lines@) == start + token_lines(result.token_balances@).take(i as int),
            decreases n - i,
        {
            let entry = &result.token_balances[i];
            assert(utf8_len(result.token_balances@[i as int].0@) > 16 ==> cuts_at_boundary(
                result.token_balances@[i as int].0@,
                16,
            ));
            let mut line = String::from_str("• `");
            let short = shorten_id(entry.0.as_str(), 16);
            line.append(short.as_str());
            line.append("` — balance: ");
            line.append(entry.1.balance.as_str());
            line.append(", allowance: ");
            line.append(entry.1.allowance.as_str());
            let ghost before = lines@;
            lines.push(line);
            proof {
                assert(views(lines@) =~= views(before).push(line@));
                assert(token_lines(result.token_balances@).take(i + 1) =~= token_lines(
                    result.token_balances@,
                ).take(i as int).push(token_line(entry.0@, entry.1)));
            }
            i = i + 1;
        }
        assert(token_lines(result.token_balances@).take(n as int) =~= token_lines(
            result.token_balances@,
        ));
    } else if result.token_count == 0 && result.collateral.is_some() {
        lines.push(String::from_str("\nNo conditional token balances found."));
    }
    assert(views(lines@) =~= balance_lines(*result));
    join_strings(&lines, "\n")
}

} // verus!
