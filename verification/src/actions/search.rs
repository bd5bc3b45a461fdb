//! Searching markets with the Gamma API: the search URL, the selection of
//! the markets found, and the outcomes of a market.
//!
//! Sending the search and decoding its answer is left to the caller, which
//! hands back, for each market found, whether it is active and closed.

use vstd::prelude::*;

use crate::constants::GAMMA_API_URL;
use crate::text::{
    cuts_at_boundary, dec, head, head_bytes, join, join_strings, push_char, push_decimal, utf8_len,
    views,
};

verus! {

// ===========================================================================
// Types of the Gamma API answer
// ===========================================================================

/// A tag of the Gamma API search answer.
#[derive(Debug, Clone)]
pub struct GammaTag {
    pub id: String,
    pub label: String,
    pub slug: String,
    pub event_count: Option<i32>,
}

/// A profile of the Gamma API search answer.
#[derive(Debug, Clone)]
pub struct GammaProfile {
    pub id: String,
    pub name: String,
    pub pseudonym: Option<String>,
}

/// The pagination of the Gamma API search answer.
#[derive(Debug, Clone)]
pub struct GammaPagination {
    pub has_more: bool,
    pub total_results: i32,
}

// ===========================================================================
// Outcomes
// ===========================================================================

/// What decoding `s` as a JSON array of strings gives, or nothing when it
/// is not one.
pub uninterp spec fn json_string_array(s: Seq<char>) -> Option<Seq<Seq<char>>>;

/// Calls `serde_json::from_str::<Vec<String>>` on `s`: the strings of the
/// array, or nothing when `s` is not a JSON array of strings. The outcome
/// is a function of `s` alone.
#[verifier::external_body]
fn parse_json_strings(s: &str) -> (r: Option<Vec<String>>)
    ensures
        match r {
            Some(v) => json_string_array(s@) == Some(views(v@)),
            None => json_string_array(s@) is None,
        },
{
    serde_json::from_str::<Vec<String>>(s).ok()
}

/// The outcomes of a market, from their JSON text: none when the text is
/// not a JSON array of strings.
pub fn parse_outcomes(outcomes_str: &str) -> (r: Vec<String>)
    ensures
        views(r@) == match json_string_array(outcomes_str@) {
            Some(v) => v,
            None => Seq::<Seq<char>>::empty(),
        },
{
    match parse_json_strings(outcomes_str) {
        Some(v) => v,
        None => {
            let r: Vec<String> = Vec::new();
            assert(views(r@) =~= Seq::<Seq<char>>::empty());
            r
        },
    }
}

// ===========================================================================
// The search URL
// ===========================================================================

/// The uppercase hexadecimal digit for `n` (`n < 16`).
pub open spec fn upper_nibble(n: nat) -> char {
    if n < 10 {
        (48 + n) as char
    } else {
        (55 + n) as char
    }
}

/// The uppercase hexadecimal rendering of `n`, without leading zeros.
pub open spec fn upper_hex(n: nat) -> Seq<char>
    decreases n,
{
    if n < 16 {
        seq![upper_nibble(n)]
    } else {
        upper_hex(n / 16).push(upper_nibble(n % 16))
    }
}

/// Whether `c` stands for itself in a query string.
pub open spec fn is_unreserved(c: char) -> bool {
    ||| ('a' <= c && c <= 'z')
    ||| ('A' <= c && c <= 'Z')
    ||| ('0' <= c && c <= '9')
    ||| c == '-'
    ||| c == '_'
    ||| c == '.'
    ||| c == '~'
}

/// How a character is written in a query string: itself when unreserved,
/// else `%` and its code point in uppercase hexadecimal, at least two
/// digits.
pub open spec fn encode_char(c: char) -> Seq<char> {
    if is_unreserved(c) {
        seq![c]
    } else if (c as nat) < 16 {
        "%0"@ + upper_hex(c as nat)
    } else {
        "%"@ + upper_hex(c as nat)
    }
}

/// `s` written for a query string.
pub open spec fn encode_text(s: Seq<char>) -> Seq<char>
    decreases s.len(),
{
    if s.len() == 0 {
        seq![]
    } else {
        encode_text(s.drop_last()) + encode_char(s.last())
    }
}

fn upper_digit(d: u32) -> (c: char)
    requires
        d < 16,
    ensures
        c == upper_nibble(d as nat),
{
    match d {
        0 => '0',
        1 => '1',
        2 => '2',
        3 => '3',
        4 => '4',
        5 => '5',
        6 => '6',
        7 => '7',
        8 => '8',
        9 => '9',
        10 => 'A',
        11 => 'B',
        12 => 'C',
        13 => 'D',
        14 => 'E',
        _ => 'F',
    }
}

fn push_upper_hex(s: &mut String, n: u32)
    ensures
        final(s)@ == old(s)@ + upper_hex(n as nat),
    decreases n,
{
    if n >= 16 {
        push_upper_hex(s, n / 16);
    }
    push_char(s, upper_digit(n % 16));
    proof {
        if n >= 16 {
            assert(upper_hex(n as nat) == upper_hex((n / 16) as nat).push(upper_nibble((n % 16) as nat)));
        }
    }
}

fn unreserved(c: char) -> (b: bool)
    ensures
        b == is_unreserved(c),
{
    ('a' <= c && c <= 'z') || ('A' <= c && c <= 'Z') || ('0' <= c && c <= '9') || c == '-' || c
        == '_' || c == '.' || c == '~'
}

/// Writes `query` for a query string: unreserved characters stand for
/// themselves, every other character becomes `%` and its code point in
/// uppercase hexadecimal, at least two digits.
pub fn encode_query(query: &str) -> (s: String)
    ensures
        s@ == encode_text(query@),
{
    let mut s = String::new();
    let n = query.unicode_len();
    let mut i: usize = 0;
    while i < n
        invariant
            n == query@.len(),
            i <= n,
            s@ == encode_text(query@.take(i as int)),
        decreases n - i,
    {
        let c = query.get_char(i);
        assert(query@.take(i + 1).drop_last() =~= query@.take(i as int));
        assert(query@.take(i + 1).last() == c);
        if unreserved(c) {
            push_char(&mut s, c);
        } else {
            let code = c as u32;
            if code < 16 {
                s.append("%0");
            } else {
                s.append("%");
            }
            push_upper_hex(&mut s, code);
        }
        i = i + 1;
    }
    assert(query@.take(n as int) =~= query@);
    s
}

/// The number of results per type a search asks for: 10 unless given, at
/// most 25.
pub open spec fn limit_of(limit: Option<usize>) -> nat {
    let l = match limit {
        Some(l) => l as nat,
        None => 10,
    };
    if l < 25 {
        l
    } else {
        25
    }
}

/// The number of results per type a search asks for.
pub fn search_limit(limit: Option<usize>) -> (l: usize)
    ensures
        l == limit_of(limit),
{
    let l = match limit {
        Some(l) => l,
        None => 10,
    };
    if l < 25 {
        l
    } else {
        25
    }
}

/// The URL of a search for `query`.
pub open spec fn search_url_text(query: Seq<char>, limit: Option<usize>, active_only: bool) -> Seq<char> {
    GAMMA_API_URL@ + "/public-search?q="@ + encode_text(query) + "&limit_per_type="@ + dec(
        limit_of(limit),
    ) + if active_only {
        "&events_status=active"@
    } else {
        Seq::<char>::empty()
    }
}

/// The Gamma API URL that searches markets for `query`, `limit` results
/// per type (10 unless given, at most 25), only active events when
/// `active_only`.
pub fn search_url(query: &str, limit: Option<usize>, active_only: bool) -> (s: String)
    ensures
        s@ == search_url_text(query@, limit, active_only),
{
    let mut s = String::from_str(GAMMA_API_URL);
    s.append("/public-search?q=");
    let q = encode_query(query);
    s.append(q.as_str());
    s.append("&limit_per_type=");
    push_decimal(&mut s, search_limit(limit) as u64);
    if active_only {
        s.append("&events_status=active");
    }
    s
}

// ===========================================================================
// Selecting the markets found
// ===========================================================================

/// Whether a market found is active and whether it is closed.
#[derive(Debug, Clone, Copy)]
pub struct MarketFlags {
    pub active: bool,
    pub closed: bool,
}

/// Whether a market found is kept: all are, unless only active ones are
/// asked for, in which case an inactive or closed one is not.
pub open spec fn kept(m: MarketFlags, active_only: bool) -> bool {
    !(active_only && (!m.active || m.closed))
}

/// The positions of the markets kept among the first `n` found, in order.
pub open spec fn kept_positions(markets: Seq<MarketFlags>, active_only: bool, n: nat) -> Seq<int>
    decreases n,
{
    if n == 0 {
        seq![]
    } else {
        let k = kept_positions(markets, active_only, (n - 1) as nat);
        if kept(markets[n - 1], active_only) {
            k.push(n - 1)
        } else {
            k
        }
    }
}

proof fn lemma_kept_positions(markets: Seq<MarketFlags>, active_only: bool, n: nat)
    requires
        n <= markets.len(),
    ensures
        forall|i: int|
            0 <= i < kept_positions(markets, active_only, n).len() ==> {
                let p = #[trigger] kept_positions(markets, active_only, n)[i];
                0 <= p < n && kept(markets[p], active_only)
            },
        forall|i: int, j: int|
            0 <= i < j < kept_positions(markets, active_only, n).len() ==> kept_positions(
                markets,
                active_only,
                n,
            )[i] < kept_positions(markets, active_only, n)[j],
        kept_positions(markets, active_only, n).len() <= n,
    decreases n,
{
    if n > 0 {
        lemma_kept_positions(markets, active_only, (n - 1) as nat);
    }
}

/// Every character of an encoded query string is unreserved or `%`: the
/// query cannot end the parameter or start another.
pub proof fn law_encoded_query_is_url_safe(query: Seq<char>)
    ensures
        forall|i: int|
            0 <= i < encode_text(query).len() ==> is_unreserved(#[trigger] encode_text(query)[i])
                || encode_text(query)[i] == '%',
    decreases query.len(),
{
    if query.len() > 0 {
        law_encoded_query_is_url_safe(query.drop_last());
        let c = query.last();
        lemma_upper_hex_unreserved(c as nat);
        let a = encode_text(query.drop_last());
        let b = encode_char(c);
        reveal_strlit("%0");
        reveal_strlit("%");
        assert forall|i: int| 0 <= i < b.len() implies is_unreserved(#[trigger] b[i]) || b[i] == '%' by {
            if !is_unreserved(c) {
                if (c as nat) < 16 {
                    assert(b =~= seq!['%', '0'] + upper_hex(c as nat));
                    if i >= 2 {
                        assert(b[i] == upper_hex(c as nat)[i - 2]);
                    }
                } else {
                    assert(b =~= seq!['%'] + upper_hex(c as nat));
                    if i >= 1 {
                        assert(b[i] == upper_hex(c as nat)[i - 1]);
                    }
                }
            }
        }
        assert forall|i: int| 0 <= i < encode_text(query).len() implies is_unreserved(
            #[trigger] encode_text(query)[i],
        ) || encode_text(query)[i] == '%' by {
            assert(encode_text(query) == a + b);
            if i < a.len() {
                assert(encode_text(query)[i] == a[i]);
            } else {
                assert(encode_text(query)[i] == b[i - a.len()]);
            }
        }
    }
}

proof fn lemma_upper_hex_unreserved(n: nat)
    ensures
        forall|i: int| 0 <= i < upper_hex(n).len() ==> is_unreserved(#[trigger] upper_hex(n)[i]),
    decreases n,
{
    lemma_upper_nibble_unreserved(n % 16);
    if n >= 16 {
        lemma_upper_hex_unreserved(n / 16);
        assert forall|i: int| 0 <= i < upper_hex(n).len() implies is_unreserved(#[trigger] upper_hex(n)[i]) by {
            if i < upper_hex(n / 16).len() {
                assert(upper_hex(n)[i] == upper_hex(n / 16)[i]);
            }
        }
    } else {
        lemma_upper_nibble_unreserved(n);
    }
}

proof fn lemma_upper_nibble_unreserved(d: nat)
    requires
        d < 16,
    ensures
        is_unreserved(upper_nibble(d)),
{
    if d < 10 {
        assert(upper_nibble(d) as nat == 48 + d);
        assert('0' as nat == 48 && '9' as nat == 57);
    } else {
        assert(upper_nibble(d) as nat == 55 + d);
        assert('A' as nat == 65 && 'Z' as nat == 90);
    }
}

/// Which of the markets found a search shows, and how many there are.
#[derive(Debug, Clone)]
pub struct SearchSelection {
    /// The positions, among the markets found, of those shown, in order.
    pub shown: Vec<usize>,
    /// How many markets are kept.
    pub total_results: usize,
    /// How many are shown.
    pub displayed_results: usize,
    /// Whether more are kept than shown.
    pub has_more: bool,
}

/// Selects the markets a search shows: those kept (`active_only` drops the
/// inactive and the closed ones), the first `limit` of them.
pub fn select_search_markets(markets: &[MarketFlags], active_only: bool, limit: usize) -> (r:
    SearchSelection)
    ensures
        ({
            let all = kept_positions(markets@, active_only, markets@.len());
            &&& r.total_results == all.len()
            &&& r.displayed_results == if all.len() < limit {
                all.len()
            } else {
                limit as nat
            }
            &&& r.has_more == (all.len() > limit)
            &&& r.shown@.len() == r.displayed_results
            &&& forall|i: int| 0 <= i < r.shown@.len() ==> #[trigger] r.shown@[i] == all[i]
        }),
        forall|i: int|
            0 <= i < r.shown@.len() ==> #[trigger] r.shown@[i] < markets@.len() && kept(
                markets@[r.shown@[i] as int],
                active_only,
            ),
        forall|i: int, j: int| 0 <= i < j < r.shown@.len() ==> r.shown@[i] < r.shown@[j],
{
    let ghost all = kept_positions(markets@, active_only, markets@.len());
    let n = markets.len();
    let mut shown: Vec<usize> = Vec::new();
    let mut total: usize = 0;
    let mut i: usize = 0;
    while i < n
        invariant
            n == markets@.len(),
            i <= n,
            total == kept_positions(markets@, active_only, i as nat).len(),
            total <= i,
            shown@.len() == if total < limit {
                total
            } else {
                limit
            },
            forall|j: int|
                0 <= j < shown@.len() ==> #[trigger] shown@[j] == kept_positions(
                    markets@,
                    active_only,
                    i as nat,
                )[j],
        decreases n - i,
    {
        let ghost before = kept_positions(markets@, active_only, i as nat);
        let m = markets[i];
        if !(active_only && (!m.active || m.closed)) {
            if total < limit {
                shown.push(i);
            }
            total = total + 1;
            assert(kept_positions(markets@, active_only, (i + 1) as nat) == before.push(i as int));
        }
        i = i + 1;
    }
    proof {
        lemma_kept_positions(markets@, active_only, n as nat);
    }
    let displayed = shown.len();
    SearchSelection { shown, total_results: total, displayed_results: displayed, has_more: total > limit }
}

// ===========================================================================
// Showing the results
// ===========================================================================

/// What the results show of a market found. Prices and volumes come
/// already rendered.
#[derive(Debug, Clone)]
pub struct SearchMarketLine {
    pub question: String,
    pub active: bool,
    pub closed: bool,
    /// The market's outcomes, as JSON text.
    pub outcomes: String,
    /// The outcomes' prices, rendered as percentages.
    pub prices: Vec<String>,
    /// The market's volume, rendered, when it is a number.
    pub volume: Option<String>,
    /// The market's volume over the last 24 hours, rendered, when known.
    pub volume_24h: Option<String>,
    pub end_date: String,
    pub condition_id: String,
    /// Whether the market's token IDs are known.
    pub has_token_ids: bool,
}

/// The marker of an open market (green) or of a closed or inactive one (red).
pub open spec fn status_marker(m: SearchMarketLine) -> Seq<char> {
    if m.active && !m.closed {
        "🟢"@
    } else {
        "🔴"@
    }
}

/// The outcomes of a market, none when its JSON text does not parse.
pub open spec fn outcomes_of(m: SearchMarketLine) -> Seq<Seq<char>> {
    match json_string_array(m.outcomes@) {
        Some(v) => v,
        None => Seq::<Seq<char>>::empty(),
    }
}

/// Each outcome with its price, as many as there are of both.
pub open spec fn price_parts(outcomes: Seq<Seq<char>>, prices: Seq<Seq<char>>) -> Seq<Seq<char>> {
    let n = if outcomes.len() < prices.len() {
        outcomes.len()
    } else {
        prices.len()
    };
    Seq::new(n, |i: int| outcomes[i] + ": "@ + prices[i])
}

/// The title line of the market at position `i` (from 0).
pub open spec fn title_line(i: nat, m: SearchMarketLine) -> Seq<char> {
    "**"@ + dec(i + 1) + ". "@ + m.question@ + "** "@ + status_marker(m)
}

/// The line of a market's outcome prices, when it has outcomes and prices.
pub open spec fn prices_piece(m: SearchMarketLine) -> Seq<Seq<char>> {
    if outcomes_of(m).len() > 0 && m.prices@.len() > 0 {
        seq!["   📊 "@ + join(price_parts(outcomes_of(m), views(m.prices@)), " | "@)]
    } else {
        Seq::<Seq<char>>::empty()
    }
}

/// The line of a market's volume, when it is known.
pub open spec fn volume_piece(m: SearchMarketLine) -> Seq<Seq<char>> {
    match m.volume {
        Some(v) => seq![
            "   💰 Volume: "@ + v@ + match m.volume_24h {
                Some(d) => " (24h: "@ + d@ + ")"@,
                None => Seq::<char>::empty(),
            },
        ],
        None => Seq::<Seq<char>>::empty(),
    }
}

/// The line of a market's end date (its first 10 bytes), when it has one.
pub open spec fn end_piece(m: SearchMarketLine) -> Seq<Seq<char>> {
    if m.end_date@.len() > 0 {
        seq!["   ⏰ Ends: "@ + head(m.end_date@, 10)]
    } else {
        Seq::<Seq<char>>::empty()
    }
}

/// The line of a market's condition ID (its first 16 bytes), when it has one.
pub open spec fn id_piece(m: SearchMarketLine) -> Seq<Seq<char>> {
    if m.condition_id@.len() > 0 {
        seq!["   🔑 ID: `"@ + head(m.condition_id@, 16) + "...`"@]
    } else {
        Seq::<Seq<char>>::empty()
    }
}

/// The line saying a market's token IDs are known, when they are.
pub open spec fn tokens_piece(m: SearchMarketLine) -> Seq<Seq<char>> {
    if m.has_token_ids {
        seq!["   🏷️ Token IDs available for trading"@]
    } else {
        Seq::<Seq<char>>::empty()
    }
}

/// The lines that show the market at position `i` (from 0), ending with
/// an empty line.
pub open spec fn market_lines(i: nat, m: SearchMarketLine) -> Seq<Seq<char>> {
    seq![title_line(i, m)] + prices_piece(m) + volume_piece(m) + end_piece(m) + id_piece(m)
        + tokens_piece(m) + seq![Seq::<char>::empty()]
}

/// A market is shown by a title line with its position (from 1), its
/// question and a marker: red when it is closed or inactive, green only
/// when it is active and open.
pub proof fn law_closed_markets_are_marked_red(i: nat, m: SearchMarketLine)
    ensures
        market_lines(i, m).len() > 0,
        m.closed || !m.active ==> market_lines(i, m)[0] == "**"@ + dec(i + 1) + ". "@ + m.question@
            + "** "@ + "🔴"@,
        m.active && !m.closed ==> market_lines(i, m)[0] == "**"@ + dec(i + 1) + ". "@ + m.question@
            + "** "@ + "🟢"@,
{
}

/// The lines that show the first `n` markets.
pub open spec fn markets_lines(ms: Seq<SearchMarketLine>, n: nat) -> Seq<Seq<char>>
    decreases n,
{
    if n == 0 {
        Seq::<Seq<char>>::empty()
    } else {
        markets_lines(ms, (n - 1) as nat) + market_lines((n - 1) as nat, ms[n - 1])
    }
}

/// The line saying more markets were kept than shown, when there were.
pub open spec fn more_piece(total: nat, shown: nat, has_more: bool) -> Seq<Seq<char>> {
    if has_more {
        seq!["\n📄 *Showing "@ + dec(shown) + " of "@ + dec(total) + " results. Increase limit to see more.*"@]
    } else {
        Seq::<Seq<char>>::empty()
    }
}

/// The line of the first five related tags, when there are any.
pub open spec fn tags_piece(tags: Seq<Seq<char>>) -> Seq<Seq<char>> {
    if tags.len() > 0 {
        seq![
            "\n🏷️ *Related tags: "@ + join(tags.take(if tags.len() < 5 { tags.len() as int } else { 5 }), ", "@)
                + "*"@,
        ]
    } else {
        Seq::<Seq<char>>::empty()
    }
}

/// The lines that show the results of a search for `query`.
pub open spec fn search_results_lines(
    query: Seq<char>,
    total: nat,
    shown: nat,
    has_more: bool,
    ms: Seq<SearchMarketLine>,
    tags: Seq<Seq<char>>,
) -> Seq<Seq<char>> {
    let head_line = "🔍 **Search Results for \""@ + query + "\"**\n"@;
    if ms.len() == 0 {
        seq![
            head_line,
            "No markets found matching \""@ + query + "\"."@,
            "\n💡 *Try different keywords or check the spelling.*"@,
        ]
    } else {
        seq![head_line, "Found "@ + dec(total) + " market(s):\n"@] + markets_lines(ms, ms.len()) + more_piece(
            total,
            shown,
            has_more,
        ) + tags_piece(tags)
    }
}

/// Whether every end date longer than 10 bytes can be cut after its 10th
/// byte, and every condition ID longer than 16 bytes after its 16th.
pub open spec fn cuts_cleanly(ms: Seq<SearchMarketLine>) -> bool {
    forall|i: int|
        0 <= i < ms.len() ==> (utf8_len((#[trigger] ms[i]).end_date@) > 10 ==> cuts_at_boundary(
            ms[i].end_date@,
            10,
        )) && (utf8_len(ms[i].condition_id@) > 16 ==> cuts_at_boundary(ms[i].condition_id@, 16))
}

fn push_all(lines: &mut Vec<String>, more: &Vec<String>)
    ensures
        views(final(lines)@) == views(old(lines)@) + views(more@),
{
    let ghost all = views(more@);
    let n = more.len();
    let mut i: usize = 0;
    while i < n
        invariant
            n == more@.len(),
            all == views(more@),
            i <= n,
            views(lines@) == views(old(lines)@) + all.take(i as int),
        decreases n - i,
    {
        let ghost before = lines@;
        lines.push(more[i].clone());
        assert(views(lines@) =~= views(before).push(more@[i as int]@));
        assert(all.take(i + 1) =~= all.take(i as int).push(all[i as int]));
        i = i + 1;
    }
    assert(all.take(n as int) =~= all);
}

fn push_prices_line(lines: &mut Vec<String>, m: &SearchMarketLine)
    ensures
        views(final(lines)@) == views(old(lines)@) + prices_piece(*m),
{
    let ghost l0 = views(lines@);
    let outcomes = parse_outcomes(m.outcomes.as_str());
    if outcomes.len() > 0 && m.prices.len() > 0 {
        let n = if outcomes.len() < m.prices.len() {
            outcomes.len()
        } else {
            m.prices.len()
        };
        let ghost want = price_parts(views(outcomes@), views(m.prices@));
        let mut parts: Vec<String> = Vec::new();
        let mut k: usize = 0;
        while k < n
            invariant
                n <= outcomes@.len(),
                n <= m.prices@.len(),
                n == want.len(),
                want == price_parts(views(outcomes@), views(m.prices@)),
                k <= n,
                views(parts@) == want.take(k as int),
            decreases n - k,
        {
            let mut part = outcomes[k].clone();
            part.append(": ");
            part.append(m.prices[k].as_str());
            let ghost before = parts@;
            parts.push(part);
            assert(views(parts@) =~= views(before).push(want[k as int]));
            assert(want.take(k + 1) =~= want.take(k as int).push(want[k as int]));
            k = k + 1;
        }
        assert(want.take(n as int) =~= want);
        let mut line = String::from_str("   📊 ");
        let joined = join_strings(&parts, " | ");
        line.append(joined.as_str());
        lines.push(line);
        assert(views(lines@) =~= l0 + prices_piece(*m));
    } else {
        assert(views(lines@) =~= l0 + prices_piece(*m));
    }
}

fn push_volume_line(lines: &mut Vec<String>, m: &SearchMarketLine)
    ensures
        views(final(lines)@) == views(old(lines)@) + volume_piece(*m),
{
    let ghost l0 = views(lines@);
    match &m.volume {
        Some(v) => {
            let mut line = String::from_str("   💰 Volume: ");
            line.append(v.as_str());
            match &m.volume_24h {
                Some(d) => {
                    line.append(" (24h: ");
                    line.append(d.as_str());
                    line.append(")");
                    assert(line@ =~= "   💰 Volume: "@ + v@ + (" (24h: "@ + d@ + ")"@));
                },
                None => {
                    assert(line@ =~= "   💰 Volume: "@ + v@ + Seq::<char>::empty());
                },
            }
            lines.push(line);
            assert(views(lines@) =~= l0 + volume_piece(*m));
        },
        None => {
            assert(views(lines@) =~= l0 + volume_piece(*m));
        },
    }
}

fn push_end_and_id_lines(lines: &mut Vec<String>, m: &SearchMarketLine)
    requires
        utf8_len(m.end_date@) > 10 ==> cuts_at_boundary(m.end_date@, 10),
        utf8_len(m.condition_id@) > 16 ==> cuts_at_boundary(m.condition_id@, 16),
    ensures
        views(final(lines)@) == views(old(lines)@) + end_piece(*m) + id_piece(*m),
{
    let ghost l0 = views(lines@);
    if !m.end_date.as_str().is_empty() {
        let mut line = String::from_str("   ⏰ Ends: ");
        let h = head_bytes(m.end_date.as_str(), 10);
        line.append(h.as_str());
        lines.push(line);
    }
    assert(views(lines@) =~= l0 + end_piece(*m));
    let ghost l1 = views(lines@);
    if !m.condition_id.as_str().is_empty() {
        let mut line = String::from_str("   🔑 ID: `");
        let h = head_bytes(m.condition_id.as_str(), 16);
        line.append(h.as_str());
        line.append("...`");
        lines.push(line);
    }
    assert(views(lines@) =~= l1 + id_piece(*m));
}

fn line_for(i: usize, m: &SearchMarketLine) -> (lines: Vec<String>)
    requires
        i < usize::MAX,
        utf8_len(m.end_date@) > 10 ==> cuts_at_boundary(m.end_date@, 10),
        utf8_len(m.condition_id@) > 16 ==> cuts_at_boundary(m.condition_id@, 16),
    ensures
        views(lines@) == market_lines(i as nat, *m),
{
    let mut lines: Vec<String> = Vec::new();
    let mut title = String::from_str("**");
    push_decimal(&mut title, (i + 1) as u64);
    title.append(". ");
    title.append(m.question.as_str());
    title.append("** ");
    if m.active && !m.closed {
        title.append("🟢");
    } else {
        title.append("🔴");
    }
    lines.push(title);
    assert(views(lines@) =~= seq![title_line(i as nat, *m)]);
    push_prices_line(&mut lines, m);
    push_volume_line(&mut lines, m);
    push_end_and_id_lines(&mut lines, m);
    let ghost l5 = views(lines@);
    if m.has_token_ids {
        lines.push(String::from_str("   🏷️ Token IDs available for trading"));
    }
    assert(views(lines@) =~= l5 + tokens_piece(*m));
    let ghost l6 = views(lines@);
    lines.push(String::new());
    assert(views(lines@) =~= l6 + seq![Seq::<char>::empty()]);
    assert(views(lines@) =~= market_lines(i as nat, *m));
    lines
}

/// Shows the results of a search for `query`: `total` markets kept,
/// `shown` of them shown (`markets`), whether more were kept than shown,
/// and the labels of the related tags (the first five are shown).
pub fn search_results_text(
    query: &str,
    total: usize,
    shown: usize,
    has_more: bool,
    markets: &[SearchMarketLine],
    tags: &[String],
) -> (s: String)
    requires
        cuts_cleanly(markets@),
    ensures
        s@ == join(
            search_results_lines(query@, total as nat, shown as nat, has_more, markets@, views(tags@)),
            "\n"@,
        ),
{
    let mut lines: Vec<String> = Vec::new();
    let mut head_line = String::from_str("🔍 **Search Results for \"");
    head_line.append(query);
    head_line.append("\"**\n");
    lines.push(head_line);
    if markets.len() == 0 {
        let mut line = String::from_str("No markets found matching \"");
        line.append(query);
        line.append("\".");
        lines.push(line);
        lines.push(String::from_str("\n💡 *Try different keywords or check the spelling.*"));
        assert(views(lines@) =~= search_results_lines(
            query@,
            total as nat,
            shown as nat,
            has_more,
            markets@,
            views(tags@),
        ));
        return join_strings(&lines, "\n");
    }
    let mut found = String::from_str("Found ");
    push_decimal(&mut found, total as u64);
    found.append(" market(s):\n");
    lines.push(found);
    let ghost start = views(lines@);
    let n = markets.len();
    let mut i: usize = 0;
    while i < n
        invariant
            n == markets@.len(),
            i <= n,
            cuts_cleanly(markets@),
            views(lines@) == start + markets_lines(markets@, i as nat),
        decreases n - i,
    {
        let ghost m = markets@[i as int];
        assert(utf8_len(m.end_date@) > 10 ==> cuts_at_boundary(m.end_date@, 10));
        let more = line_for(i, &markets[i]);
        push_all(&mut lines, &more);
        assert(markets_lines(markets@, (i + 1) as nat) == markets_lines(markets@, i as nat) + market_lines(
            i as nat,
            m,
        ));
        assert(views(lines@) =~= start + markets_lines(markets@, (i + 1) as nat));
        i = i + 1;
    }
    let ghost mid = views(lines@);
    if has_more {
        let mut line = String::from_str("\n📄 *Showing ");
        push_decimal(&mut line, shown as u64);
        line.append(" of ");
        push_decimal(&mut line, total as u64);
        line.append(" results. Increase limit to see more.*");
        lines.push(line);
    }
    assert(views(lines@) =~= mid + more_piece(total as nat, shown as nat, has_more));
    let ghost mid2 = views(lines@);
    if tags.len() > 0 {
        let k = if tags.len() < 5 {
            tags.len()
        } else {
            5
        };
        let mut labels: Vec<String> = Vec::new();
        let mut j: usize = 0;
        while j < k
            invariant
                k <= tags@.len(),
                j <= k,
                views(labels@) == views(tags@).take(j as int),
            decreases k - j,
        {
            let ghost before = labels@;
            labels.push(tags[j].clone());
            assert(views(labels@) =~= views(before).push(tags@[j as int]@));
            assert(views(tags@).take(j + 1) =~= views(tags@).take(j as int).push(tags@[j as int]@));
            j = j + 1;
        }
        let mut line = String::from_str("\n🏷️ *Related tags: ");
        let joined = join_strings(&labels, ", ");
        line.append(joined.as_str());
        line.append("*");
        lines.push(line);
    }
    assert(views(lines@) =~= mid2 + tags_piece(views(tags@)));
    assert(views(lines@) =~= search_results_lines(
        query@,
        total as nat,
        shown as nat,
        has_more,
        markets@,
        views(tags@),
    ));
    join_strings(&lines, "\n")
}

} // verus!
