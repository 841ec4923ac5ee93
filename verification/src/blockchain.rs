//! Ethereum: blocks and transactions as the JSON-RPC interface reports them,
//! the hexadecimal quantities it uses, and an event stream's state.
use vstd::prelude::*;
use crate::error::GrassError;
use crate::text::{join2, str_chars, string_from_chars};

verus! {

/// An Ethereum block.
pub struct GrassEthBlock {
    pub number: u64,
    pub hash: String,
    pub parent_hash: String,
    pub timestamp: u64,
    pub transactions: Vec<GrassEthTransaction>,
}

/// An Ethereum transaction; `value` is the hexadecimal quantity as
/// reported.
pub struct GrassEthTransaction {
    pub hash: String,
    pub from: String,
    pub to: Option<String>,
    pub value: String,
    pub gas: u64,
    pub input: String,
}

// ------------------------------------------------------------- quantities

/// `s` with every leading `0x` removed (`trim_start_matches("0x")`).
pub open spec fn strip_hex_prefix(s: Seq<char>) -> Seq<char>
    decreases s.len(),
{
    if s.len() >= 2 && s[0] == '0' && s[1] == 'x' {
        strip_hex_prefix(s.skip(2))
    } else {
        s
    }
}

/// The value of a hexadecimal digit (either case), if `c` is one.
pub open spec fn hex_digit_value(c: char) -> Option<nat> {
    if '0' <= c && c <= '9' {
        Some((c as nat - '0' as nat) as nat)
    } else if 'a' <= c && c <= 'f' {
        Some((c as nat - 'a' as nat + 10) as nat)
    } else if 'A' <= c && c <= 'F' {
        Some((c as nat - 'A' as nat + 10) as nat)
    } else {
        None
    }
}

/// Whether every character of `s` is a hexadecimal digit.
pub open spec fn all_hex(s: Seq<char>) -> bool {
    forall|i: int| 0 <= i < s.len() ==> (#[trigger] hex_digit_value(s[i])) is Some
}

/// The number that the hexadecimal digits `s` write.
pub open spec fn hex_value(s: Seq<char>) -> nat
    decreases s.len(),
{
    if s.len() == 0 {
        0
    } else {
        hex_value(s.drop_last()) * 16 + match hex_digit_value(s.last()) {
            Some(d) => d,
            None => 0,
        }
    }
}

/// The digits that base-16 parsing reads: all of `s`, or what follows a
/// leading `+`.
pub open spec fn signless(s: Seq<char>) -> Seq<char> {
    if s.len() > 0 && s[0] == '+' {
        s.drop_first()
    } else {
        s
    }
}

/// What `u64::from_str_radix(s, 16)` gives: the number, when `s` is an
/// optional `+` and then one or more hexadecimal digits whose number fits
/// in 64 bits; no number otherwise.
pub open spec fn parse_hex_u64(s: Seq<char>) -> Option<u64> {
    let d = signless(s);
    if d.len() == 0 || !all_hex(d) || hex_value(d) > u64::MAX {
        None
    } else {
        Some(hex_value(d) as u64)
    }
}

/// The number a JSON-RPC quantity stands for: its leading `0x`s removed
/// and the rest read as base 16, or zero when that fails.
pub open spec fn quantity_value(s: Seq<char>) -> u64 {
    match parse_hex_u64(strip_hex_prefix(s)) {
        Some(v) => v,
        None => 0,
    }
}

proof fn lemma_hex_value_grows(s: Seq<char>, i: int, j: int)
    requires
        0 <= i <= j <= s.len(),
    ensures
        hex_value(s.take(i)) <= hex_value(s.take(j)),
    decreases j - i,
{
    if i < j {
        lemma_hex_value_grows(s, i, j - 1);
        assert(s.take(j).drop_last() =~= s.take(j - 1));
        assert(hex_value(s.take(j - 1)) <= hex_value(s.take(j - 1)) * 16) by (nonlinear_arith);
    }
}

fn digit_value(c: char) -> (r: Option<u64>)
    ensures
        match hex_digit_value(c) {
            Some(d) => r == Some(d as u64) && d < 16,
            None => r is None,
        },
{
    if '0' <= c && c <= '9' {
        Some((c as u64) - ('0' as u64))
    } else if 'a' <= c && c <= 'f' {
        Some((c as u64) - ('a' as u64) + 10)
    } else if 'A' <= c && c <= 'F' {
        Some((c as u64) - ('A' as u64) + 10)
    } else {
        None
    }
}

/// `s` read as `u64::from_str_radix(s, 16)` reads it.
pub fn parse_hex(s: &[char]) -> (r: Option<u64>)
    ensures
        r == parse_hex_u64(s@),
{
    let mut start: usize = 0;
    if s.len() > 0 && s[0] == '+' {
        start = 1;
    }
    let ghost d = signless(s@);
    assert(d =~= s@.skip(start as int));
    if start == s.len() {
        return None;
    }
    let mut value: u64 = 0;
    let mut i: usize = start;
    assert(d.take(0) =~= Seq::<char>::empty());
    while i < s.len()
        invariant
            start <= i <= s.len(),
            d == s@.skip(start as int),
            d == signless(s@),
            d.len() > 0,
            value == hex_value(d.take(i - start)),
            all_hex(d.take(i - start)),
        decreases s.len() - i,
    {
        let ghost k = i - start;
        assert(d.take(k + 1).drop_last() =~= d.take(k));
        assert(d[k] == s@[i as int]);
        match digit_value(s[i]) {
            None => {
                assert(hex_digit_value(d[k]) is None);
                assert(!all_hex(d));
                return None;
            },
            Some(dv) => {
                if value > (u64::MAX - dv) / 16 {
                    proof {
                        assert(value * 16 + dv > u64::MAX) by (nonlinear_arith)
                            requires
                                value > (u64::MAX - dv) / 16,
                                dv < 16,
                        ;
                        assert(hex_value(d.take(k + 1)) == value * 16 + dv);
                        assert(d.take(d.len() as int) =~= d);
                        lemma_hex_value_grows(d, k + 1, d.len() as int);
                        assert(hex_value(d) > u64::MAX);
                    }
                    return None;
                }
                proof {
                    assert(value * 16 + dv <= u64::MAX) by (nonlinear_arith)
                        requires
                            value <= (u64::MAX - dv) / 16,
                            dv < 16,
                    ;
                }
                value = value * 16 + dv;
                i = i + 1;
                assert forall|j: int| 0 <= j < d.take(k + 1).len() implies (#[trigger] hex_digit_value(
                    d.take(k + 1)[j],
                )) is Some by {
                    if j < k {
                        assert(d.take(k + 1)[j] == d.take(k)[j]);
                    }
                }
            },
        }
    }
    assert(d.take(d.len() as int) =~= d);
    Some(value)
}

/// The number a JSON-RPC quantity stands for: leading `0x`s removed, the
/// rest read as base 16; zero when that fails.
pub fn quantity(s: &str) -> (r: u64)
    ensures
        r == quantity_value(s@),
{
    let v = str_chars(s);
    let mut i: usize = 0;
    assert(v@.skip(0) =~= v@);
    while v.len() - i >= 2 && v[i] == '0' && v[i + 1] == 'x'
        invariant
            i <= v.len(),
            strip_hex_prefix(v@) == strip_hex_prefix(v@.skip(i as int)),
        decreases v.len() - i,
    {
        assert(v@.skip(i as int).skip(2) =~= v@.skip(i + 2));
        i = i + 2;
    }
    assert(strip_hex_prefix(v@.skip(i as int)) == v@.skip(i as int));
    let rest = v.as_slice().split_at(i).1;
    assert(rest@ =~= v@.skip(i as int));
    match parse_hex(rest) {
        Some(n) => n,
        None => 0,
    }
}

/// The lower-case hexadecimal digit for `d` (taken modulo 16).
pub open spec fn hex_char(d: nat) -> char {
    let d = d % 16;
    if d < 10 {
        ('0' as nat + d) as char
    } else {
        ('a' as nat + d - 10) as char
    }
}

/// `n` in lower-case hexadecimal, without leading zeros (`{:x}`).
pub open spec fn hex_digits(n: nat) -> Seq<char>
    decreases n,
{
    if n < 16 {
        seq![hex_char(n)]
    } else {
        hex_digits(n / 16).push(hex_char(n % 16))
    }
}

fn hex_digit_char(d: u64) -> (c: char)
    requires
        d < 16,
    ensures
        c == hex_char(d as nat),
{
    if d < 10 {
        ((('0' as u8) + (d as u8)) as char)
    } else {
        ((('a' as u8) + (d as u8) - 10) as char)
    }
}

/// `n` as a JSON-RPC quantity: `0x` and its lower-case hexadecimal digits.
pub fn quantity_text(n: u64) -> (r: String)
    ensures
        r@ == "0x"@ + hex_digits(n as nat),
{
    let mut m = n;
    let mut acc: Vec<char> = Vec::new();
    while m >= 16
        invariant
            hex_digits(n as nat) == hex_digits(m as nat) + acc@,
        decreases m,
    {
        let c = hex_digit_char(m % 16);
        acc.insert(0, c);
        assert(hex_digits(m as nat) == hex_digits((m / 16) as nat).push(c));
        m = m / 16;
        assert(hex_digits(n as nat) =~= hex_digits(m as nat) + acc@);
    }
    acc.insert(0, hex_digit_char(m));
    assert(hex_digits(n as nat) =~= acc@);
    let digits = string_from_chars(acc.as_slice());
    join2("0x", digits.as_str())
}

proof fn lemma_hex_char_value(d: nat)
    requires
        d < 16,
    ensures
        hex_digit_value(hex_char(d)) == Some(d),
{
}

proof fn lemma_hex_digits(n: nat)
    ensures
        hex_digits(n).len() > 0,
        all_hex(hex_digits(n)),
        hex_value(hex_digits(n)) == n,
    decreases n,
{
    if n < 16 {
        lemma_hex_char_value(n);
        assert(hex_digits(n).drop_last() =~= Seq::<char>::empty());
        assert(hex_value(hex_digits(n)) == hex_value(Seq::<char>::empty()) * 16 + n);
    } else {
        lemma_hex_digits(n / 16);
        lemma_hex_char_value(n % 16);
        let d = hex_digits(n);
        assert(d.drop_last() =~= hex_digits(n / 16));
        assert(d.last() == hex_char(n % 16));
        assert(hex_value(d) == hex_value(hex_digits(n / 16)) * 16 + n % 16);
        assert((n / 16) * 16 + n % 16 == n) by (nonlinear_arith);
        assert forall|i: int| 0 <= i < d.len() implies (#[trigger] hex_digit_value(d[i])) is Some by {
            if i < d.len() - 1 {
                assert(d[i] == hex_digits(n / 16)[i]);
            }
        }
    }
}

/// Reading back a quantity written by `quantity_text` gives the number that
/// was written: `quantity(quantity_text(n)) == n` for every `n`.
pub proof fn lemma_quantity_roundtrip(n: u64)
    ensures
        quantity_value("0x"@ + hex_digits(n as nat)) == n,
{
    reveal_strlit("0x");
    lemma_hex_digits(n as nat);
    let d = hex_digits(n as nat);
    let s = "0x"@ + d;
    assert(s.skip(2) =~= d);
    assert(hex_digit_value(d[0]) is Some);
    if d.len() >= 2 {
        assert(hex_digit_value(d[1]) is Some);
    }
    assert(strip_hex_prefix(d) == d);
    assert(strip_hex_prefix(s) == d);
    assert(signless(d) == d);
}

// ------------------------------------------------------------- RPC results

/// The text of an optional field, or `default` when it is missing.
pub open spec fn text_or(o: Option<&str>, default: Seq<char>) -> Seq<char> {
    match o {
        Some(s) => s@,
        None => default,
    }
}

fn owned_or(o: Option<&str>, default: &str) -> (r: String)
    ensures
        r@ == text_or(o, default@),
{
    match o {
        Some(s) => s.to_owned(),
        None => default.to_owned(),
    }
}

/// The block number answered to `eth_blockNumber` (its result as text, when
/// it is text): the quantity it stands for, `0x0` when it is missing.
pub fn block_number_from_rpc(result: Option<&str>) -> (r: u64)
    ensures
        r == quantity_value(text_or(result, "0x0"@)),
{
    let s = owned_or(result, "0x0");
    quantity(s.as_str())
}

/// Block `number` from the text fields of an `eth_getBlockByNumber`
/// result: missing hashes are empty, a missing timestamp is `0x0`, and the
/// transaction list is left empty.
pub fn block_from_rpc(
    number: u64,
    hash: Option<&str>,
    parent_hash: Option<&str>,
    timestamp: Option<&str>,
) -> (r: GrassEthBlock)
    ensures
        r.number == number,
        r.hash@ == text_or(hash, Seq::empty()),
        r.parent_hash@ == text_or(parent_hash, Seq::empty()),
        r.timestamp == quantity_value(text_or(timestamp, "0x0"@)),
        r.transactions@.len() == 0,
{
    proof {
        reveal_strlit("");
    }
    let ts = owned_or(timestamp, "0x0");
    GrassEthBlock {
        number,
        hash: owned_or(hash, ""),
        parent_hash: owned_or(parent_hash, ""),
        timestamp: quantity(ts.as_str()),
        transactions: Vec::new(),
    }
}

/// Transaction `hash` from the text fields of an
/// `eth_getTransactionByHash` result: missing `from` and `input` are
/// empty, a missing value is `0x0`, and the gas is zero.
pub fn transaction_from_rpc(
    hash: &str,
    from: Option<&str>,
    to: Option<&str>,
    value: Option<&str>,
    input: Option<&str>,
) -> (r: GrassEthTransaction)
    ensures
        r.hash@ == hash@,
        r.from@ == text_or(from, Seq::empty()),
        match to {
            Some(t) => r.to matches Some(x) && x@ == t@,
            None => r.to is None,
        },
        r.value@ == text_or(value, "0x0"@),
        r.gas == 0,
        r.input@ == text_or(input, Seq::empty()),
{
    proof {
        reveal_strlit("");
    }
    GrassEthTransaction {
        hash: hash.to_owned(),
        from: owned_or(from, ""),
        to: match to {
            Some(t) => Some(t.to_owned()),
            None => None,
        },
        value: owned_or(value, "0x0"),
        gas: 0,
        input: owned_or(input, ""),
    }
}

/// The hash answered to `eth_sendRawTransaction`, empty when the result is
/// not text.
pub fn sent_transaction_hash(result: Option<&str>) -> (r: String)
    ensures
        r@ == text_or(result, Seq::empty()),
{
    proof {
        reveal_strlit("");
    }
    owned_or(result, "")
}

/// An Ethereum JSON-RPC endpoint.
pub struct GrassEthHttpProvider {
    rpc_url: String,
}

impl GrassEthHttpProvider {
    pub closed spec fn url(&self) -> Seq<char> {
        self.rpc_url@
    }

    /// A provider for the endpoint at `rpc_url`.
    pub fn new(rpc_url: &str) -> (r: Self)
        ensures
            r.url() == rpc_url@,
    {
        GrassEthHttpProvider { rpc_url: rpc_url.to_owned() }
    }

    pub fn rpc_url(&self) -> (r: &str)
        ensures
            r@ == self.url(),
    {
        self.rpc_url.as_str()
    }
}

// ------------------------------------------------------------- streams

/// A stream of contract events on a named chain.
pub struct GrassEthStream {
    chain: String,
    connected: bool,
}

impl GrassEthStream {
    pub closed spec fn chain_text(&self) -> Seq<char> {
        self.chain@
    }

    pub closed spec fn is_connected(&self) -> bool {
        self.connected
    }

    /// A stream on `chain`, not connected.
    pub fn new(chain: &str) -> (r: Self)
        ensures
            r.chain_text() == chain@,
            !r.is_connected(),
    {
        GrassEthStream { chain: chain.to_owned(), connected: false }
    }

    /// The chain's name.
    pub fn chain_name(&self) -> (r: &str)
        ensures
            r@ == self.chain_text(),
    {
        self.chain.as_str()
    }

    /// Whether the stream is connected.
    pub fn connected(&self) -> (r: bool)
        ensures
            r == self.is_connected(),
    {
        self.connected
    }

    /// Connects to `endpoint`; this succeeds.
    pub fn connect(&mut self, endpoint: &str) -> (r: Result<(), GrassError>)
        ensures
            r is Ok,
            final(self).is_connected(),
            final(self).chain_text() == old(self).chain_text(),
    {
        self.connected = true;
        Ok(())
    }

    /// Subscribes to the events of `contract`; this succeeds.
    pub fn subscribe_events(&self, contract: &str) -> (r: Result<(), GrassError>)
        ensures
            r is Ok,
    {
        Ok(())
    }

    /// Disconnects; this succeeds.
    pub fn disconnect(&mut self) -> (r: Result<(), GrassError>)
        ensures
            r is Ok,
            !final(self).is_connected(),
            final(self).chain_text() == old(self).chain_text(),
    {
        self.connected = false;
        Ok(())
    }
}

} // verus!
