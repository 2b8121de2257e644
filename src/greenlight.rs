use vstd::prelude::*;
use vstd::string::StringExecFns;

use crate::config::Config;

verus! {

/// The description an offer gets when the request names none.
pub open spec fn default_offer_description() -> Seq<char> {
    "Bolt12 offer"@
}

/// Lowercase hexadecimal digit of a value below 16.
pub open spec fn hex_digit(v: int) -> char {
    if v == 0 {
        '0'
    } else if v == 1 {
        '1'
    } else if v == 2 {
        '2'
    } else if v == 3 {
        '3'
    } else if v == 4 {
        '4'
    } else if v == 5 {
        '5'
    } else if v == 6 {
        '6'
    } else if v == 7 {
        '7'
    } else if v == 8 {
        '8'
    } else if v == 9 {
        '9'
    } else if v == 10 {
        'a'
    } else if v == 11 {
        'b'
    } else if v == 12 {
        'c'
    } else if v == 13 {
        'd'
    } else if v == 14 {
        'e'
    } else {
        'f'
    }
}

/// Two lowercase hexadecimal digits for each byte, most significant first.
pub open spec fn hex_of(b: Seq<u8>) -> Seq<char>
    decreases b.len(),
{
    if b.len() == 0 {
        Seq::empty()
    } else {
        seq![hex_digit(b[0] as int / 16), hex_digit(b[0] as int % 16)] + hex_of(b.drop_first())
    }
}

/// Decimal digit for a value below 10.
pub open spec fn decimal_digit(v: int) -> char {
    if v == 0 {
        '0'
    } else if v == 1 {
        '1'
    } else if v == 2 {
        '2'
    } else if v == 3 {
        '3'
    } else if v == 4 {
        '4'
    } else if v == 5 {
        '5'
    } else if v == 6 {
        '6'
    } else if v == 7 {
        '7'
    } else if v == 8 {
        '8'
    } else {
        '9'
    }
}

/// The decimal numeral of a number, without sign or leading zeros.
pub open spec fn decimal_of(n: nat) -> Seq<char>
    decreases n,
{
    if n < 10 {
        seq![decimal_digit(n as int)]
    } else {
        decimal_of(n / 10) + seq![decimal_digit((n % 10) as int)]
    }
}

/// The amount text of an offer: "any" without a positive amount, else the
/// amount in millisatoshi followed by "msat".
pub open spec fn offer_amount_text(amount_msat: Option<u64>) -> Seq<char> {
    match amount_msat {
        Some(a) => if a > 0 {
            decimal_of(a as nat) + "msat"@
        } else {
            "any"@
        },
        None => "any"@,
    }
}

/// The one-digit hexadecimal text of a value below 16.
fn hex_digit_text(d: u8) -> (r: String)
    requires
        d < 16,
    ensures
        r@ == seq![hex_digit(d as int)],
{
    proof {
        reveal_strlit("0");
        reveal_strlit("1");
        reveal_strlit("2");
        reveal_strlit("3");
        reveal_strlit("4");
        reveal_strlit("5");
        reveal_strlit("6");
        reveal_strlit("7");
        reveal_strlit("8");
        reveal_strlit("9");
        reveal_strlit("a");
        reveal_strlit("b");
        reveal_strlit("c");
        reveal_strlit("d");
        reveal_strlit("e");
        reveal_strlit("f");
    }
    let t = if d == 0 {
        "0"
    } else if d == 1 {
        "1"
    } else if d == 2 {
        "2"
    } else if d == 3 {
        "3"
    } else if d == 4 {
        "4"
    } else if d == 5 {
        "5"
    } else if d == 6 {
        "6"
    } else if d == 7 {
        "7"
    } else if d == 8 {
        "8"
    } else if d == 9 {
        "9"
    } else if d == 10 {
        "a"
    } else if d == 11 {
        "b"
    } else if d == 12 {
        "c"
    } else if d == 13 {
        "d"
    } else if d == 14 {
        "e"
    } else {
        "f"
    };
    let r = String::from_str(t);
    assert(r@ =~= seq![hex_digit(d as int)]);
    r
}

proof fn lemma_hex_of_push(s: Seq<u8>, x: u8)
    ensures
        hex_of(s.push(x)) == hex_of(s) + seq![hex_digit(x as int / 16), hex_digit(x as int % 16)],
    decreases s.len(),
{
    if s.len() == 0 {
        assert(s.push(x).drop_first() =~= Seq::<u8>::empty());
        assert(hex_of(Seq::<u8>::empty()) == Seq::<char>::empty());
        assert(s.push(x)[0] == x);
        assert(hex_of(s.push(x)) =~= seq![hex_digit(x as int / 16), hex_digit(x as int % 16)]);
    } else {
        lemma_hex_of_push(s.drop_first(), x);
        assert(s.push(x).drop_first() =~= s.drop_first().push(x));
        assert(hex_of(s.push(x)) =~= hex_of(s) + seq![hex_digit(x as int / 16), hex_digit(x as int % 16)]);
    }
}

/// Two lowercase hexadecimal digits per byte, in order.
fn hex_encode(b: &[u8]) -> (r: String)
    ensures
        r@ == hex_of(b@),
{
    let mut out = String::new();
    let mut i: usize = 0;
    while i < b.len()
        invariant
            i <= b@.len(),
            out@ == hex_of(b@.subrange(0, i as int)),
        decreases b@.len() - i,
    {
        let x = b[i];
        let hi = hex_digit_text(x / 16);
        let lo = hex_digit_text(x % 16);
        proof {
            lemma_hex_of_push(b@.subrange(0, i as int), x);
            assert(b@.subrange(0, i + 1) =~= b@.subrange(0, i as int).push(x));
        }
        out = out.concat(hi.as_str());
        out = out.concat(lo.as_str());
        i = i + 1;
    }
    assert(b@.subrange(0, b@.len() as int) =~= b@);
    out
}

/// The one-digit text of a value below 10.
fn digit_text(d: u64) -> (r: String)
    requires
        d < 10,
    ensures
        r@ == seq![decimal_digit(d as int)],
{
    proof {
        reveal_strlit("0");
        reveal_strlit("1");
        reveal_strlit("2");
        reveal_strlit("3");
        reveal_strlit("4");
        reveal_strlit("5");
        reveal_strlit("6");
        reveal_strlit("7");
        reveal_strlit("8");
        reveal_strlit("9");
    }
    let t = if d == 0 {
        "0"
    } else if d == 1 {
        "1"
    } else if d == 2 {
        "2"
    } else if d == 3 {
        "3"
    } else if d == 4 {
        "4"
    } else if d == 5 {
        "5"
    } else if d == 6 {
        "6"
    } else if d == 7 {
        "7"
    } else if d == 8 {
        "8"
    } else {
        "9"
    };
    let r = String::from_str(t);
    assert(r@ =~= seq![decimal_digit(d as int)]);
    r
}

/// The decimal numeral of a number.
fn u64_decimal(n: u64) -> (r: String)
    ensures
        r@ == decimal_of(n as nat),
    decreases n,
{
    if n < 10 {
        digit_text(n)
    } else {
        let head = u64_decimal(n / 10);
        let last = digit_text(n % 10);
        head.concat(last.as_str())
    }
}

/// The credential blob the node service hands out for a node.
pub struct DeviceCredentials {
    pub creds: Vec<u8>,
}

/// An offer to create: an optional amount and a description.
pub struct CreateOfferRequest {
    pub amount_msat: Option<u64>,
    pub description: String,
}

impl CreateOfferRequest {
    /// The request from its loose fields: the description defaults to
    /// "Bolt12 offer".
    pub fn from_fields(amount_msat: Option<u64>, description: Option<String>) -> (r: CreateOfferRequest)
        ensures
            r.amount_msat == amount_msat,
            description matches Some(d) ==> r.description@ == d@,
            description is None ==> r.description@ == default_offer_description(),
    {
        let description = match description {
            Some(d) => d,
            None => String::from_str("Bolt12 offer"),
        };
        CreateOfferRequest { amount_msat, description }
    }

    /// The amount text the node expects for this offer.
    pub fn amount_text(&self) -> (r: String)
        ensures
            r@ == offer_amount_text(self.amount_msat),
    {
        match self.amount_msat {
            Some(a) => if a > 0 {
                u64_decimal(a).concat("msat")
            } else {
                String::from_str("any")
            },
            None => String::from_str("any"),
        }
    }
}

/// One wallet output as the node lists it: its status code (1 is confirmed)
/// and its amount, if known.
pub struct FundsOutput {
    pub status: i32,
    pub amount_msat: Option<u64>,
}

/// The status code of a confirmed output.
pub const CONFIRMED: i32 = 1;

/// The amount an optional value contributes to a sum.
pub open spec fn amount_or_zero(a: Option<u64>) -> int {
    match a {
        Some(v) => v as int,
        None => 0,
    }
}

/// Sum of the confirmed outputs' amounts.
pub open spec fn confirmed_total(outputs: Seq<FundsOutput>) -> int
    decreases outputs.len(),
{
    if outputs.len() == 0 {
        0
    } else {
        confirmed_total(outputs.drop_last()) + if outputs.last().status == CONFIRMED {
            amount_or_zero(outputs.last().amount_msat)
        } else {
            0
        }
    }
}

/// Sum of our side of each channel.
pub open spec fn channel_total(channels: Seq<Option<u64>>) -> int
    decreases channels.len(),
{
    if channels.len() == 0 {
        0
    } else {
        channel_total(channels.drop_last()) + amount_or_zero(channels.last())
    }
}

/// A node's balance, on chain and in channels, in millisatoshi and in whole
/// satoshi (rounded down).
pub struct NodeBalance {
    pub onchain_balance_sat: u64,
    pub onchain_balance_msat: u64,
    pub channel_balance_sat: u64,
    pub channel_balance_msat: u64,
    pub total_balance_sat: u64,
    pub total_balance_msat: u64,
}

proof fn lemma_totals_nonneg(outputs: Seq<FundsOutput>, channels: Seq<Option<u64>>)
    ensures
        confirmed_total(outputs) >= 0,
        channel_total(channels) >= 0,
    decreases outputs.len() + channels.len(),
{
    if outputs.len() > 0 {
        lemma_totals_nonneg(outputs.drop_last(), channels);
    }
    if channels.len() > 0 {
        lemma_totals_nonneg(outputs, channels.drop_last());
    }
}

impl NodeBalance {
    /// The balance from the node's funds listing: the confirmed outputs and
    /// our side of each channel. `None` when a total does not fit in a `u64`.
    pub fn from_funds(outputs: &Vec<FundsOutput>, channels: &Vec<Option<u64>>) -> (r: Option<NodeBalance>)
        ensures
            r is Some <==> confirmed_total(outputs@) + channel_total(channels@) <= u64::MAX,
            r matches Some(b) ==> {
                &&& b.onchain_balance_msat == confirmed_total(outputs@)
                &&& b.channel_balance_msat == channel_total(channels@)
                &&& b.total_balance_msat == confirmed_total(outputs@) + channel_total(channels@)
                &&& b.onchain_balance_sat == b.onchain_balance_msat / 1000
                &&& b.channel_balance_sat == b.channel_balance_msat / 1000
                &&& b.total_balance_sat == b.total_balance_msat / 1000
            },
    {
        proof {
            lemma_totals_nonneg(outputs@, channels@);
        }
        let mut onchain: u64 = 0;
        let mut i: usize = 0;
        while i < outputs.len()
            invariant
                i <= outputs@.len(),
                confirmed_total(outputs@) >= 0,
                channel_total(channels@) >= 0,
                onchain == confirmed_total(outputs@.subrange(0, i as int)),
            decreases outputs@.len() - i,
        {
            let o = &outputs[i];
            proof {
                let s = outputs@.subrange(0, i + 1);
                assert(s.drop_last() == outputs@.subrange(0, i as int));
                lemma_totals_nonneg(outputs@.subrange(0, i + 1), channels@);
                lemma_prefix_bound_outputs(outputs@, i + 1);
            }
            if o.status == CONFIRMED {
                let add: u64 = match o.amount_msat {
                    Some(a) => a,
                    None => 0,
                };
                if add > u64::MAX - onchain {
                    return None;
                }
                onchain = onchain + add;
            }
            i = i + 1;
        }
        assert(outputs@.subrange(0, outputs@.len() as int) == outputs@);
        let mut channel: u64 = 0;
        let mut j: usize = 0;
        while j < channels.len()
            invariant
                j <= channels@.len(),
                confirmed_total(outputs@) >= 0,
                channel_total(channels@) >= 0,
                channel == channel_total(channels@.subrange(0, j as int)),
            decreases channels@.len() - j,
        {
            proof {
                let s = channels@.subrange(0, j + 1);
                assert(s.drop_last() == channels@.subrange(0, j as int));
                lemma_prefix_bound_channels(channels@, j + 1);
            }
            let add: u64 = match channels[j] {
                Some(a) => a,
                None => 0,
            };
            if add > u64::MAX - channel {
                return None;
            }
            channel = channel + add;
            j = j + 1;
        }
        assert(channels@.subrange(0, channels@.len() as int) == channels@);
        if channel > u64::MAX - onchain {
            return None;
        }
        let total = onchain + channel;
        Some(NodeBalance {
            onchain_balance_sat: onchain / 1000,
            onchain_balance_msat: onchain,
            channel_balance_sat: channel / 1000,
            channel_balance_msat: channel,
            total_balance_sat: total / 1000,
            total_balance_msat: total,
        })
    }
}

/// A prefix of the outputs never sums to more than all of them.
proof fn lemma_prefix_bound_outputs(outputs: Seq<FundsOutput>, k: int)
    requires
        0 <= k <= outputs.len(),
    ensures
        confirmed_total(outputs.subrange(0, k)) <= confirmed_total(outputs),
    decreases outputs.len() - k,
{
    if k < outputs.len() {
        lemma_prefix_bound_outputs(outputs, k + 1);
        let s = outputs.subrange(0, k + 1);
        assert(s.drop_last() == outputs.subrange(0, k));
    } else {
        assert(outputs.subrange(0, k) == outputs);
    }
}

/// A prefix of the channels never sums to more than all of them.
proof fn lemma_prefix_bound_channels(channels: Seq<Option<u64>>, k: int)
    requires
        0 <= k <= channels.len(),
    ensures
        channel_total(channels.subrange(0, k)) <= channel_total(channels),
    decreases channels.len() - k,
{
    if k < channels.len() {
        lemma_prefix_bound_channels(channels, k + 1);
        let s = channels.subrange(0, k + 1);
        assert(s.drop_last() == channels.subrange(0, k));
    } else {
        assert(channels.subrange(0, k) == channels);
    }
}

/// What the node reports about itself, ready to hand out: ids and colours as
/// lowercase hex, missing fees as zero.
pub struct NodeInfo {
    pub node_id: String,
    pub alias: Option<String>,
    pub color: String,
    pub num_peers: u32,
    pub num_pending_channels: u32,
    pub num_active_channels: u32,
    pub num_inactive_channels: u32,
    pub blockheight: u32,
    pub network: String,
    pub fees_collected_msat: u64,
}

impl NodeInfo {
    /// The report from the node's raw answer.
    pub fn from_fields(
        id: &[u8],
        alias: Option<String>,
        color: &[u8],
        counts: (u32, u32, u32, u32),
        blockheight: u32,
        network: String,
        fees_collected_msat: Option<u64>,
    ) -> (r: NodeInfo)
        ensures
            r.node_id@ == hex_of(id@),
            r.color@ == hex_of(color@),
            r.alias == alias,
            r.num_peers == counts.0,
            r.num_pending_channels == counts.1,
            r.num_active_channels == counts.2,
            r.num_inactive_channels == counts.3,
            r.blockheight == blockheight,
            r.network == network,
            r.fees_collected_msat == amount_or_zero(fees_collected_msat),
    {
        NodeInfo {
            node_id: hex_encode(id),
            alias,
            color: hex_encode(color),
            num_peers: counts.0,
            num_pending_channels: counts.1,
            num_active_channels: counts.2,
            num_inactive_channels: counts.3,
            blockheight,
            network,
            fees_collected_msat: match fees_collected_msat {
                Some(f) => f,
                None => 0,
            },
        }
    }
}

/// A created offer, ready to hand out.
pub struct OfferInfo {
    pub bolt12: String,
    pub offer_id: String,
    pub description: String,
    pub amount_msat: Option<u64>,
    pub active: bool,
}

impl OfferInfo {
    /// The report from the node's answer and the request it answered: the id
    /// as lowercase hex, active while unused.
    pub fn from_fields(bolt12: String, offer_id: &[u8], used: bool, request: CreateOfferRequest) -> (r: OfferInfo)
        ensures
            r.bolt12 == bolt12,
            r.offer_id@ == hex_of(offer_id@),
            r.description == request.description,
            r.amount_msat == request.amount_msat,
            r.active == !used,
    {
        OfferInfo {
            bolt12,
            offer_id: hex_encode(offer_id),
            description: request.description,
            amount_msat: request.amount_msat,
            active: !used,
        }
    }
}

/// The client of the node-provisioning service, bound to its configuration.
pub struct GreenlightService {
    pub config: Config,
}

impl GreenlightService {
    pub fn new(config: Config) -> (r: Self)
        ensures
            r.config == config,
    {
        Self { config }
    }
}

} // verus!
