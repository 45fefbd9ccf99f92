use vstd::prelude::*;

verus! {

/// The kinds of wallet transaction records.
#[derive(Clone, Copy, Debug, PartialEq, Eq, Structural)]
pub enum RecordKind {
    Reorg,
    Stasis,
    Incoming,
    TransferIncoming,
    External,
    Outgoing,
    TransferOutgoing,
    Batch,
    Change,
}

/// What the transaction list reads of a record: its kind, whether it moves
/// funds between the wallet's accounts, and its amounts in sompi.
#[derive(Clone, Copy, Debug, PartialEq, Eq, Structural)]
pub struct RecordSummary {
    pub kind: RecordKind,
    pub is_transfer: bool,
    /// The value received (for incoming kinds).
    pub value: u64,
    /// The amount paid, when the record pays someone (outgoing kinds).
    pub payment_value: Option<u64>,
    pub fees: u64,
    pub aggregate_input_value: u64,
    pub change_value: u64,
}

/// The icon a record's line starts with.
#[derive(Clone, Copy, Debug, PartialEq, Eq, Structural)]
pub enum HeaderIcon {
    /// Funds moved between the wallet's accounts.
    Transfer,
    Incoming,
    Outgoing,
    Batch,
}

/// The line a record is listed with.
#[derive(Clone, Copy, Debug, PartialEq, Eq, Structural)]
pub enum Header {
    /// Funds received: the amount, and whether the maturity progress is
    /// shown before it.
    Received { icon: HeaderIcon, amount: u64, maturity_progress: bool },
    /// A payment: the amount paid with its fees, and whether it is still
    /// being submitted.
    Sent { icon: HeaderIcon, amount: u64, submitting: bool },
    /// A sweep of the account's funds: what went in, the fees and the change.
    Sweep { inputs: u64, fees: u64, change: u64 },
    /// A batch transaction: its inputs, and whether it is still being
    /// submitted.
    Batch { amount: u64, submitting: bool },
}

/// Whether a record is still being submitted: it is known not to be
/// mature.
pub open spec fn submitting(maturity: Option<bool>) -> bool {
    maturity == Some(false)
}

/// The line a record is listed with, given its maturity (when known),
/// whether the current DAA score is known, and whether the record gives a
/// maturity progress at that score; change records are not listed.
pub open spec fn header_of(r: RecordSummary, maturity: Option<bool>, daa_known: bool, has_progress: bool) -> Option<Header> {
    match r.kind {
        RecordKind::Reorg | RecordKind::Stasis | RecordKind::Incoming | RecordKind::TransferIncoming | RecordKind::External => Some(Header::Received {
            icon: if r.is_transfer { HeaderIcon::Transfer } else { HeaderIcon::Incoming },
            amount: r.value,
            maturity_progress: maturity != Some(true) && daa_known && has_progress,
        }),
        RecordKind::Outgoing | RecordKind::TransferOutgoing => match r.payment_value {
            Some(p) => Some(Header::Sent {
                icon: if r.is_transfer { HeaderIcon::Transfer } else { HeaderIcon::Outgoing },
                amount: (p + r.fees) as u64,
                submitting: submitting(maturity),
            }),
            None => Some(Header::Sweep { inputs: r.aggregate_input_value, fees: r.fees, change: r.change_value }),
        },
        RecordKind::Batch => Some(Header::Batch { amount: r.aggregate_input_value, submitting: submitting(maturity) }),
        RecordKind::Change => None,
    }
}

/// The line a record of the transaction list is listed with; `has_progress`
/// says whether the record gives a maturity progress at the current DAA
/// score, and is read only when that score is known.
pub fn transaction_header(r: &RecordSummary, maturity: Option<bool>, daa_known: bool, has_progress: bool) -> (h: Option<Header>)
    requires
        r.payment_value matches Some(p) ==> p + r.fees <= u64::MAX,
    ensures
        h == header_of(*r, maturity, daa_known, has_progress),
{
    let sub = match maturity {
        Some(m) => !m,
        None => false,
    };
    match r.kind {
        RecordKind::Reorg | RecordKind::Stasis | RecordKind::Incoming | RecordKind::TransferIncoming | RecordKind::External => {
            let mature = match maturity {
                Some(m) => m,
                None => false,
            };
            Some(Header::Received {
                icon: if r.is_transfer { HeaderIcon::Transfer } else { HeaderIcon::Incoming },
                amount: r.value,
                maturity_progress: !mature && daa_known && has_progress,
            })
        },
        RecordKind::Outgoing | RecordKind::TransferOutgoing => match r.payment_value {
            Some(p) => Some(Header::Sent {
                icon: if r.is_transfer { HeaderIcon::Transfer } else { HeaderIcon::Outgoing },
                amount: p + r.fees,
                submitting: sub,
            }),
            None => Some(Header::Sweep { inputs: r.aggregate_input_value, fees: r.fees, change: r.change_value }),
        },
        RecordKind::Batch => Some(Header::Batch { amount: r.aggregate_input_value, submitting: sub }),
        RecordKind::Change => None,
    }
}

/// The maturity a record is listed with: confirmed records are mature,
/// records being processed are not, others are not known.
#[derive(Clone, Copy, Debug, PartialEq, Eq, Structural)]
pub enum Listing {
    Confirmed,
    Processing,
    Plain,
}

/// The maturity a record listed as confirmed, processing or plain has.
pub fn maturity_of(l: Listing) -> (r: Option<bool>)
    ensures
        r == match l {
            Listing::Confirmed => Some(true),
            Listing::Processing => Some(false),
            Listing::Plain => None::<bool>,
        },
{
    match l {
        Listing::Confirmed => Some(true),
        Listing::Processing => Some(false),
        Listing::Plain => None,
    }
}

/// The key a record's line is kept open under: the first 16 characters of
/// its binding and of its id, joined by a dash.
pub fn record_identifier(binding_hex: &str, transaction_id: &str) -> (r: String)
    requires
        binding_hex@.len() >= 16,
        transaction_id@.len() >= 16,
    ensures
        r@ == binding_hex@.subrange(0, 16) + "-"@ + transaction_id@.subrange(0, 16),
{
    let mut s = binding_hex.substring_char(0, 16).to_owned();
    s.append("-");
    s.append(transaction_id.substring_char(0, 16));
    s
}

/// A record still being submitted shows as such whatever its kind: a
/// payment or batch whose maturity is known to be false is marked
/// submitting, and a mature one never is.
pub proof fn lemma_submitting_marks(r: RecordSummary, maturity: Option<bool>, daa_known: bool, has_progress: bool)
    ensures
        header_of(r, maturity, daa_known, has_progress) matches Some(Header::Sent { submitting, .. }) ==> submitting == (maturity == Some(false)),
        header_of(r, maturity, daa_known, has_progress) matches Some(Header::Batch { submitting, .. }) ==> submitting == (maturity == Some(false)),
        maturity == Some(true) ==> !(header_of(r, maturity, daa_known, has_progress) matches Some(Header::Received { maturity_progress: true, .. })),
{
}

/// What orders a record in the transaction list: its time, when known, and
/// the DAA score of its block.
#[derive(Clone, Copy, Debug, PartialEq, Eq, Structural)]
pub struct OrderKey {
    pub unixtime_msec: Option<u64>,
    pub block_daa_score: u64,
}

/// Whether record `a` is listed before record `b`: the newer time first
/// when both times are known, else the higher DAA score first.
pub open spec fn listed_before(a: OrderKey, b: OrderKey) -> bool {
    match (a.unixtime_msec, b.unixtime_msec) {
        (Some(ta), Some(tb)) => tb < ta,
        _ => b.block_daa_score < a.block_daa_score,
    }
}

/// Whether neither record goes before the other.
pub open spec fn tied(a: OrderKey, b: OrderKey) -> bool {
    !listed_before(a, b) && !listed_before(b, a)
}

/// Tied records are listed in the order they were given.
pub open spec fn keeps_ties(keys: Seq<OrderKey>, order: Seq<usize>) -> bool {
    forall|a: int, b: int| 0 <= a < b < order.len() && tied(keys[order[a] as int], keys[order[b] as int])
        ==> #[trigger] order[a] < #[trigger] order[b]
}

fn is_listed_before(a: OrderKey, b: OrderKey) -> (r: bool)
    ensures
        r == listed_before(a, b),
{
    match (a.unixtime_msec, b.unixtime_msec) {
        (Some(ta), Some(tb)) => tb < ta,
        _ => b.block_daa_score < a.block_daa_score,
    }
}

/// Whether `order` lists each of `n` records exactly once.
pub open spec fn is_order_of(order: Seq<usize>, n: int) -> bool {
    &&& order.len() == n
    &&& forall|k: int| 0 <= k < order.len() ==> #[trigger] order[k] < n
    &&& forall|a: int, b: int| 0 <= a < b < order.len() ==> #[trigger] order[a] != #[trigger] order[b]
}

/// No two neighbours of the listing are out of order.
pub open spec fn neighbours_ordered(keys: Seq<OrderKey>, order: Seq<usize>) -> bool {
    forall|k: int| 0 <= k < order.len() - 1 ==> !listed_before(keys[order[k + 1] as int], #[trigger] keys[order[k] as int])
}

proof fn lemma_insert_keeps_order(keys: Seq<OrderKey>, old_order: Seq<usize>, pos: int, i: usize)
    requires
        0 <= pos <= old_order.len(),
        i < keys.len(),
        is_order_of(old_order, i as int),
        neighbours_ordered(keys, old_order),
        pos > 0 ==> !listed_before(keys[i as int], keys[old_order[pos - 1] as int]),
        forall|k: int| pos <= k < old_order.len() ==> listed_before(keys[i as int], #[trigger] keys[old_order[k] as int]),
    ensures
        is_order_of(old_order.insert(pos, i), i + 1),
        neighbours_ordered(keys, old_order.insert(pos, i)),
{
    let o = old_order.insert(pos, i);
    let key = keys[i as int];
    assert forall|k: int| 0 <= k < o.len() implies #[trigger] o[k] < i + 1 by {
        if k < pos {
            assert(o[k] == old_order[k]);
        } else if k > pos {
            assert(o[k] == old_order[k - 1]);
        }
    }
    assert forall|a: int, b: int| 0 <= a < b < o.len() implies #[trigger] o[a] != #[trigger] o[b] by {
        if a == pos {
            assert(o[b] == old_order[b - 1]);
        } else if b == pos {
            assert(o[a] == old_order[a]);
        } else {
            let oa = if a < pos { a } else { a - 1 };
            let ob = if b < pos { b } else { b - 1 };
            assert(o[a] == old_order[oa]);
            assert(o[b] == old_order[ob]);
        }
    }
    assert forall|k: int| 0 <= k < o.len() - 1 implies !listed_before(keys[o[k + 1] as int], #[trigger] keys[o[k] as int]) by {
        if k + 1 < pos {
            assert(o[k] == old_order[k]);
            assert(o[k + 1] == old_order[k + 1]);
        } else if k + 1 == pos {
            assert(o[k] == old_order[k]);
            assert(o[k + 1] == i);
        } else if k == pos {
            assert(o[k] == i);
            assert(o[k + 1] == old_order[k]);
            assert(listed_before(key, keys[old_order[k] as int]));
        } else {
            assert(o[k] == old_order[k - 1]);
            assert(o[k + 1] == old_order[k]);
        }
    }
}

proof fn lemma_insert_keeps_ties(keys: Seq<OrderKey>, old_order: Seq<usize>, pos: int, i: usize)
    requires
        0 <= pos <= old_order.len(),
        i < keys.len(),
        is_order_of(old_order, i as int),
        keeps_ties(keys, old_order),
        forall|k: int| pos <= k < old_order.len() ==> listed_before(keys[i as int], #[trigger] keys[old_order[k] as int]),
    ensures
        keeps_ties(keys, old_order.insert(pos, i)),
{
    let o = old_order.insert(pos, i);
    let key = keys[i as int];
    assert forall|a: int, b: int| 0 <= a < b < o.len() && tied(keys[o[a] as int], keys[o[b] as int]) implies #[trigger] o[a] < #[trigger] o[b] by {
        if a == pos {
            assert(o[b] == old_order[b - 1]);
            assert(listed_before(key, keys[old_order[b - 1] as int]));
        } else if b == pos {
            assert(o[a] == old_order[a]);
            assert(old_order[a] < i);
        } else {
            let oa = if a < pos { a } else { a - 1 };
            let ob = if b < pos { b } else { b - 1 };
            assert(o[a] == old_order[oa]);
            assert(o[b] == old_order[ob]);
        }
    }
}

/// The order the transaction list shows records in: each record once,
/// newest first. Records neither of which goes before the other keep their
/// order.
pub fn order_transactions(keys: &Vec<OrderKey>) -> (order: Vec<usize>)
    ensures
        is_order_of(order@, keys@.len() as int),
        neighbours_ordered(keys@, order@),
        keeps_ties(keys@, order@),
{
    let mut order: Vec<usize> = Vec::new();
    let mut i: usize = 0;
    while i < keys.len()
        invariant
            i <= keys@.len(),
            is_order_of(order@, i as int),
            neighbours_ordered(keys@, order@),
            keeps_ties(keys@, order@),
        decreases keys@.len() - i,
    {
        let key = keys[i];
        let mut pos: usize = order.len();
        while pos > 0 && is_listed_before(key, keys[order[pos - 1]])
            invariant
                pos <= order@.len(),
                i < keys@.len(),
                key == keys@[i as int],
                is_order_of(order@, i as int),
                forall|k: int| pos <= k < order@.len() ==> listed_before(key, #[trigger] keys@[order@[k] as int]),
            decreases pos,
        {
            pos = pos - 1;
        }
        let ghost old_order = order@;
        proof {
            lemma_insert_keeps_order(keys@, old_order, pos as int, i);
            lemma_insert_keeps_ties(keys@, old_order, pos as int, i);
        }
        order.insert(pos, i);
        i = i + 1;
    }
    order
}

/// When every record has a known time, or none has, the listing is newest
/// first throughout: by time, or by DAA score.
pub proof fn lemma_uniform_listing_sorted(keys: Seq<OrderKey>, order: Seq<usize>)
    requires
        is_order_of(order, keys.len() as int),
        neighbours_ordered(keys, order),
    ensures
        (forall|k: int| 0 <= k < keys.len() ==> #[trigger] keys[k].unixtime_msec is Some) ==> forall|a: int, b: int|
            0 <= a < b < order.len() ==> keys[order[b] as int].unixtime_msec->0 <= keys[order[a] as int].unixtime_msec->0,
        (forall|k: int| 0 <= k < keys.len() ==> #[trigger] keys[k].unixtime_msec is None) ==> forall|a: int, b: int|
            0 <= a < b < order.len() ==> keys[order[b] as int].block_daa_score <= keys[order[a] as int].block_daa_score,
    decreases order.len(),
{
    if order.len() > 1 {
        let init = order.drop_last();
        assert forall|k: int| 0 <= k < init.len() - 1 implies !listed_before(keys[init[k + 1] as int], #[trigger] keys[init[k] as int]) by {
            assert(init[k] == order[k]);
            assert(init[k + 1] == order[k + 1]);
        }
        assert forall|a: int, b: int| 0 <= a < b < init.len() implies #[trigger] init[a] != #[trigger] init[b] by {
            assert(init[a] == order[a]);
            assert(init[b] == order[b]);
        }
        lemma_uniform_listing_sorted_prefix(keys, order, order.len() - 1);
    }
}

proof fn lemma_uniform_listing_sorted_prefix(keys: Seq<OrderKey>, order: Seq<usize>, m: int)
    requires
        0 <= m < order.len(),
        forall|k: int| 0 <= k < order.len() ==> #[trigger] order[k] < keys.len(),
        neighbours_ordered(keys, order),
    ensures
        (forall|k: int| 0 <= k < keys.len() ==> #[trigger] keys[k].unixtime_msec is Some) ==> forall|a: int, b: int|
            0 <= a < b <= m ==> keys[order[b] as int].unixtime_msec->0 <= keys[order[a] as int].unixtime_msec->0,
        (forall|k: int| 0 <= k < keys.len() ==> #[trigger] keys[k].unixtime_msec is None) ==> forall|a: int, b: int|
            0 <= a < b <= m ==> keys[order[b] as int].block_daa_score <= keys[order[a] as int].block_daa_score,
    decreases m,
{
    if m > 0 {
        lemma_uniform_listing_sorted_prefix(keys, order, m - 1);
        let prev = keys[order[m - 1] as int];
        let last = keys[order[m] as int];
        assert(!listed_before(last, prev));
        assert(order[m - 1] < keys.len() && order[m] < keys.len());
    }
}

/// Whether a record kind is listed as funds received.
pub open spec fn received_kind(k: RecordKind) -> bool {
    k == RecordKind::Reorg || k == RecordKind::Stasis || k == RecordKind::Incoming
        || k == RecordKind::TransferIncoming || k == RecordKind::External
}

/// A received record shows its maturity progress exactly when it is not
/// known to be mature, the current score is known and the record gives a
/// progress at it; a record known not to be mature shows it as a record of
/// unknown maturity does.
pub proof fn lemma_received_progress(r: RecordSummary, maturity: Option<bool>, daa_known: bool, has_progress: bool)
    requires
        received_kind(r.kind),
    ensures
        header_of(r, maturity, daa_known, has_progress) matches Some(Header::Received { amount, maturity_progress, .. })
            && amount == r.value
            && maturity_progress == (maturity != Some(true) && daa_known && has_progress),
        header_of(r, Some(false), daa_known, has_progress) == header_of(r, None, daa_known, has_progress),
{
}

/// The line of each kind of record: payments list the amount paid with its
/// fees, with the transfer icon exactly for transfers; payments without a
/// paid amount are sweeps of inputs, fees and change; batches list their
/// inputs; change records are not listed; a payment or batch is marked
/// submitting exactly when it is known not to be mature.
pub proof fn lemma_header_by_kind(r: RecordSummary, maturity: Option<bool>, daa_known: bool, has_progress: bool)
    requires
        r.payment_value matches Some(p) ==> p + r.fees <= u64::MAX,
    ensures
        (r.kind == RecordKind::Outgoing || r.kind == RecordKind::TransferOutgoing) ==> match r.payment_value {
            Some(p) => header_of(r, maturity, daa_known, has_progress) matches Some(Header::Sent { icon, amount, submitting })
                && amount == p + r.fees
                && (icon == HeaderIcon::Transfer) == r.is_transfer
                && submitting == (maturity == Some(false)),
            None => header_of(r, maturity, daa_known, has_progress)
                == Some(Header::Sweep { inputs: r.aggregate_input_value, fees: r.fees, change: r.change_value }),
        },
        r.kind == RecordKind::Batch ==> header_of(r, maturity, daa_known, has_progress)
            == Some(Header::Batch { amount: r.aggregate_input_value, submitting: maturity == Some(false) }),
        (header_of(r, maturity, daa_known, has_progress) is None) == (r.kind == RecordKind::Change),
        received_kind(r.kind) ==> (header_of(r, maturity, daa_known, has_progress) matches Some(Header::Received { icon, .. })
            && (icon == HeaderIcon::Transfer) == r.is_transfer),
{
}

} // verus!
