//! The search-tree browser: the order in which a node's edges are listed
//! and the move that a node's position is shown with.

use vstd::prelude::*;
use vstd::string::StringExecFns;

use crate::text::{decimal, decimal_text};

verus! {

/// What an edge is ranked by: its visit count, then its prior. The prior is
/// carried as an integer key that orders as the prior does.
#[derive(Clone, Copy, PartialEq, Eq, Structural, Debug)]
pub struct EdgeRank {
    pub visits: u32,
    pub prior_key: i64,
}

/// Edge `a` is listed before edge `b`: more visits first, then the higher
/// prior, and among equals the edge that came first.
pub open spec fn edge_before(r: Seq<EdgeRank>, a: int, b: int) -> bool {
    ||| r[a].visits > r[b].visits
    ||| r[a].visits == r[b].visits && r[a].prior_key > r[b].prior_key
    ||| r[a].visits == r[b].visits && r[a].prior_key == r[b].prior_key && a < b
}

/// `order` lists every edge of `r` once, in listing order.
pub open spec fn is_edge_order(r: Seq<EdgeRank>, order: Seq<usize>) -> bool {
    &&& order.len() == r.len()
    &&& forall|i: int| 0 <= i < order.len() ==> (#[trigger] order[i]) < r.len()
    &&& forall|x: usize| x < r.len() ==> #[trigger] order.contains(x)
    &&& forall|i: int, j: int|
        0 <= i < j < order.len() ==> edge_before(r, #[trigger] order[i] as int, #[trigger] order[j] as int)
}

fn goes_before(ranks: &Vec<EdgeRank>, a: usize, b: usize) -> (r: bool)
    requires
        a < ranks@.len(),
        b < ranks@.len(),
    ensures
        r == edge_before(ranks@, a as int, b as int),
{
    let ra = ranks[a];
    let rb = ranks[b];
    if ra.visits != rb.visits {
        ra.visits > rb.visits
    } else if ra.prior_key != rb.prior_key {
        ra.prior_key > rb.prior_key
    } else {
        a < b
    }
}

/// The order in which a node's edges are listed: by visit count, highest
/// first, then by prior, highest first; edges that tie keep their order.
pub fn rank_edges(ranks: &Vec<EdgeRank>) -> (order: Vec<usize>)
    ensures
        is_edge_order(ranks@, order@),
{
    let n = ranks.len();
    let mut order: Vec<usize> = Vec::new();
    let mut k: usize = 0;
    while k < n
        invariant
            n == ranks@.len(),
            0 <= k <= n,
            order@.len() == k,
            forall|i: int| 0 <= i < order@.len() ==> (#[trigger] order@[i]) < k,
            forall|x: usize| x < k ==> #[trigger] order@.contains(x),
            forall|i: int, j: int|
                0 <= i < j < order@.len() ==> edge_before(
                    ranks@,
                    #[trigger] order@[i] as int,
                    #[trigger] order@[j] as int,
                ),
        decreases n - k,
    {
        let mut p: usize = 0;
        while p < order.len()
            invariant
                n == ranks@.len(),
                k < n,
                0 <= p <= order@.len(),
                forall|i: int| 0 <= i < order@.len() ==> (#[trigger] order@[i]) < k,
                forall|q: int| 0 <= q < p ==> !edge_before(ranks@, k as int, #[trigger] order@[q] as int),
            ensures
                0 <= p <= order@.len(),
                forall|q: int| 0 <= q < p ==> !edge_before(ranks@, k as int, #[trigger] order@[q] as int),
                p == order@.len() || edge_before(ranks@, k as int, order@[p as int] as int),
            decreases order@.len() - p,
        {
            if goes_before(ranks, k, order[p]) {
                break;
            }
            p = p + 1;
        }
        let ghost old_order = order@;
        order.insert(p, k);
        proof {
            assert(p == old_order.len() || edge_before(ranks@, k as int, old_order[p as int] as int));
            assert forall|i: int, j: int| 0 <= i < j < order@.len() implies edge_before(
                ranks@,
                #[trigger] order@[i] as int,
                #[trigger] order@[j] as int,
            ) by {
                if j < p {
                    assert(order@[i] == old_order[i] && order@[j] == old_order[j]);
                } else if j == p {
                    assert(order@[i] == old_order[i]);
                    assert(!edge_before(ranks@, k as int, old_order[i] as int));
                } else if i < p {
                    assert(order@[i] == old_order[i] && order@[j] == old_order[j - 1]);
                } else if i == p {
                    assert(order@[j] == old_order[j - 1]);
                    if j - 1 > p {
                        assert(edge_before(ranks@, old_order[p as int] as int, old_order[j - 1] as int));
                    }
                } else {
                    assert(order@[i] == old_order[i - 1] && order@[j] == old_order[j - 1]);
                }
            }
            assert forall|x: usize| x < k + 1 implies #[trigger] order@.contains(x) by {
                if x == k {
                    assert(order@[p as int] == k);
                } else {
                    assert(old_order.contains(x));
                    let q = choose|q: int| 0 <= q < old_order.len() && old_order[q] == x;
                    if q < p {
                        assert(order@[q] == x);
                    } else {
                        assert(order@[q + 1] == x);
                    }
                }
            }
        }
        k = k + 1;
    }
    order
}

proof fn lemma_sorted_orders_equal(r: Seq<EdgeRank>, a: Seq<usize>, b: Seq<usize>)
    requires
        a.len() == b.len(),
        forall|i: int| 0 <= i < a.len() ==> (#[trigger] a[i]) < r.len(),
        forall|i: int| 0 <= i < b.len() ==> (#[trigger] b[i]) < r.len(),
        forall|x: usize| #[trigger] a.contains(x) <==> b.contains(x),
        forall|i: int, j: int|
            0 <= i < j < a.len() ==> edge_before(r, #[trigger] a[i] as int, #[trigger] a[j] as int),
        forall|i: int, j: int|
            0 <= i < j < b.len() ==> edge_before(r, #[trigger] b[i] as int, #[trigger] b[j] as int),
    ensures
        a == b,
    decreases a.len(),
{
    if a.len() == 0 {
        assert(a =~= b);
    } else {
        assert(a.contains(a[0]));
        assert(b.contains(a[0]));
        let j = choose|j: int| 0 <= j < b.len() && b[j] == a[0];
        assert(b.contains(b[0]));
        assert(a.contains(b[0]));
        let i = choose|i: int| 0 <= i < a.len() && a[i] == b[0];
        if j > 0 {
            assert(edge_before(r, b[0] as int, b[j] as int));
            if i == 0 {
                assert(false);
            } else {
                assert(edge_before(r, a[0] as int, a[i] as int));
                assert(false);
            }
        }
        assert(a[0] == b[0]);
        let ta = a.drop_first();
        let tb = b.drop_first();
        assert forall|x: usize| #[trigger] ta.contains(x) <==> tb.contains(x) by {
            if ta.contains(x) {
                let k = choose|k: int| 0 <= k < ta.len() && ta[k] == x;
                assert(a[k + 1] == x);
                assert(edge_before(r, a[0] as int, a[k + 1] as int));
                assert(x != a[0]);
                assert(a.contains(x));
                assert(b.contains(x));
                let m = choose|m: int| 0 <= m < b.len() && b[m] == x;
                assert(m != 0);
                assert(tb[m - 1] == x);
            }
            if tb.contains(x) {
                let k = choose|k: int| 0 <= k < tb.len() && tb[k] == x;
                assert(b[k + 1] == x);
                assert(edge_before(r, b[0] as int, b[k + 1] as int));
                assert(x != b[0]);
                assert(b.contains(x));
                assert(a.contains(x));
                let m = choose|m: int| 0 <= m < a.len() && a[m] == x;
                assert(m != 0);
                assert(ta[m - 1] == x);
            }
        }
        assert forall|p: int, q: int| 0 <= p < q < ta.len() implies edge_before(
            r,
            #[trigger] ta[p] as int,
            #[trigger] ta[q] as int,
        ) by {
            assert(ta[p] == a[p + 1] && ta[q] == a[q + 1]);
        }
        assert forall|p: int, q: int| 0 <= p < q < tb.len() implies edge_before(
            r,
            #[trigger] tb[p] as int,
            #[trigger] tb[q] as int,
        ) by {
            assert(tb[p] == b[p + 1] && tb[q] == b[q + 1]);
        }
        assert forall|p: int| 0 <= p < ta.len() implies (#[trigger] ta[p]) < r.len() by {
            assert(ta[p] == a[p + 1]);
        }
        assert forall|p: int| 0 <= p < tb.len() implies (#[trigger] tb[p]) < r.len() by {
            assert(tb[p] == b[p + 1]);
        }
        lemma_sorted_orders_equal(r, ta, tb);
        assert(a =~= seq![a[0]] + ta);
        assert(b =~= seq![b[0]] + tb);
    }
}

/// The listing order of a node's edges is determined by their ranks: two
/// orders that both list every edge once in listing order are the same.
pub proof fn lemma_edge_order_unique(r: Seq<EdgeRank>, o1: Seq<usize>, o2: Seq<usize>)
    requires
        is_edge_order(r, o1),
        is_edge_order(r, o2),
    ensures
        o1 == o2,
{
    assert forall|x: usize| #[trigger] o1.contains(x) <==> o2.contains(x) by {
        if o1.contains(x) {
            let k = choose|k: int| 0 <= k < o1.len() && o1[k] == x;
            assert(x < r.len());
        }
        if o2.contains(x) {
            let k = choose|k: int| 0 <= k < o2.len() && o2[k] == x;
            assert(x < r.len());
        }
    }
    lemma_sorted_orders_equal(r, o1, o2);
}

/// The move that led to a node's position: for a chance node, whose position
/// is the one before a reveal, the reveal that its outcomes share (read off
/// its first outcome) when there is one; otherwise the node's own last move.
pub fn reaching_action(
    is_chance: bool,
    outcome_action: Option<usize>,
    own_action: Option<usize>,
) -> (r: Option<usize>)
    ensures
        r == if is_chance && outcome_action is Some {
            outcome_action
        } else {
            own_action
        },
{
    if is_chance {
        match outcome_action {
            Some(a) => Some(a),
            None => own_action,
        }
    } else {
        own_action
    }
}

/// The message for a node that kept no position.
pub open spec fn msg_node_without_position(node_id: nat) -> Seq<char> {
    "节点 "@ + decimal(node_id) + " 未保存局面"@
}

/// Says that node `node_id` kept no position.
pub fn node_without_position(node_id: usize) -> (m: String)
    ensures
        m@ == msg_node_without_position(node_id as nat),
{
    let mut m = String::from_str("节点 ");
    let d = decimal_text(node_id);
    m.append(d.as_str());
    m.append(" 未保存局面");
    m
}

} // verus!
