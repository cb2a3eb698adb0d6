//! The bundles settings tab: the order its up and down arrows ask for.
//!
//! Each bundle row has an up arrow (off on the first row) and a down arrow
//! (off on the last row). Pressing one sends `ReorderBundles` with the ids
//! in their current order, the row swapped with its neighbour.

use vstd::prelude::*;

use crate::config::BundleRow;

verus! {

/// The ids of the rows, in order.
pub open spec fn row_ids(rows: Seq<BundleRow>) -> Seq<String> {
    rows.map_values(|b: BundleRow| b.id)
}

/// `s` with the entries at `i` and `j` exchanged.
pub open spec fn swapped<T>(s: Seq<T>, i: int, j: int) -> Seq<T> {
    s.update(i, s[j]).update(j, s[i])
}

/// Whether the arrow of row `i` is on: up for every row but the first,
/// down for every row but the last.
pub open spec fn arrow_enabled(len: int, i: int, up: bool) -> bool {
    0 <= i < len && if up {
        i > 0
    } else {
        i + 1 < len
    }
}

/// The neighbour row an arrow swaps with.
pub open spec fn neighbour(i: int, up: bool) -> int {
    if up {
        i - 1
    } else {
        i + 1
    }
}

/// The id order that the up (`up`) or down arrow of row `i` sends: the
/// ids with row `i` and its neighbour exchanged; none where that arrow is
/// off.
pub fn moved_order(rows: &Vec<BundleRow>, i: usize, up: bool) -> (r: Option<Vec<String>>)
    ensures
        r is None <==> !arrow_enabled(rows@.len() as int, i as int, up),
        r matches Some(v) ==> v@ == swapped(row_ids(rows@), i as int, neighbour(i as int, up)),
{
    let n = rows.len();
    if i >= n || (up && i == 0) || (!up && i + 1 >= n) {
        return None;
    }
    let j: usize = if up {
        i - 1
    } else {
        i + 1
    };
    let ghost target = swapped(row_ids(rows@), i as int, j as int);
    let mut out: Vec<String> = Vec::new();
    let mut k: usize = 0;
    while k < n
        invariant
            n == rows@.len(),
            i < n,
            j < n,
            target == swapped(row_ids(rows@), i as int, j as int),
            k <= n,
            out@.len() == k,
            forall|m: int| 0 <= m < k ==> #[trigger] out@[m] == target[m],
        decreases n - k,
    {
        let from: usize = if k == i {
            j
        } else if k == j {
            i
        } else {
            k
        };
        out.push(rows[from].id.clone());
        k = k + 1;
    }
    proof {
        assert(out@ =~= target);
    }
    Some(out)
}

} // verus!
