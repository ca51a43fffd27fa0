//! What the traffic figures have in common.
use crate::time::UtcTime;
use crate::traffic::{ServerTraffic, VpnSparklineWindow, VpnStatsRow};
use vstd::prelude::*;

verus! {

proof fn lemma_taken_out(
    rows: Seq<VpnStatsRow>,
    k: int,
    now: UtcTime,
    w: VpnSparklineWindow,
    i: int,
)
    requires
        0 <= k < rows.len(),
    ensures
        crate::traffic::up_in(rows, now, w, i) == crate::traffic::up_in(rows.remove(k), now, w, i)
            + crate::traffic::up_in(seq![rows[k]], now, w, i),
        crate::traffic::down_in(rows, now, w, i) == crate::traffic::down_in(
            rows.remove(k),
            now,
            w,
            i,
        ) + crate::traffic::down_in(seq![rows[k]], now, w, i),
    decreases rows.len(),
{
    reveal_with_fuel(crate::traffic::up_in, 2);
    reveal_with_fuel(crate::traffic::down_in, 2);
    let one = seq![rows[k]];
    assert(one.drop_last() =~= Seq::empty());
    assert(one.last() == rows[k]);
    if k == rows.len() - 1 {
        assert(rows.remove(k) =~= rows.drop_last());
    } else {
        lemma_taken_out(rows.drop_last(), k, now, w, i);
        assert(rows.remove(k).drop_last() =~= rows.drop_last().remove(k));
        assert(rows.remove(k).last() == rows.last());
        assert(rows.drop_last()[k] == rows[k]);
    }
}

/// What the series take of a row: its instant and its bytes in each direction.
pub open spec fn figures(rows: Seq<VpnStatsRow>) -> Seq<(int, u64, u64)> {
    rows.map_values(|r: VpnStatsRow| (r.ts.stamp(), r.upload_bytes, r.download_bytes))
}

proof fn lemma_cells_reordered(
    a: Seq<VpnStatsRow>,
    b: Seq<VpnStatsRow>,
    now: UtcTime,
    w: VpnSparklineWindow,
    i: int,
)
    requires
        figures(a).to_multiset() == figures(b).to_multiset(),
    ensures
        crate::traffic::up_in(a, now, w, i) == crate::traffic::up_in(b, now, w, i),
        crate::traffic::down_in(a, now, w, i) == crate::traffic::down_in(b, now, w, i),
    decreases a.len(),
{
    broadcast use vstd::seq_lib::group_to_multiset_ensures;

    let x = figures(a);
    let y = figures(b);
    assert(x.len() == x.to_multiset().len() && y.len() == y.to_multiset().len());
    if a.len() > 0 {
        let last = a.len() - 1;
        assert(x.contains(x[last]));
        assert(y.to_multiset().count(x[last]) > 0);
        assert(y.contains(x[last]));
        let k = y.index_of(x[last]);
        assert(x.remove(last).to_multiset() == y.remove(k).to_multiset());
        assert(figures(a.remove(last)) =~= x.remove(last));
        assert(figures(b.remove(k)) =~= y.remove(k));
        lemma_cells_reordered(a.remove(last), b.remove(k), now, w, i);
        lemma_taken_out(a, last, now, w, i);
        lemma_taken_out(b, k, now, w, i);
        lemma_one_row(a[last], b[k], now, w, i);
    }
}

proof fn lemma_one_row(
    a: VpnStatsRow,
    b: VpnStatsRow,
    now: UtcTime,
    w: VpnSparklineWindow,
    i: int,
)
    requires
        a.ts.stamp() == b.ts.stamp(),
        a.upload_bytes == b.upload_bytes,
        a.download_bytes == b.download_bytes,
    ensures
        crate::traffic::up_in(seq![a], now, w, i) == crate::traffic::up_in(seq![b], now, w, i),
        crate::traffic::down_in(seq![a], now, w, i) == crate::traffic::down_in(seq![b], now, w, i),
{
    reveal_with_fuel(crate::traffic::up_in, 2);
    reveal_with_fuel(crate::traffic::down_in, 2);
    assert(seq![a].drop_last() =~= Seq::empty());
    assert(seq![b].drop_last() =~= Seq::empty());
    assert(seq![a].last() == a && seq![b].last() == b);
}

/// The order in which snapshots are read does not matter: the same instants and
/// bytes give the same series.
pub proof fn trend_ignores_row_order(
    a: Seq<VpnStatsRow>,
    b: Seq<VpnStatsRow>,
    now: UtcTime,
    w: VpnSparklineWindow,
)
    requires
        figures(a).to_multiset() == figures(b).to_multiset(),
    ensures
        crate::traffic::trend_cells(a, now, w) == crate::traffic::trend_cells(b, now, w),
        crate::traffic::up_cells(a, now, w) == crate::traffic::up_cells(b, now, w),
        crate::traffic::down_cells(a, now, w) == crate::traffic::down_cells(b, now, w),
{
    assert forall|i: int| crate::traffic::up_in(a, now, w, i) == #[trigger] crate::traffic::up_in(
        b,
        now,
        w,
        i,
    ) by {
        lemma_cells_reordered(a, b, now, w, i);
    }
    assert forall|i: int|
        crate::traffic::down_in(a, now, w, i) == #[trigger] crate::traffic::down_in(b, now, w, i) by {
        lemma_cells_reordered(a, b, now, w, i);
    }
    assert(crate::traffic::trend_cells(a, now, w) =~= crate::traffic::trend_cells(b, now, w));
    assert(crate::traffic::up_cells(a, now, w) =~= crate::traffic::up_cells(b, now, w));
    assert(crate::traffic::down_cells(a, now, w) =~= crate::traffic::down_cells(b, now, w));
}

/// Rows outside the window count nowhere: one more of them leaves every cell
/// as it is, and with the cells the maximum and the total of the chart.
pub proof fn outside_rows_do_not_count(
    rows: Seq<VpnStatsRow>,
    row: VpnStatsRow,
    now: UtcTime,
    w: VpnSparklineWindow,
)
    requires
        crate::traffic::cell_of(now, row.ts, w) is None,
    ensures
        crate::traffic::trend_cells(rows.push(row), now, w) == crate::traffic::trend_cells(
            rows,
            now,
            w,
        ),
        crate::traffic::up_cells(rows.push(row), now, w) == crate::traffic::up_cells(rows, now, w),
        crate::traffic::down_cells(rows.push(row), now, w) == crate::traffic::down_cells(
            rows,
            now,
            w,
        ),
{
    let more = rows.push(row);
    assert(more.drop_last() =~= rows);
    assert(crate::traffic::trend_cells(more, now, w) =~= crate::traffic::trend_cells(rows, now, w));
    assert(crate::traffic::up_cells(more, now, w) =~= crate::traffic::up_cells(rows, now, w));
    assert(crate::traffic::down_cells(more, now, w) =~= crate::traffic::down_cells(rows, now, w));
}

/// Bytes uploaded over all entries.
pub open spec fn uploads(v: Seq<ServerTraffic>) -> int
    decreases v.len(),
{
    if v.len() == 0 {
        0
    } else {
        uploads(v.drop_last()) + v.last().up
    }
}

/// Bytes downloaded over all entries.
pub open spec fn downloads(v: Seq<ServerTraffic>) -> int
    decreases v.len(),
{
    if v.len() == 0 {
        0
    } else {
        downloads(v.drop_last()) + v.last().down
    }
}

/// Bytes uploaded on the servers `ids`.
spec fn up_on(ids: Seq<Seq<char>>, rows: Seq<VpnStatsRow>) -> int
    decreases ids.len(),
{
    if ids.len() == 0 {
        0
    } else {
        up_on(ids.drop_last(), rows) + crate::traffic::up_sum(
            crate::traffic::rows_of_server(rows, ids.last()),
        )
    }
}

/// Bytes downloaded on the servers `ids`.
spec fn down_on(ids: Seq<Seq<char>>, rows: Seq<VpnStatsRow>) -> int
    decreases ids.len(),
{
    if ids.len() == 0 {
        0
    } else {
        down_on(ids.drop_last(), rows) + crate::traffic::down_sum(
            crate::traffic::rows_of_server(rows, ids.last()),
        )
    }
}

proof fn lemma_one_row_more(rows: Seq<VpnStatsRow>, id: Seq<char>)
    requires
        rows.len() > 0,
    ensures
        crate::traffic::rows_of_server(rows, id) == (if rows.last().server_id@ == id {
            crate::traffic::rows_of_server(rows.drop_last(), id).push(rows.last())
        } else {
            crate::traffic::rows_of_server(rows.drop_last(), id)
        }),
{
    reveal(Seq::filter);
}

proof fn lemma_row_added(ids: Seq<Seq<char>>, rows: Seq<VpnStatsRow>)
    requires
        rows.len() > 0,
        ids.no_duplicates(),
    ensures
        up_on(ids, rows) == up_on(ids, rows.drop_last()) + (if ids.contains(
            rows.last().server_id@,
        ) {
            rows.last().upload_bytes as int
        } else {
            0
        }),
        down_on(ids, rows) == down_on(ids, rows.drop_last()) + (if ids.contains(
            rows.last().server_id@,
        ) {
            rows.last().download_bytes as int
        } else {
            0
        }),
    decreases ids.len(),
{
    if ids.len() > 0 {
        let id = rows.last().server_id@;
        let front = ids.drop_last();
        lemma_row_added(front, rows);
        lemma_one_row_more(rows, ids.last());
        let before = crate::traffic::rows_of_server(rows.drop_last(), ids.last());
        assert(before.push(rows.last()).drop_last() =~= before);
        if front.contains(id) {
            let k = front.index_of(id);
            assert(ids[k] == id && ids[ids.len() - 1] != id);
            assert(ids.contains(ids[k]));
        } else if ids.contains(id) {
            let k = ids.index_of(id);
            if k < front.len() {
                assert(front[k] == id);
            }
            assert(ids.last() == id);
        } else {
            assert(ids.contains(ids[ids.len() - 1]));
        }
    }
}

proof fn lemma_servers_make_up_all(ids: Seq<Seq<char>>, rows: Seq<VpnStatsRow>)
    requires
        ids.no_duplicates(),
        forall|k: int| 0 <= k < rows.len() ==> ids.contains(#[trigger] rows[k].server_id@),
    ensures
        up_on(ids, rows) == crate::traffic::up_sum(rows),
        down_on(ids, rows) == crate::traffic::down_sum(rows),
    decreases rows.len(),
{
    if rows.len() > 0 {
        let last = rows.len() - 1;
        assert(ids.contains(rows[last].server_id@));
        assert forall|k: int| 0 <= k < last implies ids.contains(
            #[trigger] rows.drop_last()[k].server_id@,
        ) by {
            assert(ids.contains(rows[k].server_id@));
        }
        lemma_servers_make_up_all(ids, rows.drop_last());
        lemma_row_added(ids, rows);
    } else {
        lemma_no_rows(ids, rows);
    }
}

proof fn lemma_no_rows(ids: Seq<Seq<char>>, rows: Seq<VpnStatsRow>)
    requires
        rows.len() == 0,
    ensures
        up_on(ids, rows) == 0,
        down_on(ids, rows) == 0,
    decreases ids.len(),
{
    if ids.len() > 0 {
        lemma_no_rows(ids.drop_last(), rows);
        reveal(Seq::filter);
    }
}

proof fn lemma_part_of_sum(ids: Seq<Seq<char>>, rows: Seq<VpnStatsRow>)
    ensures
        0 <= up_on(ids, rows),
        0 <= down_on(ids, rows),
    decreases ids.len(),
{
    if ids.len() > 0 {
        lemma_part_of_sum(ids.drop_last(), rows);
        crate::traffic::row_sums_are_counts(crate::traffic::rows_of_server(rows, ids.last()));
    }
}

proof fn lemma_entries_sum(v: Seq<ServerTraffic>, rows: Seq<VpnStatsRow>)
    requires
        forall|i: int|
            0 <= i < v.len() ==> crate::traffic::server_traffic(
                #[trigger] v[i],
                rows,
                v[i].server_id@,
            ),
    ensures
        up_on(v.map_values(|t: ServerTraffic| t.server_id@), rows) <= u64::MAX ==> uploads(v)
            == up_on(v.map_values(|t: ServerTraffic| t.server_id@), rows),
        down_on(v.map_values(|t: ServerTraffic| t.server_id@), rows) <= u64::MAX ==> downloads(v)
            == down_on(v.map_values(|t: ServerTraffic| t.server_id@), rows),
    decreases v.len(),
{
    let name = |t: ServerTraffic| t.server_id@;
    let ids = v.map_values(name);
    if v.len() > 0 {
        let last = v.len() - 1;
        assert(ids.drop_last() =~= v.drop_last().map_values(name));
        assert(ids.last() == v[last].server_id@);
        lemma_entries_sum(v.drop_last(), rows);
        lemma_part_of_sum(ids.drop_last(), rows);
        crate::traffic::row_sums_are_counts(crate::traffic::rows_of_server(rows, ids.last()));
        assert(crate::traffic::server_traffic(v[last], rows, v[last].server_id@));
    }
}

proof fn lemma_peak_bounds(rows: Seq<VpnStatsRow>)
    ensures
        forall|k: int|
            0 <= k < rows.len() ==> (#[trigger] rows[k]).active_connections
                <= crate::traffic::peak(rows),
        rows.len() == 0 ==> crate::traffic::peak(rows) == 0,
        rows.len() > 0 ==> exists|k: int|
            0 <= k < rows.len() && (#[trigger] rows[k]).active_connections
                == crate::traffic::peak(rows),
    decreases rows.len(),
{
    if rows.len() > 0 {
        let front = rows.drop_last();
        lemma_peak_bounds(front);
        assert forall|k: int| 0 <= k < rows.len() implies (#[trigger] rows[k]).active_connections
            <= crate::traffic::peak(rows) by {
            if k < front.len() {
                assert(front[k] == rows[k]);
            }
        }
        if rows.last().active_connections > crate::traffic::peak(front) {
            assert(rows[rows.len() - 1].active_connections == crate::traffic::peak(rows));
        } else if front.len() > 0 {
            let k = choose|k: int|
                0 <= k < front.len() && (#[trigger] front[k]).active_connections
                    == crate::traffic::peak(front);
            assert(rows[k].active_connections == crate::traffic::peak(rows));
        } else {
            assert(rows[0].active_connections == crate::traffic::peak(rows));
        }
    }
}

proof fn lemma_rows_of_server(rows: Seq<VpnStatsRow>, id: Seq<char>)
    ensures
        forall|k: int|
            0 <= k < crate::traffic::rows_of_server(rows, id).len() ==> rows.contains(
                #[trigger] crate::traffic::rows_of_server(rows, id)[k],
            ),
        forall|k: int|
            0 <= k < rows.len() && (#[trigger] rows[k]).server_id@ == id
                ==> crate::traffic::rows_of_server(rows, id).contains(rows[k]),
    decreases rows.len(),
{
    let own = crate::traffic::rows_of_server(rows, id);
    if rows.len() > 0 {
        let front = rows.drop_last();
        let before = crate::traffic::rows_of_server(front, id);
        lemma_rows_of_server(front, id);
        lemma_one_row_more(rows, id);
        assert forall|k: int| 0 <= k < own.len() implies rows.contains(#[trigger] own[k]) by {
            if k < before.len() {
                assert(own[k] == before[k]);
                assert(front.contains(before[k]));
                let at = front.index_of(before[k]);
                assert(rows[at] == own[k]);
            } else {
                assert(rows[rows.len() - 1] == own[k]);
            }
        }
        assert forall|k: int| 0 <= k < rows.len() && (#[trigger] rows[k]).server_id@ == id implies
            own.contains(rows[k]) by {
            if k < front.len() {
                assert(front[k] == rows[k]);
                let at = before.index_of(rows[k]);
                assert(own[at] == rows[k]);
            } else {
                assert(own[own.len() - 1] == rows[k]);
            }
        }
    } else {
        reveal(Seq::filter);
    }
}

/// The servers make up the whole: where the bytes of all rows fit in 64 bits,
/// those listed per server add up to the total in each direction.
pub proof fn servers_add_up_to_totals(v: Seq<ServerTraffic>, rows: Seq<VpnStatsRow>)
    requires
        crate::traffic::per_server_of(v, rows),
    ensures
        crate::traffic::up_sum(rows) <= u64::MAX ==> uploads(v) == crate::traffic::up_sum(rows),
        crate::traffic::down_sum(rows) <= u64::MAX ==> downloads(v) == crate::traffic::down_sum(
            rows,
        ),
{
    let ids = v.map_values(|t: ServerTraffic| t.server_id@);
    let all = crate::traffic::server_ids(rows);
    crate::lists::sorted_set_is_distinct(ids, all);
    assert forall|k: int| 0 <= k < rows.len() implies ids.contains(
        #[trigger] rows[k].server_id@,
    ) by {
        assert(all[k] == rows[k].server_id@);
        assert(all.contains(all[k]));
    }
    lemma_servers_make_up_all(ids, rows);
    lemma_entries_sum(v, rows);
}

/// The most connections at once overall are the most on any one server: no
/// server has more, and where there are rows one has as many.
pub proof fn peak_is_largest_server_peak(v: Seq<ServerTraffic>, rows: Seq<VpnStatsRow>)
    requires
        crate::traffic::per_server_of(v, rows),
    ensures
        forall|i: int| 0 <= i < v.len() ==> (#[trigger] v[i]).peak <= crate::traffic::peak(rows),
        rows.len() > 0 ==> exists|i: int|
            0 <= i < v.len() && (#[trigger] v[i]).peak == crate::traffic::peak(rows),
{
    let ids = v.map_values(|t: ServerTraffic| t.server_id@);
    let all = crate::traffic::server_ids(rows);
    lemma_peak_bounds(rows);
    assert forall|i: int| 0 <= i < v.len() implies (#[trigger] v[i]).peak <= crate::traffic::peak(
        rows,
    ) by {
        let own = crate::traffic::rows_of_server(rows, v[i].server_id@);
        assert(crate::traffic::server_traffic(v[i], rows, v[i].server_id@));
        lemma_peak_bounds(own);
        if own.len() > 0 {
            let k = choose|k: int|
                0 <= k < own.len() && (#[trigger] own[k]).active_connections
                    == crate::traffic::peak(own);
            lemma_rows_of_server(rows, v[i].server_id@);
            assert(rows.contains(own[k]));
            let at = rows.index_of(own[k]);
            assert(rows[at].active_connections <= crate::traffic::peak(rows));
        }
    }
    if rows.len() > 0 {
        let k = choose|k: int|
            0 <= k < rows.len() && (#[trigger] rows[k]).active_connections == crate::traffic::peak(
                rows,
            );
        assert(all[k] == rows[k].server_id@);
        assert(all.contains(all[k]));
        assert(ids.contains(rows[k].server_id@));
        let i = ids.index_of(rows[k].server_id@);
        assert(v[i].server_id@ == rows[k].server_id@);
        assert(crate::traffic::server_traffic(v[i], rows, v[i].server_id@));
        let own = crate::traffic::rows_of_server(rows, v[i].server_id@);
        lemma_rows_of_server(rows, v[i].server_id@);
        assert(own.contains(rows[k]));
        let at = own.index_of(rows[k]);
        lemma_peak_bounds(own);
        assert(own[at].active_connections <= crate::traffic::peak(own));
    }
}

} // verus!
