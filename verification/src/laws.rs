//! What holds of every response, whatever the update rules compute.

use crate::analyzer::{extended, is_response, step_follows, ResponseAccAnalyzer};
use crate::response::Series;
use vstd::prelude::*;

verus! {

/// Two responses of one analyzer to the same samples agree on their first
/// `k` steps, provided each update rule allows one result only.
proof fn lemma_agree_up_to<
    T,
    FA: Fn(ResponseAccAnalyzer<T>, T, T, T, T) -> T,
    FV: Fn(ResponseAccAnalyzer<T>, T, T, T) -> T,
    FX: Fn(ResponseAccAnalyzer<T>, T, T, T, T) -> T,
    FS: Fn(T, T) -> T,
>(
    analyzer: ResponseAccAnalyzer<T>,
    a_1: FA,
    v_1: FV,
    x_1: FX,
    abs_response_acc: FS,
    ext: Seq<T>,
    r1: Series<T>,
    r2: Series<T>,
    k: nat,
)
    requires
        forall|g: T, a: T, v: T, x: T, p: T, q: T|
            a_1.ensures((analyzer, g, a, v, x), p) && a_1.ensures((analyzer, g, a, v, x), q) ==> p
                == q,
        forall|a: T, a1: T, v: T, p: T, q: T|
            v_1.ensures((analyzer, a, a1, v), p) && v_1.ensures((analyzer, a, a1, v), q) ==> p
                == q,
        forall|a: T, a1: T, v: T, x: T, p: T, q: T|
            x_1.ensures((analyzer, a, a1, v, x), p) && x_1.ensures((analyzer, a, a1, v, x), q)
                ==> p == q,
        forall|a: T, g: T, p: T, q: T|
            abs_response_acc.ensures((a, g), p) && abs_response_acc.ensures((a, g), q) ==> p == q,
        is_response(analyzer, a_1, v_1, x_1, abs_response_acc, ext, r1),
        is_response(analyzer, a_1, v_1, x_1, abs_response_acc, ext, r2),
        k <= ext.len(),
    ensures
        r1.x[k as int] == r2.x[k as int],
        r1.v[k as int] == r2.v[k as int],
        r1.a[k as int] == r2.a[k as int],
        k > 0 ==> r1.abs_acc[k - 1] == r2.abs_acc[k - 1],
    decreases k,
{
    if k > 0 {
        let i = k - 1;
        lemma_agree_up_to(analyzer, a_1, v_1, x_1, abs_response_acc, ext, r1, r2, i as nat);
        assert(step_follows(analyzer, a_1, v_1, x_1, abs_response_acc, ext, r1, i));
        assert(step_follows(analyzer, a_1, v_1, x_1, abs_response_acc, ext, r2, i));
    }
}

/// Determinism. Where each of the four update rules allows only one result
/// for given arguments, an analyzer and a record have one response: any two
/// results that `analyze` may return for them are equal, entry by entry.
pub proof fn lemma_response_unique<
    T,
    FA: Fn(ResponseAccAnalyzer<T>, T, T, T, T) -> T,
    FV: Fn(ResponseAccAnalyzer<T>, T, T, T) -> T,
    FX: Fn(ResponseAccAnalyzer<T>, T, T, T, T) -> T,
    FS: Fn(T, T) -> T,
>(
    analyzer: ResponseAccAnalyzer<T>,
    a_1: FA,
    v_1: FV,
    x_1: FX,
    abs_response_acc: FS,
    xg: Seq<T>,
    r1: Series<T>,
    r2: Series<T>,
)
    requires
        forall|g: T, a: T, v: T, x: T, p: T, q: T|
            a_1.ensures((analyzer, g, a, v, x), p) && a_1.ensures((analyzer, g, a, v, x), q) ==> p
                == q,
        forall|a: T, a1: T, v: T, p: T, q: T|
            v_1.ensures((analyzer, a, a1, v), p) && v_1.ensures((analyzer, a, a1, v), q) ==> p
                == q,
        forall|a: T, a1: T, v: T, x: T, p: T, q: T|
            x_1.ensures((analyzer, a, a1, v, x), p) && x_1.ensures((analyzer, a, a1, v, x), q)
                ==> p == q,
        forall|a: T, g: T, p: T, q: T|
            abs_response_acc.ensures((a, g), p) && abs_response_acc.ensures((a, g), q) ==> p == q,
        is_response(
            analyzer,
            a_1,
            v_1,
            x_1,
            abs_response_acc,
            extended(analyzer@.init_xg, xg),
            r1,
        ),
        is_response(
            analyzer,
            a_1,
            v_1,
            x_1,
            abs_response_acc,
            extended(analyzer@.init_xg, xg),
            r2,
        ),
    ensures
        r1 == r2,
{
    let ext = extended(analyzer@.init_xg, xg);
    assert forall|k: int| 0 <= k <= ext.len() implies r1.x[k] == r2.x[k] && r1.v[k] == r2.v[k]
        && r1.a[k] == r2.a[k] && (k > 0 ==> r1.abs_acc[k - 1] == r2.abs_acc[k - 1]) by {
        lemma_agree_up_to(analyzer, a_1, v_1, x_1, abs_response_acc, ext, r1, r2, k as nat);
    }
    assert(r1.x =~= r2.x);
    assert(r1.v =~= r2.v);
    assert(r1.a =~= r2.a);
    assert forall|j: int| 0 <= j < r1.abs_acc.len() implies r1.abs_acc[j] == r2.abs_acc[j] by {
        lemma_agree_up_to(analyzer, a_1, v_1, x_1, abs_response_acc, ext, r1, r2, (j + 1) as nat);
    }
    assert(r1.abs_acc =~= r2.abs_acc);
}

/// A response to samples that all equal `rest` stays at `rest` through step
/// `k`, where the initial state is `rest` and the update rules map `rest` to
/// `rest`.
proof fn lemma_rest_up_to<
    T,
    FA: Fn(ResponseAccAnalyzer<T>, T, T, T, T) -> T,
    FV: Fn(ResponseAccAnalyzer<T>, T, T, T) -> T,
    FX: Fn(ResponseAccAnalyzer<T>, T, T, T, T) -> T,
    FS: Fn(T, T) -> T,
>(
    analyzer: ResponseAccAnalyzer<T>,
    a_1: FA,
    v_1: FV,
    x_1: FX,
    abs_response_acc: FS,
    ext: Seq<T>,
    r: Series<T>,
    rest: T,
    k: nat,
)
    requires
        analyzer@.init_x == rest,
        analyzer@.init_v == rest,
        analyzer@.init_a == rest,
        forall|i: int| 0 <= i < ext.len() ==> ext[i] == rest,
        forall|p: T| a_1.ensures((analyzer, rest, rest, rest, rest), p) ==> p == rest,
        forall|p: T| v_1.ensures((analyzer, rest, rest, rest), p) ==> p == rest,
        forall|p: T| x_1.ensures((analyzer, rest, rest, rest, rest), p) ==> p == rest,
        forall|p: T| abs_response_acc.ensures((rest, rest), p) ==> p == rest,
        is_response(analyzer, a_1, v_1, x_1, abs_response_acc, ext, r),
        k <= ext.len(),
    ensures
        r.x[k as int] == rest,
        r.v[k as int] == rest,
        r.a[k as int] == rest,
        k > 0 ==> r.abs_acc[k - 1] == rest,
    decreases k,
{
    if k > 0 {
        let i = k - 1;
        lemma_rest_up_to(analyzer, a_1, v_1, x_1, abs_response_acc, ext, r, rest, i as nat);
        assert(step_follows(analyzer, a_1, v_1, x_1, abs_response_acc, ext, r, i));
    }
}

/// Zero-input stability. Let `rest` be a value that the update rules keep:
/// whatever each rule returns on arguments that all equal `rest` is `rest`.
/// If the initial state, the ground acceleration at time zero and every
/// sample of the record equal `rest`, then every entry of the response does.
pub proof fn lemma_rest_persists<
    T,
    FA: Fn(ResponseAccAnalyzer<T>, T, T, T, T) -> T,
    FV: Fn(ResponseAccAnalyzer<T>, T, T, T) -> T,
    FX: Fn(ResponseAccAnalyzer<T>, T, T, T, T) -> T,
    FS: Fn(T, T) -> T,
>(
    analyzer: ResponseAccAnalyzer<T>,
    a_1: FA,
    v_1: FV,
    x_1: FX,
    abs_response_acc: FS,
    xg: Seq<T>,
    r: Series<T>,
    rest: T,
)
    requires
        analyzer@.init_x == rest,
        analyzer@.init_v == rest,
        analyzer@.init_a == rest,
        analyzer@.init_xg == rest,
        forall|i: int| 0 <= i < xg.len() ==> xg[i] == rest,
        forall|p: T| a_1.ensures((analyzer, rest, rest, rest, rest), p) ==> p == rest,
        forall|p: T| v_1.ensures((analyzer, rest, rest, rest), p) ==> p == rest,
        forall|p: T| x_1.ensures((analyzer, rest, rest, rest, rest), p) ==> p == rest,
        forall|p: T| abs_response_acc.ensures((rest, rest), p) ==> p == rest,
        is_response(
            analyzer,
            a_1,
            v_1,
            x_1,
            abs_response_acc,
            extended(analyzer@.init_xg, xg),
            r,
        ),
    ensures
        forall|i: int| 0 <= i < r.x.len() ==> r.x[i] == rest,
        forall|i: int| 0 <= i < r.v.len() ==> r.v[i] == rest,
        forall|i: int| 0 <= i < r.a.len() ==> r.a[i] == rest,
        forall|i: int| 0 <= i < r.abs_acc.len() ==> r.abs_acc[i] == rest,
{
    let ext = extended(analyzer@.init_xg, xg);
    assert forall|k: int| 0 <= k <= ext.len() implies r.x[k] == rest && r.v[k] == rest && r.a[k]
        == rest && (k > 0 ==> r.abs_acc[k - 1] == rest) by {
        lemma_rest_up_to(analyzer, a_1, v_1, x_1, abs_response_acc, ext, r, rest, k as nat);
    }
    assert forall|j: int| 0 <= j < r.abs_acc.len() implies r.abs_acc[j] == rest by {
        lemma_rest_up_to(analyzer, a_1, v_1, x_1, abs_response_acc, ext, r, rest, (j + 1) as nat);
    }
}

/// Output length. A response to a record of `n` samples takes `n + 1` steps,
/// one for the ground acceleration at time zero and one for each sample: it
/// holds `n + 1` absolute accelerations and `n + 2` entries in each of the
/// state series, the first of them the analyzer's initial state.
pub proof fn lemma_response_lengths<
    T,
    FA: Fn(ResponseAccAnalyzer<T>, T, T, T, T) -> T,
    FV: Fn(ResponseAccAnalyzer<T>, T, T, T) -> T,
    FX: Fn(ResponseAccAnalyzer<T>, T, T, T, T) -> T,
    FS: Fn(T, T) -> T,
>(
    analyzer: ResponseAccAnalyzer<T>,
    a_1: FA,
    v_1: FV,
    x_1: FX,
    abs_response_acc: FS,
    xg: Seq<T>,
    r: Series<T>,
)
    requires
        is_response(
            analyzer,
            a_1,
            v_1,
            x_1,
            abs_response_acc,
            extended(analyzer@.init_xg, xg),
            r,
        ),
    ensures
        r.abs_acc.len() == xg.len() + 1,
        r.x.len() == xg.len() + 2,
        r.v.len() == xg.len() + 2,
        r.a.len() == xg.len() + 2,
        r.x[0] == analyzer@.init_x,
        r.v[0] == analyzer@.init_v,
        r.a[0] == analyzer@.init_a,
{
}

/// Empty record. The response to a record without samples is the initial
/// state followed by the one step that the ground acceleration at time zero
/// drives, and nothing more.
pub proof fn lemma_empty_record<
    T,
    FA: Fn(ResponseAccAnalyzer<T>, T, T, T, T) -> T,
    FV: Fn(ResponseAccAnalyzer<T>, T, T, T) -> T,
    FX: Fn(ResponseAccAnalyzer<T>, T, T, T, T) -> T,
    FS: Fn(T, T) -> T,
>(
    analyzer: ResponseAccAnalyzer<T>,
    a_1: FA,
    v_1: FV,
    x_1: FX,
    abs_response_acc: FS,
    r: Series<T>,
)
    requires
        is_response(
            analyzer,
            a_1,
            v_1,
            x_1,
            abs_response_acc,
            extended(analyzer@.init_xg, Seq::<T>::empty()),
            r,
        ),
    ensures
        r.x.len() == 2,
        r.v.len() == 2,
        r.a.len() == 2,
        r.abs_acc.len() == 1,
        r.x[0] == analyzer@.init_x,
        r.v[0] == analyzer@.init_v,
        r.a[0] == analyzer@.init_a,
        a_1.ensures(
            (analyzer, analyzer@.init_xg, analyzer@.init_a, analyzer@.init_v, analyzer@.init_x),
            r.a[1],
        ),
        v_1.ensures((analyzer, analyzer@.init_a, r.a[1], analyzer@.init_v), r.v[1]),
        x_1.ensures(
            (analyzer, analyzer@.init_a, r.a[1], analyzer@.init_v, analyzer@.init_x),
            r.x[1],
        ),
        abs_response_acc.ensures((r.a[1], analyzer@.init_xg), r.abs_acc[0]),
{
    let ext = extended(analyzer@.init_xg, Seq::<T>::empty());
    assert(step_follows(analyzer, a_1, v_1, x_1, abs_response_acc, ext, r, 0));
}

/// Mass-invariance, carried from one step to the whole record. Take two
/// analyzers with the same initial state, which may differ in mass,
/// stiffness and damping coefficient. If every result that an update rule
/// allows for the first analyzer it also allows, on the same arguments, for
/// the second, then every response of the first to a record is a response
/// of the second to it.
pub proof fn lemma_response_carries_over<
    T,
    FA: Fn(ResponseAccAnalyzer<T>, T, T, T, T) -> T,
    FV: Fn(ResponseAccAnalyzer<T>, T, T, T) -> T,
    FX: Fn(ResponseAccAnalyzer<T>, T, T, T, T) -> T,
    FS: Fn(T, T) -> T,
>(
    first: ResponseAccAnalyzer<T>,
    second: ResponseAccAnalyzer<T>,
    a_1: FA,
    v_1: FV,
    x_1: FX,
    abs_response_acc: FS,
    xg: Seq<T>,
    r: Series<T>,
)
    requires
        first@.init_x == second@.init_x,
        first@.init_v == second@.init_v,
        first@.init_a == second@.init_a,
        first@.init_xg == second@.init_xg,
        forall|g: T, a: T, v: T, x: T, p: T|
            a_1.ensures((first, g, a, v, x), p) ==> a_1.ensures((second, g, a, v, x), p),
        forall|a: T, a1: T, v: T, p: T|
            v_1.ensures((first, a, a1, v), p) ==> v_1.ensures((second, a, a1, v), p),
        forall|a: T, a1: T, v: T, x: T, p: T|
            x_1.ensures((first, a, a1, v, x), p) ==> x_1.ensures((second, a, a1, v, x), p),
        is_response(first, a_1, v_1, x_1, abs_response_acc, extended(first@.init_xg, xg), r),
    ensures
        is_response(second, a_1, v_1, x_1, abs_response_acc, extended(second@.init_xg, xg), r),
{
    let ext = extended(first@.init_xg, xg);
    assert forall|i: int| 0 <= i < ext.len() implies #[trigger] step_follows(
        second,
        a_1,
        v_1,
        x_1,
        abs_response_acc,
        ext,
        r,
        i,
    ) by {
        assert(step_follows(first, a_1, v_1, x_1, abs_response_acc, ext, r, i));
    }
}

} // verus!
