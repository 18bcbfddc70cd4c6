//! Properties of the rasterization that hold for every configuration and
//! every stream of samples.

use crate::aggregator::{lemma_rendered_push, mark_colour, marked_by, rendered, Aggregator};
use crate::canvas::canvas_pixels;
use crate::raster::{RasterConfig, Sample};
use vstd::prelude::*;

verus! {

/// The last column and row of the raster are inside it; one unit beyond
/// either is outside.
pub proof fn lemma_raster_bounds(cfg: RasterConfig, x: int, y: int)
    requires
        cfg.width > 0,
        cfg.height > 0,
    ensures
        cfg.pixel_of(cfg.width - 1 - cfg.x_offset, cfg.height - 1 - cfg.y_offset) == Some(
            ((cfg.width - 1) as u32, (cfg.height - 1) as u32),
        ),
        cfg.pixel_of(cfg.width - cfg.x_offset, y) is None,
        cfg.pixel_of(x, cfg.height - cfg.y_offset) is None,
{
}

/// A sample that falls outside the raster leaves every worker's raster as it
/// was.
pub proof fn lemma_discarded_sample(cfg: RasterConfig, samples: Seq<Sample>, s: Sample, k: int)
    requires
        cfg.sample_pixel(s) is None,
    ensures
        rendered(cfg, samples.push(s), k) == rendered(cfg, samples, k),
{
    lemma_rendered_push(cfg, samples, s, k);
}

/// A sample of another worker leaves the raster of worker `k` as it was.
pub proof fn lemma_other_worker_sample(cfg: RasterConfig, samples: Seq<Sample>, s: Sample, k: int)
    requires
        s.worker_id != k,
    ensures
        rendered(cfg, samples.push(s), k) == rendered(cfg, samples, k),
{
    lemma_rendered_push(cfg, samples, s, k);
}

/// Every marked pixel of the raster of worker `k` was hit by a sample tagged
/// `k`.
pub proof fn lemma_marks_come_from_own_worker(
    cfg: RasterConfig,
    samples: Seq<Sample>,
    k: int,
    p: (u32, u32),
)
    requires
        rendered(cfg, samples, k).contains_key(p),
        rendered(cfg, samples, k)[p] == mark_colour(),
    ensures
        exists|i: int|
            #![trigger samples[i]]
            0 <= i < samples.len() && samples[i].worker_id == k && cfg.sample_pixel(samples[i])
                == Some(p),
{
}

/// Marking a pixel a second time, by a sample of the same worker that falls
/// on the same pixel, leaves every raster as marking it once did.
pub proof fn lemma_mark_idempotent(
    cfg: RasterConfig,
    samples: Seq<Sample>,
    a: Sample,
    b: Sample,
    k: int,
)
    requires
        a.worker_id == b.worker_id,
        cfg.sample_pixel(a) == cfg.sample_pixel(b),
    ensures
        rendered(cfg, samples.push(a).push(b), k) == rendered(cfg, samples.push(a), k),
{
    lemma_rendered_push(cfg, samples, a, k);
    lemma_rendered_push(cfg, samples.push(a), b, k);
    match cfg.sample_pixel(a) {
        Some(p) => {
            if a.worker_id == k {
                assert(rendered(cfg, samples, k).insert(p, mark_colour()).insert(p, mark_colour())
                    =~= rendered(cfg, samples, k).insert(p, mark_colour()));
            }
        },
        None => {},
    }
}

/// Two streams that hold the same samples, in whatever order they arrived,
/// give every worker the same raster.
pub proof fn lemma_order_irrelevant(cfg: RasterConfig, s1: Seq<Sample>, s2: Seq<Sample>, k: int)
    requires
        s1.to_multiset() == s2.to_multiset(),
    ensures
        s1.len() == s2.len(),
        rendered(cfg, s1, k) == rendered(cfg, s2, k),
{
    broadcast use vstd::seq_lib::group_to_multiset_ensures;

    assert(s1.len() == s1.to_multiset().len());
    assert(s2.len() == s2.to_multiset().len());
    assert forall|p: (u32, u32)| marked_by(cfg, s1, k, p) implies marked_by(cfg, s2, k, p) by {
        let i = choose|i: int|
            #![trigger s1[i]]
            0 <= i < s1.len() && s1[i].worker_id == k && cfg.sample_pixel(s1[i]) == Some(p);
        assert(s1.contains(s1[i]));
        assert(s1.to_multiset().count(s1[i]) > 0);
        assert(s2.to_multiset().count(s1[i]) > 0);
        assert(s2.contains(s1[i]));
    }
    assert forall|p: (u32, u32)| marked_by(cfg, s2, k, p) implies marked_by(cfg, s1, k, p) by {
        let i = choose|i: int|
            #![trigger s2[i]]
            0 <= i < s2.len() && s2[i].worker_id == k && cfg.sample_pixel(s2[i]) == Some(p);
        assert(s2.contains(s2[i]));
        assert(s2.to_multiset().count(s2[i]) > 0);
        assert(s1.to_multiset().count(s2[i]) > 0);
        assert(s1.contains(s2[i]));
    }
    assert(rendered(cfg, s1, k) =~= rendered(cfg, s2, k));
}

/// Sum of the lengths of the given streams.
pub open spec fn total_len(streams: Seq<Seq<Sample>>) -> nat
    decreases streams.len(),
{
    if streams.len() == 0 {
        0
    } else {
        streams[0].len() + total_len(streams.drop_first())
    }
}

proof fn lemma_flatten_len(streams: Seq<Seq<Sample>>)
    ensures
        streams.flatten().len() == total_len(streams),
    decreases streams.len(),
{
    if streams.len() > 0 {
        lemma_flatten_len(streams.drop_first());
    }
}

/// When the aggregator has consumed an interleaving of the workers' streams,
/// it has counted exactly as many samples as the workers produced together,
/// and each raster is the one of the streams taken in worker order.
pub proof fn lemma_interleaving_total(a: Aggregator, streams: Seq<Seq<Sample>>)
    requires
        a.wf(),
        a.history@.to_multiset() == streams.flatten().to_multiset(),
    ensures
        a.consumed == total_len(streams),
        forall|k: int|
            0 <= k < a.workers() ==> canvas_pixels(#[trigger] a.canvases@[k]) == rendered(
                a.config,
                streams.flatten(),
                k,
            ),
{
    lemma_flatten_len(streams);
    lemma_order_irrelevant(a.config, a.history@, streams.flatten(), 0);
    assert forall|k: int| 0 <= k < a.workers() implies canvas_pixels(#[trigger] a.canvases@[k])
        == rendered(a.config, streams.flatten(), k) by {
        lemma_order_irrelevant(a.config, a.history@, streams.flatten(), k);
    }
}

} // verus!
