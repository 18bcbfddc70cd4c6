//! The single consumer of the sample stream: it routes each sample into the
//! raster of the worker that produced it.

use crate::canvas::{black_pixels, canvas_pixels, canvas_size, in_image, raw_holds, Canvas, Colour};
use crate::raster::{RasterConfig, Sample};
use vstd::prelude::*;

verus! {

/// The colour of a pixel that some sample fell on.
pub open spec fn mark_colour() -> Colour {
    (255u8, 0u8, 0u8)
}

/// The colour of a pixel that no sample fell on.
pub open spec fn background_colour() -> Colour {
    (0u8, 0u8, 0u8)
}

/// Some sample of `samples` tagged `k` falls on pixel `p`.
pub open spec fn marked_by(cfg: RasterConfig, samples: Seq<Sample>, k: int, p: (u32, u32)) -> bool {
    exists|i: int|
        #![trigger samples[i]]
        0 <= i < samples.len() && samples[i].worker_id == k && cfg.sample_pixel(samples[i])
            == Some(p)
}

/// The raster of worker `k` after `samples`: marked where one of its own
/// samples fell, background elsewhere.
pub open spec fn rendered(cfg: RasterConfig, samples: Seq<Sample>, k: int) -> Map<(u32, u32), Colour> {
    Map::new(
        |p: (u32, u32)| in_image(cfg.width, cfg.height, p),
        |p: (u32, u32)|
            if marked_by(cfg, samples, k, p) {
                mark_colour()
            } else {
                background_colour()
            },
    )
}

/// Consuming one more sample `s` changes only the raster of its own worker,
/// and that only at the pixel it falls on.
pub proof fn lemma_rendered_push(cfg: RasterConfig, samples: Seq<Sample>, s: Sample, k: int)
    ensures
        rendered(cfg, samples.push(s), k) == (match cfg.sample_pixel(s) {
            Some(p) => if s.worker_id == k {
                rendered(cfg, samples, k).insert(p, mark_colour())
            } else {
                rendered(cfg, samples, k)
            },
            None => rendered(cfg, samples, k),
        }),
{
    let next = samples.push(s);
    assert forall|p: (u32, u32)|
        marked_by(cfg, next, k, p) == (marked_by(cfg, samples, k, p) || (s.worker_id == k
            && cfg.sample_pixel(s) == Some(p))) by {
        if marked_by(cfg, samples, k, p) {
            let i = choose|i: int|
                #![trigger samples[i]]
                0 <= i < samples.len() && samples[i].worker_id == k && cfg.sample_pixel(samples[i])
                    == Some(p);
            assert(next[i] == samples[i]);
        }
        if s.worker_id == k && cfg.sample_pixel(s) == Some(p) {
            assert(next[samples.len() as int] == s);
        }
        if marked_by(cfg, next, k, p) {
            let i = choose|i: int|
                #![trigger next[i]]
                0 <= i < next.len() && next[i].worker_id == k && cfg.sample_pixel(next[i]) == Some(
                    p,
                );
            if i < samples.len() {
                assert(samples[i] == next[i]);
            }
        }
    }
    match cfg.sample_pixel(s) {
        Some(p) => {
            if s.worker_id == k {
                assert(rendered(cfg, next, k) =~= rendered(cfg, samples, k).insert(p, mark_colour()));
            } else {
                assert(rendered(cfg, next, k) =~= rendered(cfg, samples, k));
            }
        },
        None => {
            assert(rendered(cfg, next, k) =~= rendered(cfg, samples, k));
        },
    }
}

/// Before any sample, no pixel is marked.
pub proof fn lemma_nothing_marked(cfg: RasterConfig, k: int)
    ensures
        forall|p: (u32, u32)| !marked_by(cfg, Seq::<Sample>::empty(), k, p),
{
}

/// The raster of every worker `k < workers` after `samples`.
pub open spec fn all_rendered(cfg: RasterConfig, samples: Seq<Sample>, canvases: Seq<Canvas>) -> bool {
    forall|k: int|
        #![trigger canvases[k]]
        0 <= k < canvases.len() ==> canvas_size(canvases[k]) == (cfg.width, cfg.height)
            && canvas_pixels(canvases[k]) == rendered(cfg, samples, k)
}

/// Drains samples into one raster per worker.
///
/// `history` is every sample consumed so far, in the order of arrival.
pub struct Aggregator {
    pub config: RasterConfig,
    pub canvases: Vec<Canvas>,
    pub consumed: usize,
    pub history: Ghost<Seq<Sample>>,
}

impl Aggregator {
    /// The rasters are those of the consumed samples, and the count is their
    /// number.
    pub open spec fn wf(self) -> bool {
        &&& self.config.wf()
        &&& self.consumed == self.history@.len()
        &&& all_rendered(self.config, self.history@, self.canvases@)
    }

    /// Number of workers, one raster each.
    pub open spec fn workers(self) -> nat {
        self.canvases@.len()
    }

    /// An aggregator for `workers` workers that has consumed nothing: every
    /// raster is background.
    pub fn new(config: RasterConfig, workers: usize) -> (a: Aggregator)
        requires
            config.wf(),
        ensures
            a.wf(),
            a.config == config,
            a.workers() == workers,
            a.history@ == Seq::<Sample>::empty(),
            forall|k: int|
                0 <= k < workers ==> canvas_pixels(#[trigger] a.canvases@[k]) == black_pixels(
                    config.width,
                    config.height,
                ),
    {
        let ghost empty = Seq::<Sample>::empty();
        let mut canvases: Vec<Canvas> = Vec::new();
        let mut i: usize = 0;
        while i < workers
            invariant
                config.wf(),
                i <= workers,
                canvases@.len() == i,
                empty == Seq::<Sample>::empty(),
                all_rendered(config, empty, canvases@),
            decreases workers - i,
        {
            let c = Canvas::new(config.width, config.height);
            assert(canvas_pixels(c) =~= rendered(config, empty, i as int)) by {
                lemma_nothing_marked(config, i as int);
            }
            canvases.push(c);
            i = i + 1;
        }
        proof {
            assert forall|k: int| 0 <= k < workers implies canvas_pixels(
                #[trigger] canvases@[k],
            ) == black_pixels(config.width, config.height) by {
                lemma_nothing_marked(config, k);
                assert(rendered(config, empty, k) =~= black_pixels(config.width, config.height));
            }
        }
        Aggregator { config, canvases, consumed: 0, history: Ghost(empty) }
    }

    /// Routes one sample: it marks the pixel the sample falls on in the
    /// raster of its worker; a sample outside the raster, or of an unknown
    /// worker, changes no raster. Either way it is counted.
    pub fn consume(&mut self, s: Sample)
        requires
            old(self).wf(),
            old(self).consumed < usize::MAX,
        ensures
            final(self).wf(),
            final(self).config == old(self).config,
            final(self).workers() == old(self).workers(),
            final(self).history@ == old(self).history@.push(s),
            final(self).consumed == old(self).consumed + 1,
            forall|k: int|
                0 <= k < old(self).workers() ==> canvas_pixels(#[trigger] final(self).canvases@[k])
                    == (match old(self).config.sample_pixel(s) {
                    Some(p) => if s.worker_id == k {
                        canvas_pixels(old(self).canvases@[k]).insert(p, mark_colour())
                    } else {
                        canvas_pixels(old(self).canvases@[k])
                    },
                    None => canvas_pixels(old(self).canvases@[k]),
                }),
    {
        let ghost before = self.history@;
        if s.worker_id < self.canvases.len() {
            match self.config.to_pixel(s.x, s.y) {
                Some(p) => {
                    self.canvases[s.worker_id].put_pixel(p.0, p.1, (255u8, 0u8, 0u8));
                },
                None => {},
            }
        }
        self.consumed = self.consumed + 1;
        self.history = Ghost(before.push(s));
        proof {
            assert forall|k: int| 0 <= k < self.canvases@.len() implies canvas_size(
                #[trigger] self.canvases@[k],
            ) == (self.config.width, self.config.height) && canvas_pixels(self.canvases@[k])
                == rendered(self.config, self.history@, k) by {
                lemma_rendered_push(self.config, before, s, k);
            }
        }
    }

    /// Whether some sample of worker `k` fell on pixel `(x, y)`.
    pub fn is_marked(&self, k: usize, x: u32, y: u32) -> (r: bool)
        requires
            self.wf(),
            k < self.workers(),
            in_image(self.config.width, self.config.height, (x, y)),
        ensures
            r == marked_by(self.config, self.history@, k as int, (x, y)),
    {
        let c = self.canvases[k].get_pixel(x, y);
        c.0 == 255 && c.1 == 0 && c.2 == 0
    }

    /// Hands over the finished rasters, one per worker in worker order, each
    /// as its row-major RGB data.
    pub fn into_raw_images(self) -> (r: Vec<Vec<u8>>)
        requires
            self.wf(),
        ensures
            r@.len() == self.workers(),
            forall|k: int|
                0 <= k < r@.len() ==> raw_holds(
                    #[trigger] r@[k]@,
                    self.config.width,
                    self.config.height,
                    rendered(self.config, self.history@, k),
                ),
    {
        let ghost all = self.canvases@;
        let mut rest = self.canvases;
        let mut out: Vec<Vec<u8>> = Vec::new();
        while rest.len() > 0
            invariant
                out@.len() + rest@.len() == all.len(),
                rest@ == all.subrange(out@.len() as int, all.len() as int),
                all_rendered(self.config, self.history@, all),
                forall|k: int|
                    0 <= k < out@.len() ==> raw_holds(
                        #[trigger] out@[k]@,
                        self.config.width,
                        self.config.height,
                        rendered(self.config, self.history@, k),
                    ),
            decreases rest@.len(),
        {
            let ghost k = out@.len() as int;
            assert(rest@[0] == all[k]);
            let c = rest.remove(0);
            out.push(c.into_raw());
        }
        out
    }
}

} // verus!
