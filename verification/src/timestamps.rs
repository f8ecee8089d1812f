//! Per-pixel "last touched" times, derived from two coarse buffers.
//!
//! The service gives no exact time for a pixel. It gives a heatmap (how many
//! seconds ago a pixel was touched, within a window) and a virginmap (whether a
//! pixel was ever touched). From these and from the instant at which the canvas
//! is presumed to have started, each pixel gets a count of seconds since that
//! instant; 0 stands for "never touched".

use crate::error::ConsistencyError;
use crate::time::{lemma_earlier_by, whole_secs, UnixTime, NANOS_PER_SEC};
use vstd::prelude::*;

verus! {

/// Nanoseconds since the Unix epoch of the instant at which the canvas is
/// presumed to have started, inferred at `now`: one second more than the
/// heatmap's window before `now`. The extra second keeps the oldest touch that
/// the heatmap can show apart from 0, which is kept for "never touched".
pub open spec fn inferred_epoch_nanos(now: UnixTime, heatmap_cooldown: usize) -> int {
    now.total_nanos() - (heatmap_cooldown + 1) * (NANOS_PER_SEC as int)
}

/// The instant at which the canvas is presumed to have started, inferred at `now`.
pub open spec fn inferred_epoch(now: UnixTime, heatmap_cooldown: usize) -> UnixTime {
    now.earlier_by(heatmap_cooldown + 1)
}

/// Whether the inferred start of the canvas is an instant that can be held.
pub open spec fn epoch_inferable(now: UnixTime, heatmap_cooldown: usize) -> bool {
    now.spec_secs() - (heatmap_cooldown + 1) >= i64::MIN
}

/// Infers the instant at which the canvas started; `None` when that instant
/// cannot be held.
pub fn infer_epoch(now: UnixTime, heatmap_cooldown: usize) -> (r: Option<UnixTime>)
    ensures
        r is Some <==> epoch_inferable(now, heatmap_cooldown),
        r matches Some(epoch) ==> {
            &&& epoch == inferred_epoch(now, heatmap_cooldown)
            &&& epoch.wf()
            &&& epoch.total_nanos() == inferred_epoch_nanos(now, heatmap_cooldown)
            &&& epoch.spec_secs() == now.spec_secs() - (heatmap_cooldown + 1)
            &&& epoch.spec_subsec_nanos() == now.spec_subsec_nanos()
        },
{
    let window: u64 = heatmap_cooldown as u64;
    match window.checked_add(1) {
        Some(age) => now.checked_sub_secs(age),
        None => None,
    }
}

/// The timestamp of one pixel: 0 where the virginmap marks it untouched,
/// whatever the heatmap says; else the whole seconds from `epoch` to the
/// instant `heat` seconds before `now`. `None` when that count is negative or
/// does not fit 32 bits.
pub open spec fn pixel_timestamp(heat: u8, virgin: u8, now: UnixTime, epoch: UnixTime) -> Option<
    u32,
> {
    if virgin != 0 {
        Some(0u32)
    } else {
        whole_secs(now.total_nanos() - heat * (NANOS_PER_SEC as int) - epoch.total_nanos())
    }
}

/// Number of pixels that both buffers cover.
pub open spec fn covered(heatmap: Seq<u8>, virginmap: Seq<u8>) -> int {
    if heatmap.len() <= virginmap.len() {
        heatmap.len() as int
    } else {
        virginmap.len() as int
    }
}

/// Whether every covered pixel has a timestamp.
pub open spec fn reconstructible(
    heatmap: Seq<u8>,
    virginmap: Seq<u8>,
    now: UnixTime,
    epoch: UnixTime,
) -> bool {
    forall|i: int|
        0 <= i < covered(heatmap, virginmap) ==> (#[trigger] pixel_timestamp(
            heatmap[i],
            virginmap[i],
            now,
            epoch,
        )) is Some
}

/// The timestamp buffer: one entry for each covered pixel.
pub open spec fn reconstructed(
    heatmap: Seq<u8>,
    virginmap: Seq<u8>,
    now: UnixTime,
    epoch: UnixTime,
) -> Seq<u32> {
    Seq::new(
        covered(heatmap, virginmap) as nat,
        |i: int| pixel_timestamp(heatmap[i], virginmap[i], now, epoch).unwrap(),
    )
}

/// The timestamp of one pixel, computed.
pub fn timestamp_of(heat: u8, virgin: u8, now: UnixTime, epoch: UnixTime) -> (r: Option<u32>)
    ensures
        r == pixel_timestamp(heat, virgin, now, epoch),
{
    if virgin != 0 {
        return Some(0);
    }
    match now.checked_sub_secs(heat as u64) {
        Some(touched) => touched.whole_secs_since(&epoch),
        None => {
            proof {
                // The instant lies before every instant that can be held, so before `epoch`.
                let n = NANOS_PER_SEC as int;
                let ds = now.spec_secs() - heat - epoch.spec_secs();
                assert(ds <= -1);
                assert(ds * n <= -n) by (nonlinear_arith)
                    requires
                        ds <= -1,
                        n > 0,
                ;
                assert((now.spec_secs() - heat - epoch.spec_secs()) * n == now.spec_secs() * n
                    - heat * n - epoch.spec_secs() * n) by (nonlinear_arith);
            }
            None
        },
    }
}

/// Derives the timestamp buffer from a heatmap and a virginmap fetched at `now`,
/// for a canvas that started at `epoch`. Fails, with nothing derived, when some
/// pixel's age is negative or does not fit 32 bits.
pub fn reconstruct_timestamps(
    heatmap: &[u8],
    virginmap: &[u8],
    now: UnixTime,
    epoch: UnixTime,
) -> (r: Result<Vec<u32>, ConsistencyError>)
    ensures
        match r {
            Ok(buffer) => reconstructible(heatmap@, virginmap@, now, epoch) && buffer@
                == reconstructed(heatmap@, virginmap@, now, epoch),
            Err(e) => !reconstructible(heatmap@, virginmap@, now, epoch) && e
                == ConsistencyError::UnrepresentableAge,
        },
{
    let n: usize = if heatmap.len() <= virginmap.len() {
        heatmap.len()
    } else {
        virginmap.len()
    };
    let mut buffer: Vec<u32> = Vec::new();
    let mut i: usize = 0;
    while i < n
        invariant
            i <= n,
            n == covered(heatmap@, virginmap@),
            buffer@.len() == i,
            forall|j: int|
                0 <= j < i ==> (#[trigger] pixel_timestamp(heatmap@[j], virginmap@[j], now, epoch))
                    == Some(buffer@[j]),
        decreases n - i,
    {
        match timestamp_of(heatmap[i], virginmap[i], now, epoch) {
            Some(t) => buffer.push(t),
            None => {
                assert(pixel_timestamp(heatmap@[i as int], virginmap@[i as int], now, epoch) is None);
                return Err(ConsistencyError::UnrepresentableAge);
            },
        }
        i += 1;
    }
    assert(buffer@ =~= reconstructed(heatmap@, virginmap@, now, epoch));
    Ok(buffer)
}

/// What `inferred_epoch` yields where the start of the canvas can be held.
pub proof fn lemma_inferred_epoch(now: UnixTime, heatmap_cooldown: usize)
    requires
        now.wf(),
        epoch_inferable(now, heatmap_cooldown),
    ensures
        inferred_epoch(now, heatmap_cooldown).wf(),
        inferred_epoch(now, heatmap_cooldown).total_nanos() == inferred_epoch_nanos(
            now,
            heatmap_cooldown,
        ),
{
    lemma_earlier_by(now, heatmap_cooldown + 1);
}

/// A pixel that the virginmap marks untouched has timestamp 0, whatever the
/// heatmap holds for it and whatever the two instants are.
pub proof fn lemma_virgin_is_zero(
    heatmap: Seq<u8>,
    virginmap: Seq<u8>,
    now: UnixTime,
    epoch: UnixTime,
    i: int,
)
    requires
        0 <= i < covered(heatmap, virginmap),
        virginmap[i] != 0,
    ensures
        pixel_timestamp(heatmap[i], virginmap[i], now, epoch) == Some(0u32),
        reconstructed(heatmap, virginmap, now, epoch)[i] == 0,
{
}

/// A touched pixel's timestamp, for a canvas whose start was inferred at
/// `connected` from a heatmap window of `heatmap_cooldown` seconds and whose
/// buffers were fetched at `now`: the whole seconds in
/// `(now - heat) - (connected - (heatmap_cooldown + 1))`.
pub proof fn lemma_reconstruction_arithmetic(
    heat: u8,
    now: UnixTime,
    connected: UnixTime,
    heatmap_cooldown: usize,
    epoch: UnixTime,
)
    requires
        epoch.total_nanos() == inferred_epoch_nanos(connected, heatmap_cooldown),
    ensures
        pixel_timestamp(heat, 0, now, epoch) == whole_secs(
            (now.total_nanos() - heat * (NANOS_PER_SEC as int)) - (connected.total_nanos() - (
            heatmap_cooldown + 1) * (NANOS_PER_SEC as int)),
        ),
        now.total_nanos() == connected.total_nanos() && heat <= heatmap_cooldown + 1
            && heatmap_cooldown + 1 - heat <= u32::MAX ==> pixel_timestamp(heat, 0, now, epoch)
            == Some((heatmap_cooldown + 1 - heat) as u32),
{
    let n = NANOS_PER_SEC as int;
    if now.total_nanos() == connected.total_nanos() && heat <= heatmap_cooldown + 1 {
        let k = heatmap_cooldown + 1 - heat;
        let gap = now.total_nanos() - heat * n - epoch.total_nanos();
        assert(gap == k * n) by (nonlinear_arith)
            requires
                gap == now.total_nanos() - heat * n - (connected.total_nanos() - (heatmap_cooldown
                    + 1) * n),
                now.total_nanos() == connected.total_nanos(),
                k == heatmap_cooldown + 1 - heat,
        ;
        assert((k * n) / n == k) by (nonlinear_arith)
            requires
                n > 0,
        ;
        assert(k * n >= 0) by (nonlinear_arith)
            requires
                k >= 0,
                n > 0,
        ;
    }
}

} // verus!
