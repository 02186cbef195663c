//! The library's handle on one parsed beatmap: the engine's owned map plus
//! the three plain values the verified logic reads from it — the native
//! mode, the base bpm (as a bit pattern) and the hit-object count.

use vstd::prelude::*;

use crate::engine::{map_bpm_bits, map_native_mode, map_object_count, parse_beatmap, parses};
use crate::mode::Mode;
use rosu_pp::Beatmap;

verus! {

/// One parsed beatmap, immutable after construction, with the plain values
/// the normalizer needs extracted once at load time.
pub struct BeatmapHandle {
    pub raw: Beatmap,
    pub native_mode: Mode,
    pub bpm: u64,
    pub n_hit_objects: u32,
}

impl BeatmapHandle {
    /// Parse the content of a `.osu` file; `None` exactly when the engine
    /// rejected the bytes.
    pub fn load(bytes: &[u8]) -> (r: Option<BeatmapHandle>)
        ensures
            (r is Some) == parses(bytes@),
    {
        match parse_beatmap(bytes) {
            Some(raw) => {
                let native_mode = map_native_mode(&raw);
                let bpm = map_bpm_bits(&raw);
                let n_hit_objects = map_object_count(&raw);
                Some(BeatmapHandle { raw, native_mode, bpm, n_hit_objects })
            },
            None => None,
        }
    }
}

} // verus!
