//! Provider engines: the registry of engines the control plane can
//! manage, and the per-engine install/launch/cache logic.
use vstd::prelude::*;

pub mod cache;
pub mod faster_whisper;
pub mod sherpa_onnx;

use crate::assoc::{keys_unique, pairs, table};
use crate::catalog::spec_catalog;
use crate::text::owned;

verus! {

/// The operating-system family a build or path convention is for.
#[derive(Debug, Clone, Copy, PartialEq, Eq, Structural)]
pub enum Platform {
    Windows,
    Unix,
}

/// An engine the control plane knows how to install, launch and cache
/// models for.
#[derive(Debug, Clone, Copy, PartialEq, Eq, Structural)]
pub enum ProviderEngine {
    FasterWhisper,
    SherpaOnnx,
}

impl View for ProviderEngine {
    type V = ProviderEngine;

    open spec fn view(&self) -> ProviderEngine {
        *self
    }
}

pub open spec fn spec_provider_id(e: ProviderEngine) -> Seq<char> {
    match e {
        ProviderEngine::FasterWhisper => "faster-whisper"@,
        ProviderEngine::SherpaOnnx => "sherpa-onnx"@,
    }
}

impl ProviderEngine {
    /// The provider id this engine serves.
    pub fn provider_id(&self) -> (r: &'static str)
        ensures
            r@ == spec_provider_id(*self),
    {
        match self {
            ProviderEngine::FasterWhisper => "faster-whisper",
            ProviderEngine::SherpaOnnx => "sherpa-onnx",
        }
    }
}

/// Every engine, by provider id.
pub open spec fn spec_registry() -> Map<Seq<char>, ProviderEngine> {
    map![
        "faster-whisper"@ => ProviderEngine::FasterWhisper,
        "sherpa-onnx"@ => ProviderEngine::SherpaOnnx,
    ]
}

/// The engine registry, keyed by each engine's provider id.
pub fn registry() -> (r: Vec<(String, ProviderEngine)>)
    ensures
        keys_unique(pairs(r@)),
        table(r@) == spec_registry(),
{
    let mut r: Vec<(String, ProviderEngine)> = Vec::new();
    let a = ProviderEngine::FasterWhisper;
    let b = ProviderEngine::SherpaOnnx;
    r.push((owned(a.provider_id()), a));
    r.push((owned(b.provider_id()), b));
    proof {
        reveal_strlit("faster-whisper");
        reveal_strlit("sherpa-onnx");
        let s = pairs(r@);
        assert(s =~= seq![("faster-whisper"@, a), ("sherpa-onnx"@, b)]);
        assert(s[0].0[0] != s[1].0[0]);
        assert(crate::assoc::has_key(s, "faster-whisper"@));
        assert(crate::assoc::has_key(s, "sherpa-onnx"@));
        crate::assoc::lemma_as_map_at(s, 0);
        crate::assoc::lemma_as_map_at(s, 1);
        assert(table(r@) =~= spec_registry());
    }
    r
}

/// Every provider of the catalog has an engine to install and run it.
pub proof fn law_every_catalog_provider_has_an_engine()
    ensures
        forall|i: int|
            0 <= i < spec_catalog().len() ==> spec_registry().contains_key(
                #[trigger] spec_catalog()[i].id,
            ),
{
    assert forall|i: int| 0 <= i < spec_catalog().len() implies spec_registry().contains_key(
        #[trigger] spec_catalog()[i].id,
    ) by {
        assert(spec_catalog()[i].id == "faster-whisper"@);
    }
}

} // verus!
