//! Hardware-driven model recommendations, shared by the HTTP route and the
//! CLI so both give the same answer.
use vstd::prelude::*;

use crate::catalog::{catalog_entry, catalog_has, entry_has_model, spec_catalog};
use crate::hardware::HardwareReport;
use crate::manifest::{manifest_has, spec_models};
use crate::text::owned;

verus! {

/// One suggested provider/model/device combination, with why.
#[derive(Debug, Clone)]
pub struct ModelRecommendation {
    pub provider_id: String,
    pub model_id: String,
    pub device: String,
    pub reason: String,
}

pub struct RecommendationView {
    pub provider_id: Seq<char>,
    pub model_id: Seq<char>,
    pub device: Seq<char>,
    pub reason: Seq<char>,
}

impl View for ModelRecommendation {
    type V = RecommendationView;

    open spec fn view(&self) -> RecommendationView {
        RecommendationView {
            provider_id: self.provider_id@,
            model_id: self.model_id@,
            device: self.device@,
            reason: self.reason@,
        }
    }
}

pub open spec fn rec(
    provider_id: Seq<char>,
    model_id: Seq<char>,
    device: Seq<char>,
    reason: Seq<char>,
) -> RecommendationView {
    RecommendationView { provider_id, model_id, device, reason }
}

/// Only curated combinations are offered: a model the provider catalog
/// lists for that provider, or a sherpa-onnx model of its manifest.
pub open spec fn is_curated(provider_id: Seq<char>, model_id: Seq<char>) -> bool {
    ||| catalog_has(provider_id) && entry_has_model(catalog_entry(provider_id), model_id)
    ||| provider_id == "sherpa-onnx"@ && manifest_has(model_id)
}

/// With an NVIDIA GPU: the catalog's small Whisper on CUDA, then Parakeet
/// on CPU as fallback. Without: Parakeet on CPU first, then the catalog's
/// tiny Whisper on CPU.
pub open spec fn spec_recommend(has_nvidia_gpu: bool) -> Seq<RecommendationView> {
    if has_nvidia_gpu {
        seq![
            rec(
                "faster-whisper"@,
                "Systran/faster-whisper-small"@,
                "cuda"@,
                "NVIDIA GPU detected; the small model gives the best curated accuracy at interactive latency on CUDA."@,
            ),
            rec(
                "sherpa-onnx"@,
                "parakeet-tdt-0.6b-v2"@,
                "cpu"@,
                "Fast CPU fallback when the CUDA runtime is unavailable."@,
            ),
        ]
    } else {
        seq![
            rec(
                "sherpa-onnx"@,
                "parakeet-tdt-0.6b-v2"@,
                "cpu"@,
                "No NVIDIA GPU detected; Parakeet provides the fastest curated CPU transcription option."@,
            ),
            rec(
                "faster-whisper"@,
                "Systran/faster-whisper-tiny"@,
                "cpu"@,
                "CPU fallback for users who need a Whisper model."@,
            ),
        ]
    }
}

fn make(provider_id: &str, model_id: &str, device: &str, reason: &str) -> (r: ModelRecommendation)
    ensures
        r@ == rec(provider_id@, model_id@, device@, reason@),
{
    ModelRecommendation {
        provider_id: owned(provider_id),
        model_id: owned(model_id),
        device: owned(device),
        reason: owned(reason),
    }
}

/// Every recommendation, with or without a GPU, is a curated combination.
pub proof fn lemma_recommendations_are_curated(has_nvidia_gpu: bool)
    ensures
        forall|i: int|
            0 <= i < spec_recommend(has_nvidia_gpu).len() ==> is_curated(
                #[trigger] spec_recommend(has_nvidia_gpu)[i].provider_id,
                spec_recommend(has_nvidia_gpu)[i].model_id,
            ),
{
    let fw = spec_catalog()[0];
    assert(catalog_has("faster-whisper"@));
    let k = choose|k: int| 0 <= k < spec_catalog().len() && (#[trigger] spec_catalog()[k]).id == "faster-whisper"@;
    assert(k == 0);
    assert(catalog_entry("faster-whisper"@) == fw);
    assert(fw.models[0].id == "Systran/faster-whisper-tiny"@);
    assert(fw.models[2].id == "Systran/faster-whisper-small"@);
    assert(entry_has_model(fw, "Systran/faster-whisper-tiny"@));
    assert(entry_has_model(fw, "Systran/faster-whisper-small"@));
    assert(spec_models()[3].id == "parakeet-tdt-0.6b-v2"@);
    assert(manifest_has("parakeet-tdt-0.6b-v2"@));
}

/// The recommendations for a machine (see [`spec_recommend`]); only
/// whether it has an NVIDIA GPU matters, and every one names a curated
/// provider/model combination.
pub fn recommend(hardware: &HardwareReport) -> (r: Vec<ModelRecommendation>)
    ensures
        r@.map_values(|m: ModelRecommendation| m@) == spec_recommend(hardware.has_nvidia_gpu),
        forall|i: int|
            0 <= i < r@.len() ==> is_curated(#[trigger] r@[i].provider_id@, r@[i].model_id@),
{
    proof {
        lemma_recommendations_are_curated(hardware.has_nvidia_gpu);
    }
    let mut r: Vec<ModelRecommendation> = Vec::new();
    if hardware.has_nvidia_gpu {
        r.push(
            make(
                "faster-whisper",
                "Systran/faster-whisper-small",
                "cuda",
                "NVIDIA GPU detected; the small model gives the best curated accuracy at interactive latency on CUDA.",
            ),
        );
        r.push(
            make(
                "sherpa-onnx",
                "parakeet-tdt-0.6b-v2",
                "cpu",
                "Fast CPU fallback when the CUDA runtime is unavailable.",
            ),
        );
    } else {
        r.push(
            make(
                "sherpa-onnx",
                "parakeet-tdt-0.6b-v2",
                "cpu",
                "No NVIDIA GPU detected; Parakeet provides the fastest curated CPU transcription option.",
            ),
        );
        r.push(
            make(
                "faster-whisper",
                "Systran/faster-whisper-tiny",
                "cpu",
                "CPU fallback for users who need a Whisper model.",
            ),
        );
    }
    assert(r@.map_values(|m: ModelRecommendation| m@) =~= spec_recommend(hardware.has_nvidia_gpu));
    assert forall|i: int| 0 <= i < r@.len() implies is_curated(
        #[trigger] r@[i].provider_id@,
        r@[i].model_id@,
    ) by {
        assert(r@.map_values(|m: ModelRecommendation| m@)[i] == r@[i]@);
        assert(spec_recommend(hardware.has_nvidia_gpu)[i] == r@[i]@);
        assert(is_curated(
            spec_recommend(hardware.has_nvidia_gpu)[i].provider_id,
            spec_recommend(hardware.has_nvidia_gpu)[i].model_id,
        ));
    }
    r
}

/// A CUDA device is recommended only on a machine with an NVIDIA GPU:
/// without one every recommendation runs on the CPU; with one the first
/// recommendation uses CUDA, with faster-whisper, while a machine without
/// one is first offered sherpa-onnx. Every recommendation names one of
/// these two devices, and there is always at least one.
pub proof fn law_cuda_only_with_a_gpu(has_nvidia_gpu: bool)
    ensures
        spec_recommend(has_nvidia_gpu).len() > 0,
        forall|i: int|
            0 <= i < spec_recommend(has_nvidia_gpu).len() ==> (#[trigger] spec_recommend(
                has_nvidia_gpu,
            )[i].device == "cpu"@ || spec_recommend(has_nvidia_gpu)[i].device == "cuda"@),
        forall|i: int|
            0 <= i < spec_recommend(has_nvidia_gpu).len() && #[trigger] spec_recommend(
                has_nvidia_gpu,
            )[i].device == "cuda"@ ==> has_nvidia_gpu,
        !has_nvidia_gpu ==> forall|i: int|
            0 <= i < spec_recommend(has_nvidia_gpu).len() ==> #[trigger] spec_recommend(
                has_nvidia_gpu,
            )[i].device == "cpu"@,
        has_nvidia_gpu ==> spec_recommend(has_nvidia_gpu)[0].device == "cuda"@,
        has_nvidia_gpu ==> spec_recommend(has_nvidia_gpu)[0].provider_id == "faster-whisper"@,
        !has_nvidia_gpu ==> spec_recommend(has_nvidia_gpu)[0].provider_id == "sherpa-onnx"@,
{
    reveal_strlit("cpu");
    reveal_strlit("cuda");
    assert("cpu"@ != "cuda"@) by {
        assert("cpu"@.len() != "cuda"@.len());
    }
}

} // verus!
